//! The typed RPC surface for the network map snapshot call: its argument
//! and reply records, and their binding to wire envelopes.
use vstd::prelude::*;

use crate::amqp::{
    dec_elem_list, enc_elem_list, enc_elem_list_ok, encode_elem_list, parse_elem_list, view_elems,
    write_composite_named, BodyV, List, Symbol,
};
use crate::de::{
    dec_bin, dec_compound, dec_i32, dec_i64, dec_maybe_desc, dec_str, Deserializer, stepped,
};
use crate::proto;
use crate::ser::{
    enc_bin, enc_composite_named, enc_compound_ok, enc_i32, enc_i64, enc_str, enc_var_ok,
    Serializer,
};
use crate::types::{
    dec_envelope, desc_name_only, descriptor_name_is, corda_name_object_list, Descriptor,
    DescriptorRecV, Envelope, EnvelopeV, ObjectList, RestrictedType, RestrictedTypeV, Schema,
    SchemaV, Try, TryV, TypeNotation, TypeNotationV,
};
use crate::{Codec, Error};

verus! {

/// The byte string `net.corda:ncUcZzvT9YGn0ItdoWW3QQ==`.
pub open spec fn corda_name_node_info() -> Seq<u8> {
    seq![0x6eu8, 0x65u8, 0x74u8, 0x2eu8, 0x63u8, 0x6fu8, 0x72u8, 0x64u8, 0x61u8, 0x3au8, 0x6eu8, 0x63u8, 0x55u8, 0x63u8, 0x5au8, 0x7au8, 0x76u8, 0x54u8, 0x39u8, 0x59u8, 0x47u8, 0x6eu8, 0x30u8, 0x49u8, 0x74u8, 0x64u8, 0x6fu8, 0x57u8, 0x57u8, 0x33u8, 0x51u8, 0x51u8, 0x3du8, 0x3du8]
}

pub fn corda_name_node_info_arr() -> (r: [u8; 34])
    ensures
        r@ == corda_name_node_info(),
{
    let r: [u8; 34] = [0x6e, 0x65, 0x74, 0x2e, 0x63, 0x6f, 0x72, 0x64, 0x61, 0x3a, 0x6e, 0x63, 0x55, 0x63, 0x5a, 0x7a, 0x76, 0x54, 0x39, 0x59, 0x47, 0x6e, 0x30, 0x49, 0x74, 0x64, 0x6f, 0x57, 0x57, 0x33, 0x51, 0x51, 0x3d, 0x3d];
    assert(r@ =~= corda_name_node_info());
    r
}

/// The byte string `net.corda:IA+5d7+UvO6yts6wDzr86Q==`.
pub open spec fn corda_name_network_host_and_port() -> Seq<u8> {
    seq![0x6eu8, 0x65u8, 0x74u8, 0x2eu8, 0x63u8, 0x6fu8, 0x72u8, 0x64u8, 0x61u8, 0x3au8, 0x49u8, 0x41u8, 0x2bu8, 0x35u8, 0x64u8, 0x37u8, 0x2bu8, 0x55u8, 0x76u8, 0x4fu8, 0x36u8, 0x79u8, 0x74u8, 0x73u8, 0x36u8, 0x77u8, 0x44u8, 0x7au8, 0x72u8, 0x38u8, 0x36u8, 0x51u8, 0x3du8, 0x3du8]
}

pub fn corda_name_network_host_and_port_arr() -> (r: [u8; 34])
    ensures
        r@ == corda_name_network_host_and_port(),
{
    let r: [u8; 34] = [0x6e, 0x65, 0x74, 0x2e, 0x63, 0x6f, 0x72, 0x64, 0x61, 0x3a, 0x49, 0x41, 0x2b, 0x35, 0x64, 0x37, 0x2b, 0x55, 0x76, 0x4f, 0x36, 0x79, 0x74, 0x73, 0x36, 0x77, 0x44, 0x7a, 0x72, 0x38, 0x36, 0x51, 0x3d, 0x3d];
    assert(r@ =~= corda_name_network_host_and_port());
    r
}

/// The byte string `net.corda:GaPpq/rL9KtfTOQDN9ZCbA==`.
pub open spec fn corda_name_party_and_certificate() -> Seq<u8> {
    seq![0x6eu8, 0x65u8, 0x74u8, 0x2eu8, 0x63u8, 0x6fu8, 0x72u8, 0x64u8, 0x61u8, 0x3au8, 0x47u8, 0x61u8, 0x50u8, 0x70u8, 0x71u8, 0x2fu8, 0x72u8, 0x4cu8, 0x39u8, 0x4bu8, 0x74u8, 0x66u8, 0x54u8, 0x4fu8, 0x51u8, 0x44u8, 0x4eu8, 0x39u8, 0x5au8, 0x43u8, 0x62u8, 0x41u8, 0x3du8, 0x3du8]
}

pub fn corda_name_party_and_certificate_arr() -> (r: [u8; 34])
    ensures
        r@ == corda_name_party_and_certificate(),
{
    let r: [u8; 34] = [0x6e, 0x65, 0x74, 0x2e, 0x63, 0x6f, 0x72, 0x64, 0x61, 0x3a, 0x47, 0x61, 0x50, 0x70, 0x71, 0x2f, 0x72, 0x4c, 0x39, 0x4b, 0x74, 0x66, 0x54, 0x4f, 0x51, 0x44, 0x4e, 0x39, 0x5a, 0x43, 0x62, 0x41, 0x3d, 0x3d];
    assert(r@ =~= corda_name_party_and_certificate());
    r
}

/// The byte string `net.corda:e+qsW/cJ4ajGpb8YkJWB1A==`.
pub open spec fn corda_name_cert_path() -> Seq<u8> {
    seq![0x6eu8, 0x65u8, 0x74u8, 0x2eu8, 0x63u8, 0x6fu8, 0x72u8, 0x64u8, 0x61u8, 0x3au8, 0x65u8, 0x2bu8, 0x71u8, 0x73u8, 0x57u8, 0x2fu8, 0x63u8, 0x4au8, 0x34u8, 0x61u8, 0x6au8, 0x47u8, 0x70u8, 0x62u8, 0x38u8, 0x59u8, 0x6bu8, 0x4au8, 0x57u8, 0x42u8, 0x31u8, 0x41u8, 0x3du8, 0x3du8]
}

pub fn corda_name_cert_path_arr() -> (r: [u8; 34])
    ensures
        r@ == corda_name_cert_path(),
{
    let r: [u8; 34] = [0x6e, 0x65, 0x74, 0x2e, 0x63, 0x6f, 0x72, 0x64, 0x61, 0x3a, 0x65, 0x2b, 0x71, 0x73, 0x57, 0x2f, 0x63, 0x4a, 0x34, 0x61, 0x6a, 0x47, 0x70, 0x62, 0x38, 0x59, 0x6b, 0x4a, 0x57, 0x42, 0x31, 0x41, 0x3d, 0x3d];
    assert(r@ =~= corda_name_cert_path());
    r
}

/// The byte string `networkMapSnapshot`.
pub open spec fn method_network_map_snapshot() -> Seq<u8> {
    seq![0x6eu8, 0x65u8, 0x74u8, 0x77u8, 0x6fu8, 0x72u8, 0x6bu8, 0x4du8, 0x61u8, 0x70u8, 0x53u8, 0x6eu8, 0x61u8, 0x70u8, 0x73u8, 0x68u8, 0x6fu8, 0x74u8]
}

pub fn method_network_map_snapshot_arr() -> (r: [u8; 18])
    ensures
        r@ == method_network_map_snapshot(),
{
    let r: [u8; 18] = [0x6e, 0x65, 0x74, 0x77, 0x6f, 0x72, 0x6b, 0x4d, 0x61, 0x70, 0x53, 0x6e, 0x61, 0x70, 0x73, 0x68, 0x6f, 0x74];
    assert(r@ =~= method_network_map_snapshot());
    r
}

/// The byte string `java.util.List<java.lang.Object>`.
pub open spec fn java_list_of_object() -> Seq<u8> {
    seq![0x6au8, 0x61u8, 0x76u8, 0x61u8, 0x2eu8, 0x75u8, 0x74u8, 0x69u8, 0x6cu8, 0x2eu8, 0x4cu8, 0x69u8, 0x73u8, 0x74u8, 0x3cu8, 0x6au8, 0x61u8, 0x76u8, 0x61u8, 0x2eu8, 0x6cu8, 0x61u8, 0x6eu8, 0x67u8, 0x2eu8, 0x4fu8, 0x62u8, 0x6au8, 0x65u8, 0x63u8, 0x74u8, 0x3eu8]
}

pub fn java_list_of_object_arr() -> (r: [u8; 32])
    ensures
        r@ == java_list_of_object(),
{
    let r: [u8; 32] = [0x6a, 0x61, 0x76, 0x61, 0x2e, 0x75, 0x74, 0x69, 0x6c, 0x2e, 0x4c, 0x69, 0x73, 0x74, 0x3c, 0x6a, 0x61, 0x76, 0x61, 0x2e, 0x6c, 0x61, 0x6e, 0x67, 0x2e, 0x4f, 0x62, 0x6a, 0x65, 0x63, 0x74, 0x3e];
    assert(r@ =~= java_list_of_object());
    r
}

/// The byte string `list`.
pub open spec fn source_list_word() -> Seq<u8> {
    seq![0x6cu8, 0x69u8, 0x73u8, 0x74u8]
}

pub fn source_list_word_arr() -> (r: [u8; 4])
    ensures
        r@ == source_list_word(),
{
    let r: [u8; 4] = [0x6c, 0x69, 0x73, 0x74];
    assert(r@ =~= source_list_word());
    r
}

/// An encoded certificate path with its encoding type name.
#[derive(Clone, Debug, PartialEq, Eq)]
pub struct CertPath {
    pub data: Vec<u8>,
    pub ty: Vec<u8>,
}

pub struct CertPathV {
    pub data: Seq<u8>,
    pub ty: Seq<u8>,
}

impl View for CertPath {
    type V = CertPathV;

    open spec fn view(&self) -> CertPathV {
        CertPathV {
            data: self.data@,
            ty: self.ty@,
        }
    }
}

pub open spec fn enc_cert_path_fields(v: CertPathV) -> Seq<u8> {
    enc_bin(v.data) + enc_str(v.ty)
}

pub open spec fn enc_cert_path_fields_ok(v: CertPathV) -> bool {
    &&& enc_var_ok(v.data)
    &&& enc_var_ok(v.ty)
}

pub open spec fn enc_cert_path(v: CertPathV) -> Seq<u8> {
    enc_composite_named(corda_name_cert_path(), 2, enc_cert_path_fields(v))
}

pub open spec fn enc_cert_path_ok(v: CertPathV) -> bool {
    enc_cert_path_fields_ok(v) && enc_compound_ok(enc_cert_path_fields(v))
}

#[verifier::opaque]
pub open spec fn dec_cert_path_fields(ctor: Option<u8>, w: Seq<u8>) -> Result<
    (CertPathV, Seq<u8>),
    Error,
> {
    match dec_bin(ctor, w) {
        Err(e) => Err(e),
        Ok((data, w1)) =>
        match dec_str(ctor, w1) {
            Err(e) => Err(e),
            Ok((ty, w2)) =>
            Ok((CertPathV {
                data,
                ty,
            }, w2))
            ,
        }
        ,
    }
}

pub open spec fn dec_cert_path_body(c: Option<u8>, s: Seq<u8>) -> Result<(CertPathV, Seq<u8>), Error> {
    match dec_maybe_desc(c, s) {
        Err(e) => Err(e),
        Ok(s0) => match dec_compound(s0) {
            Err(e) => Err(e),
            Ok(((size, _count, ctor), s1)) => if s1.len() < size {
                Err(Error::UnexpectedEnd)
            } else {
                match dec_cert_path_fields(ctor, s1.take(size as int)) {
                    Err(e) => Err(e),
                    Ok((v, _leftover)) => Ok((v, s1.skip(size as int))),
                }
            },
        },
    }
}

impl CertPath {
    #[verifier::rlimit(100)]
    #[verifier::spinoff_prover]
    pub fn encode(&self, s: &mut Serializer) -> (r: Result<(), Error>)
        ensures
            match r {
                Ok(()) => enc_cert_path_ok(self@) && final(s).bytes() == old(s).bytes()
                    + enc_cert_path(self@),
                Err(e) => !enc_cert_path_ok(self@) && e == Error::InvalidData && *final(s)
                    == *old(s),
            },
    {
        let mut f = Serializer::new();
        f.serialize_bytes(self.data.as_slice())?;
        f.serialize_str(self.ty.as_slice())?;
        proof {
            assert(f.bytes() =~= enc_cert_path_fields(self@));
        }
        ({
            let nm = corda_name_cert_path_arr();
            write_composite_named(s, nm.as_slice(), 2, &f.output)
        })
    }

    pub fn decode_fields(w: &mut Deserializer) -> (r: Result<CertPath, Error>)
        requires
            old(w).wf(),
        ensures
            stepped(*old(w), *final(w)),
            match r {
                Ok(v) => dec_cert_path_fields(old(w).constructor, old(w).remaining()) == Ok::<
                    _,
                    Error,
                >((v@, final(w).remaining())),
                Err(e) => dec_cert_path_fields(old(w).constructor, old(w).remaining()) == Err::<
                    (CertPathV, Seq<u8>),
                    Error,
                >(e),
            },
    {
        proof {
            reveal(dec_cert_path_fields);
        }
        let data = w.parse_bytes()?;
        let ty = w.parse_str()?;
        Ok(CertPath {
            data,
            ty,
        })
    }

    pub fn decode_body(d: &mut Deserializer) -> (r: Result<CertPath, Error>)
        requires
            old(d).wf(),
        ensures
            stepped(*old(d), *final(d)),
            match r {
                Ok(v) => dec_cert_path_body(old(d).constructor, old(d).remaining()) == Ok::<
                    _,
                    Error,
                >((v@, final(d).remaining())),
                Err(e) => dec_cert_path_body(old(d).constructor, old(d).remaining()) == Err::<
                    (CertPathV, Seq<u8>),
                    Error,
                >(e),
            },
    {
        d.skip_redundant_descriptor()?;
        let (size, _count, ctor) = d.composite()?;
        let mut w = d.window(size, ctor)?;
        match CertPath::decode_fields(&mut w) {
            Ok(v) => Ok(v),
            Err(e) => Err(e),
        }
    }
}

/// A legal identity with its certificate path.
#[derive(Clone, Debug, PartialEq, Eq)]
pub struct PartyAndCertificate {
    pub cert_path: CertPath,
}

pub struct PartyAndCertificateV {
    pub cert_path: CertPathV,
}

impl View for PartyAndCertificate {
    type V = PartyAndCertificateV;

    open spec fn view(&self) -> PartyAndCertificateV {
        PartyAndCertificateV {
            cert_path: self.cert_path@,
        }
    }
}

pub open spec fn enc_party_and_certificate_fields(v: PartyAndCertificateV) -> Seq<u8> {
    enc_cert_path_full(v.cert_path)
}

pub open spec fn enc_party_and_certificate_fields_ok(v: PartyAndCertificateV) -> bool {
    enc_cert_path_full_ok(v.cert_path)
}

pub open spec fn enc_party_and_certificate(v: PartyAndCertificateV) -> Seq<u8> {
    enc_composite_named(corda_name_party_and_certificate(), 1, enc_party_and_certificate_fields(v))
}

pub open spec fn enc_party_and_certificate_ok(v: PartyAndCertificateV) -> bool {
    enc_party_and_certificate_fields_ok(v) && enc_compound_ok(enc_party_and_certificate_fields(v))
}

#[verifier::opaque]
pub open spec fn dec_party_and_certificate_fields(ctor: Option<u8>, w: Seq<u8>) -> Result<
    (PartyAndCertificateV, Seq<u8>),
    Error,
> {
    match dec_cert_path_full(ctor, w) {
        Err(e) => Err(e),
        Ok((cert_path, w1)) =>
        Ok((PartyAndCertificateV {
            cert_path,
        }, w1))
        ,
    }
}

pub open spec fn dec_party_and_certificate_body(c: Option<u8>, s: Seq<u8>) -> Result<(PartyAndCertificateV, Seq<u8>), Error> {
    match dec_maybe_desc(c, s) {
        Err(e) => Err(e),
        Ok(s0) => match dec_compound(s0) {
            Err(e) => Err(e),
            Ok(((size, _count, ctor), s1)) => if s1.len() < size {
                Err(Error::UnexpectedEnd)
            } else {
                match dec_party_and_certificate_fields(ctor, s1.take(size as int)) {
                    Err(e) => Err(e),
                    Ok((v, _leftover)) => Ok((v, s1.skip(size as int))),
                }
            },
        },
    }
}

impl PartyAndCertificate {
    #[verifier::rlimit(100)]
    #[verifier::spinoff_prover]
    pub fn encode(&self, s: &mut Serializer) -> (r: Result<(), Error>)
        ensures
            match r {
                Ok(()) => enc_party_and_certificate_ok(self@) && final(s).bytes() == old(s).bytes()
                    + enc_party_and_certificate(self@),
                Err(e) => !enc_party_and_certificate_ok(self@) && e == Error::InvalidData && *final(s)
                    == *old(s),
            },
    {
        let mut f = Serializer::new();
        encode_cert_path_full(&mut f, &self.cert_path)?;
        proof {
            assert(f.bytes() =~= enc_party_and_certificate_fields(self@));
        }
        ({
            let nm = corda_name_party_and_certificate_arr();
            write_composite_named(s, nm.as_slice(), 1, &f.output)
        })
    }

    pub fn decode_fields(w: &mut Deserializer) -> (r: Result<PartyAndCertificate, Error>)
        requires
            old(w).wf(),
        ensures
            stepped(*old(w), *final(w)),
            match r {
                Ok(v) => dec_party_and_certificate_fields(old(w).constructor, old(w).remaining()) == Ok::<
                    _,
                    Error,
                >((v@, final(w).remaining())),
                Err(e) => dec_party_and_certificate_fields(old(w).constructor, old(w).remaining()) == Err::<
                    (PartyAndCertificateV, Seq<u8>),
                    Error,
                >(e),
            },
    {
        proof {
            reveal(dec_party_and_certificate_fields);
        }
        let cert_path = parse_cert_path_full(w)?;
        Ok(PartyAndCertificate {
            cert_path,
        })
    }

    pub fn decode_body(d: &mut Deserializer) -> (r: Result<PartyAndCertificate, Error>)
        requires
            old(d).wf(),
        ensures
            stepped(*old(d), *final(d)),
            match r {
                Ok(v) => dec_party_and_certificate_body(old(d).constructor, old(d).remaining()) == Ok::<
                    _,
                    Error,
                >((v@, final(d).remaining())),
                Err(e) => dec_party_and_certificate_body(old(d).constructor, old(d).remaining()) == Err::<
                    (PartyAndCertificateV, Seq<u8>),
                    Error,
                >(e),
            },
    {
        d.skip_redundant_descriptor()?;
        let (size, _count, ctor) = d.composite()?;
        let mut w = d.window(size, ctor)?;
        match PartyAndCertificate::decode_fields(&mut w) {
            Ok(v) => Ok(v),
            Err(e) => Err(e),
        }
    }
}

/// One advertised address of a node.
#[derive(Clone, Debug, PartialEq, Eq)]
pub struct NetworkHostAndPort {
    pub host: Vec<u8>,
    pub port: i32,
}

pub struct NetworkHostAndPortV {
    pub host: Seq<u8>,
    pub port: i32,
}

impl View for NetworkHostAndPort {
    type V = NetworkHostAndPortV;

    open spec fn view(&self) -> NetworkHostAndPortV {
        NetworkHostAndPortV {
            host: self.host@,
            port: self.port,
        }
    }
}

pub open spec fn enc_network_host_and_port_fields(v: NetworkHostAndPortV) -> Seq<u8> {
    enc_str(v.host) + enc_i32(v.port)
}

pub open spec fn enc_network_host_and_port_fields_ok(v: NetworkHostAndPortV) -> bool {
    enc_var_ok(v.host)
}

pub open spec fn enc_network_host_and_port(v: NetworkHostAndPortV) -> Seq<u8> {
    enc_composite_named(corda_name_network_host_and_port(), 2, enc_network_host_and_port_fields(v))
}

pub open spec fn enc_network_host_and_port_ok(v: NetworkHostAndPortV) -> bool {
    enc_network_host_and_port_fields_ok(v) && enc_compound_ok(enc_network_host_and_port_fields(v))
}

#[verifier::opaque]
pub open spec fn dec_network_host_and_port_fields(ctor: Option<u8>, w: Seq<u8>) -> Result<
    (NetworkHostAndPortV, Seq<u8>),
    Error,
> {
    match dec_str(ctor, w) {
        Err(e) => Err(e),
        Ok((host, w1)) =>
        match dec_i32(w1) {
            Err(e) => Err(e),
            Ok((port, w2)) =>
            Ok((NetworkHostAndPortV {
                host,
                port,
            }, w2))
            ,
        }
        ,
    }
}

pub open spec fn dec_network_host_and_port_body(c: Option<u8>, s: Seq<u8>) -> Result<(NetworkHostAndPortV, Seq<u8>), Error> {
    match dec_maybe_desc(c, s) {
        Err(e) => Err(e),
        Ok(s0) => match dec_compound(s0) {
            Err(e) => Err(e),
            Ok(((size, _count, ctor), s1)) => if s1.len() < size {
                Err(Error::UnexpectedEnd)
            } else {
                match dec_network_host_and_port_fields(ctor, s1.take(size as int)) {
                    Err(e) => Err(e),
                    Ok((v, _leftover)) => Ok((v, s1.skip(size as int))),
                }
            },
        },
    }
}

impl NetworkHostAndPort {
    #[verifier::rlimit(100)]
    #[verifier::spinoff_prover]
    pub fn encode(&self, s: &mut Serializer) -> (r: Result<(), Error>)
        ensures
            match r {
                Ok(()) => enc_network_host_and_port_ok(self@) && final(s).bytes() == old(s).bytes()
                    + enc_network_host_and_port(self@),
                Err(e) => !enc_network_host_and_port_ok(self@) && e == Error::InvalidData && *final(s)
                    == *old(s),
            },
    {
        let mut f = Serializer::new();
        f.serialize_str(self.host.as_slice())?;
        f.serialize_i32(self.port);
        proof {
            assert(f.bytes() =~= enc_network_host_and_port_fields(self@));
        }
        ({
            let nm = corda_name_network_host_and_port_arr();
            write_composite_named(s, nm.as_slice(), 2, &f.output)
        })
    }

    pub fn decode_fields(w: &mut Deserializer) -> (r: Result<NetworkHostAndPort, Error>)
        requires
            old(w).wf(),
        ensures
            stepped(*old(w), *final(w)),
            match r {
                Ok(v) => dec_network_host_and_port_fields(old(w).constructor, old(w).remaining()) == Ok::<
                    _,
                    Error,
                >((v@, final(w).remaining())),
                Err(e) => dec_network_host_and_port_fields(old(w).constructor, old(w).remaining()) == Err::<
                    (NetworkHostAndPortV, Seq<u8>),
                    Error,
                >(e),
            },
    {
        proof {
            reveal(dec_network_host_and_port_fields);
        }
        let host = w.parse_str()?;
        let port = w.parse_i32()?;
        Ok(NetworkHostAndPort {
            host,
            port,
        })
    }

    pub fn decode_body(d: &mut Deserializer) -> (r: Result<NetworkHostAndPort, Error>)
        requires
            old(d).wf(),
        ensures
            stepped(*old(d), *final(d)),
            match r {
                Ok(v) => dec_network_host_and_port_body(old(d).constructor, old(d).remaining()) == Ok::<
                    _,
                    Error,
                >((v@, final(d).remaining())),
                Err(e) => dec_network_host_and_port_body(old(d).constructor, old(d).remaining()) == Err::<
                    (NetworkHostAndPortV, Seq<u8>),
                    Error,
                >(e),
            },
    {
        d.skip_redundant_descriptor()?;
        let (size, _count, ctor) = d.composite()?;
        let mut w = d.window(size, ctor)?;
        match NetworkHostAndPort::decode_fields(&mut w) {
            Ok(v) => Ok(v),
            Err(e) => Err(e),
        }
    }
}

/// One entry of the network map: a node's addresses and identities.
#[derive(Clone, Debug, PartialEq, Eq)]
pub struct NodeInfo {
    pub addresses: List<NetworkHostAndPort>,
    pub legal_identities_and_certs: List<PartyAndCertificate>,
    pub platform_version: i32,
    pub serial: i64,
}

pub struct NodeInfoV {
    pub addresses: Seq<NetworkHostAndPortV>,
    pub legal_identities_and_certs: Seq<PartyAndCertificateV>,
    pub platform_version: i32,
    pub serial: i64,
}

impl View for NodeInfo {
    type V = NodeInfoV;

    open spec fn view(&self) -> NodeInfoV {
        NodeInfoV {
            addresses: view_elems(self.addresses.0@),
            legal_identities_and_certs: view_elems(self.legal_identities_and_certs.0@),
            platform_version: self.platform_version,
            serial: self.serial,
        }
    }
}

pub open spec fn enc_node_info_fields(v: NodeInfoV) -> Seq<u8> {
    enc_elem_list::<NetworkHostAndPort>(v.addresses) + enc_elem_list::<PartyAndCertificate>(v.legal_identities_and_certs) + enc_i32(v.platform_version) + (enc_i64(v.serial))
}

pub open spec fn enc_node_info_fields_ok(v: NodeInfoV) -> bool {
    &&& enc_elem_list_ok::<NetworkHostAndPort>(v.addresses)
    &&& enc_elem_list_ok::<PartyAndCertificate>(v.legal_identities_and_certs)
}

pub open spec fn enc_node_info(v: NodeInfoV) -> Seq<u8> {
    enc_composite_named(corda_name_node_info(), 4, enc_node_info_fields(v))
}

pub open spec fn enc_node_info_ok(v: NodeInfoV) -> bool {
    enc_node_info_fields_ok(v) && enc_compound_ok(enc_node_info_fields(v))
}

#[verifier::opaque]
pub open spec fn dec_node_info_fields(ctor: Option<u8>, w: Seq<u8>) -> Result<
    (NodeInfoV, Seq<u8>),
    Error,
> {
    match dec_elem_list::<NetworkHostAndPort>(ctor, w) {
        Err(e) => Err(e),
        Ok((addresses, w1)) =>
        match dec_elem_list::<PartyAndCertificate>(ctor, w1) {
            Err(e) => Err(e),
            Ok((legal_identities_and_certs, w2)) =>
            match dec_i32(w2) {
                Err(e) => Err(e),
                Ok((platform_version, w3)) =>
                match dec_i64(w3) {
                    Err(e) => Err(e),
                    Ok((serial, w4)) =>
                    Ok((NodeInfoV {
                        addresses,
                        legal_identities_and_certs,
                        platform_version,
                        serial,
                    }, w4))
                    ,
                }
                ,
            }
            ,
        }
        ,
    }
}

pub open spec fn dec_node_info_body(c: Option<u8>, s: Seq<u8>) -> Result<(NodeInfoV, Seq<u8>), Error> {
    match dec_maybe_desc(c, s) {
        Err(e) => Err(e),
        Ok(s0) => match dec_compound(s0) {
            Err(e) => Err(e),
            Ok(((size, _count, ctor), s1)) => if s1.len() < size {
                Err(Error::UnexpectedEnd)
            } else {
                match dec_node_info_fields(ctor, s1.take(size as int)) {
                    Err(e) => Err(e),
                    Ok((v, _leftover)) => Ok((v, s1.skip(size as int))),
                }
            },
        },
    }
}

impl NodeInfo {
    #[verifier::rlimit(100)]
    #[verifier::spinoff_prover]
    pub fn encode(&self, s: &mut Serializer) -> (r: Result<(), Error>)
        ensures
            match r {
                Ok(()) => enc_node_info_ok(self@) && final(s).bytes() == old(s).bytes()
                    + enc_node_info(self@),
                Err(e) => !enc_node_info_ok(self@) && e == Error::InvalidData && *final(s)
                    == *old(s),
            },
    {
        let mut f = Serializer::new();
        encode_elem_list::<NetworkHostAndPort>(&mut f, &self.addresses.0)?;
        encode_elem_list::<PartyAndCertificate>(&mut f, &self.legal_identities_and_certs.0)?;
        f.serialize_i32(self.platform_version);
        f.serialize_i64(self.serial);
        proof {
            assert(f.bytes() =~= enc_node_info_fields(self@));
        }
        ({
            let nm = corda_name_node_info_arr();
            write_composite_named(s, nm.as_slice(), 4, &f.output)
        })
    }

    pub fn decode_fields(w: &mut Deserializer) -> (r: Result<NodeInfo, Error>)
        requires
            old(w).wf(),
        ensures
            stepped(*old(w), *final(w)),
            match r {
                Ok(v) => dec_node_info_fields(old(w).constructor, old(w).remaining()) == Ok::<
                    _,
                    Error,
                >((v@, final(w).remaining())),
                Err(e) => dec_node_info_fields(old(w).constructor, old(w).remaining()) == Err::<
                    (NodeInfoV, Seq<u8>),
                    Error,
                >(e),
            },
    {
        proof {
            reveal(dec_node_info_fields);
        }
        let addresses = List(parse_elem_list::<NetworkHostAndPort>(w)?);
        let legal_identities_and_certs = List(parse_elem_list::<PartyAndCertificate>(w)?);
        let platform_version = w.parse_i32()?;
        let serial = w.parse_i64()?;
        Ok(NodeInfo {
            addresses,
            legal_identities_and_certs,
            platform_version,
            serial,
        })
    }

    pub fn decode_body(d: &mut Deserializer) -> (r: Result<NodeInfo, Error>)
        requires
            old(d).wf(),
        ensures
            stepped(*old(d), *final(d)),
            match r {
                Ok(v) => dec_node_info_body(old(d).constructor, old(d).remaining()) == Ok::<
                    _,
                    Error,
                >((v@, final(d).remaining())),
                Err(e) => dec_node_info_body(old(d).constructor, old(d).remaining()) == Err::<
                    (NodeInfoV, Seq<u8>),
                    Error,
                >(e),
            },
    {
        d.skip_redundant_descriptor()?;
        let (size, _count, ctor) = d.composite()?;
        let mut w = d.window(size, ctor)?;
        match NodeInfo::decode_fields(&mut w) {
            Ok(v) => Ok(v),
            Err(e) => Err(e),
        }
    }
}

/// Node records as list elements and nested records, read as whole
/// described values keyed by their fingerprint names.
pub open spec fn enc_cert_path_full(v: CertPathV) -> Seq<u8> {
    enc_cert_path(v)
}

pub open spec fn enc_cert_path_full_ok(v: CertPathV) -> bool {
    enc_cert_path_ok(v)
}

pub open spec fn dec_cert_path_full(c: Option<u8>, s: Seq<u8>) -> Result<
    (CertPathV, Seq<u8>),
    Error,
> {
    if c is Some {
        Err(Error::InvalidData)
    } else {
        match crate::de::dec_descriptor(None, s) {
            Err(e) => Err(e),
            Ok((dsc, s1)) => if desc_name_only(dsc, corda_name_cert_path()) {
                dec_cert_path_body(None, s1)
            } else {
                Err(Error::InvalidData)
            },
        }
    }
}

pub fn encode_cert_path_full(s: &mut Serializer, v: &CertPath) -> (r: Result<(), Error>)
    ensures
        match r {
            Ok(()) => enc_cert_path_full_ok(v@) && final(s).bytes() == old(s).bytes()
                + enc_cert_path_full(v@),
            Err(e) => !enc_cert_path_full_ok(v@) && e == Error::InvalidData && *final(s) == *old(
                s,
            ),
        },
{
    CertPath::encode(v, s)
}

pub fn parse_cert_path_full(d: &mut Deserializer) -> (r: Result<CertPath, Error>)
    requires
        old(d).wf(),
    ensures
        stepped(*old(d), *final(d)),
        match r {
            Ok(v) => dec_cert_path_full(old(d).constructor, old(d).remaining()) == Ok::<_, Error>(
                (v@, final(d).remaining()),
            ),
            Err(e) => dec_cert_path_full(old(d).constructor, old(d).remaining()) == Err::<
                (CertPathV, Seq<u8>),
                Error,
            >(e),
        },
{
    if d.constructor.is_some() {
        return Err(Error::InvalidData);
    }
    let dsc = d.parse_descriptor()?;
    let nm = corda_name_cert_path_arr();
    if !descriptor_name_is(&dsc, nm.as_slice()) {
        return Err(Error::InvalidData);
    }
    CertPath::decode_body(d)
}

impl Codec for NetworkHostAndPort {
    open spec fn enc(v: NetworkHostAndPortV) -> Seq<u8> {
        enc_network_host_and_port(v)
    }

    open spec fn enc_ok(v: NetworkHostAndPortV) -> bool {
        enc_network_host_and_port_ok(v)
    }

    open spec fn dec(c: Option<u8>, s: Seq<u8>) -> Result<(NetworkHostAndPortV, Seq<u8>), Error> {
        if c is Some {
            Err(Error::InvalidData)
        } else {
            match crate::de::dec_descriptor(None, s) {
                Err(e) => Err(e),
                Ok((dsc, s1)) => if desc_name_only(dsc, corda_name_network_host_and_port()) {
                    dec_network_host_and_port_body(None, s1)
                } else {
                    Err(Error::InvalidData)
                },
            }
        }
    }

    fn encode(&self, s: &mut Serializer) -> (r: Result<(), Error>) {
        NetworkHostAndPort::encode(self, s)
    }

    fn decode<'x>(d: &mut Deserializer<'x>) -> (r: Result<Self, Error>) {
        if d.constructor.is_some() {
            return Err(Error::InvalidData);
        }
        let dsc = d.parse_descriptor()?;
        let nm = corda_name_network_host_and_port_arr();
        if !descriptor_name_is(&dsc, nm.as_slice()) {
            return Err(Error::InvalidData);
        }
        NetworkHostAndPort::decode_body(d)
    }
}

impl Codec for PartyAndCertificate {
    open spec fn enc(v: PartyAndCertificateV) -> Seq<u8> {
        enc_party_and_certificate(v)
    }

    open spec fn enc_ok(v: PartyAndCertificateV) -> bool {
        enc_party_and_certificate_ok(v)
    }

    open spec fn dec(c: Option<u8>, s: Seq<u8>) -> Result<
        (PartyAndCertificateV, Seq<u8>),
        Error,
    > {
        if c is Some {
            Err(Error::InvalidData)
        } else {
            match crate::de::dec_descriptor(None, s) {
                Err(e) => Err(e),
                Ok((dsc, s1)) => if desc_name_only(dsc, corda_name_party_and_certificate()) {
                    dec_party_and_certificate_body(None, s1)
                } else {
                    Err(Error::InvalidData)
                },
            }
        }
    }

    fn encode(&self, s: &mut Serializer) -> (r: Result<(), Error>) {
        PartyAndCertificate::encode(self, s)
    }

    fn decode<'x>(d: &mut Deserializer<'x>) -> (r: Result<Self, Error>) {
        if d.constructor.is_some() {
            return Err(Error::InvalidData);
        }
        let dsc = d.parse_descriptor()?;
        let nm = corda_name_party_and_certificate_arr();
        if !descriptor_name_is(&dsc, nm.as_slice()) {
            return Err(Error::InvalidData);
        }
        PartyAndCertificate::decode_body(d)
    }
}

impl Codec for NodeInfo {
    open spec fn enc(v: NodeInfoV) -> Seq<u8> {
        enc_node_info(v)
    }

    open spec fn enc_ok(v: NodeInfoV) -> bool {
        enc_node_info_ok(v)
    }

    open spec fn dec(c: Option<u8>, s: Seq<u8>) -> Result<(NodeInfoV, Seq<u8>), Error> {
        if c is Some {
            Err(Error::InvalidData)
        } else {
            match crate::de::dec_descriptor(None, s) {
                Err(e) => Err(e),
                Ok((dsc, s1)) => if desc_name_only(dsc, corda_name_node_info()) {
                    dec_node_info_body(None, s1)
                } else {
                    Err(Error::InvalidData)
                },
            }
        }
    }

    fn encode(&self, s: &mut Serializer) -> (r: Result<(), Error>) {
        NodeInfo::encode(self, s)
    }

    fn decode<'x>(d: &mut Deserializer<'x>) -> (r: Result<Self, Error>) {
        if d.constructor.is_some() {
            return Err(Error::InvalidData);
        }
        let dsc = d.parse_descriptor()?;
        let nm = corda_name_node_info_arr();
        if !descriptor_name_is(&dsc, nm.as_slice()) {
            return Err(Error::InvalidData);
        }
        NodeInfo::decode_body(d)
    }
}


impl crate::Described for NodeInfo {
    open spec fn descriptor_code() -> Option<u64> {
        None
    }

    open spec fn descriptor_name() -> Option<Seq<u8>> {
        Some(corda_name_node_info())
    }
}

impl crate::Described for NetworkHostAndPort {
    open spec fn descriptor_code() -> Option<u64> {
        None
    }

    open spec fn descriptor_name() -> Option<Seq<u8>> {
        Some(corda_name_network_host_and_port())
    }
}

impl crate::Described for PartyAndCertificate {
    open spec fn descriptor_code() -> Option<u64> {
        None
    }

    open spec fn descriptor_name() -> Option<Seq<u8>> {
        Some(corda_name_party_and_certificate())
    }
}

// ---------------------------------------------------------------------------
// The call binding
// ---------------------------------------------------------------------------
/// The network map snapshot call: no arguments, a list of node records back.
pub struct NetworkMapSnapshot;

/// The request envelope this call sends: an empty object list, and a schema
/// holding one restricted type for the Java list of objects.
pub open spec fn snapshot_request() -> EnvelopeV<Seq<()>> {
    EnvelopeV {
        obj: Seq::empty(),
        schema: SchemaV {
            types: seq![
                TypeNotationV::RestrictedType(
                    RestrictedTypeV {
                        name: java_list_of_object(),
                        label: None,
                        provides: Seq::empty(),
                        source: source_list_word(),
                        descriptor: DescriptorRecV {
                            name: Some(corda_name_object_list()),
                            code: None,
                        },
                        choices: Seq::empty(),
                    },
                ),
            ],
        },
        transforms_schema: None,
    }
}

/// What the reply decode yields from a received frame: the node records on
/// success; a decoded Failure collapses into invalid data, as the original
/// call surface folds every failure into its unit error.
pub open spec fn dec_snapshot_response(f: proto::FrameV) -> Result<Seq<NodeInfoV>, Error> {
    match f {
        proto::FrameV::Amqp(af) => match af.message {
            Some(m) => match m.body {
                Some(BodyV::Data(b)) => match dec_envelope::<Try<List<NodeInfo>, ()>>(b) {
                    Err(e) => Err(e),
                    Ok(env) => match env.obj {
                        TryV::Success(s) => Ok(s.value),
                        TryV::Failure(_) => Err(Error::InvalidData),
                    },
                },
                _ => Err(Error::InvalidData),
            },
            None => Err(Error::InvalidData),
        },
        _ => Err(Error::InvalidData),
    }
}

impl NetworkMapSnapshot {
    /// The constant method name of this call.
    pub fn method(&self) -> (r: Vec<u8>)
        ensures
            r@ == method_network_map_snapshot(),
    {
        let a = method_network_map_snapshot_arr();
        vstd::slice::slice_to_vec(a.as_slice())
    }

    /// Builds the request envelope.
    pub fn request(&self) -> (r: Envelope<ObjectList>)
        ensures
            r@ == snapshot_request(),
    {
        let name_vec = {
            let a = java_list_of_object_arr();
            vstd::slice::slice_to_vec(a.as_slice())
        };
        let source_vec = {
            let a = source_list_word_arr();
            vstd::slice::slice_to_vec(a.as_slice())
        };
        let fp_vec = {
            let a = crate::types::corda_name_object_list_arr();
            vstd::slice::slice_to_vec(a.as_slice())
        };
        let rt = RestrictedType {
            name: name_vec,
            label: None,
            provides: List(Vec::new()),
            source: source_vec,
            descriptor: Descriptor { name: Some(Symbol(fp_vec)), code: None },
            choices: List(Vec::new()),
        };
        let mut tns: Vec<TypeNotation> = Vec::new();
        tns.push(TypeNotation::RestrictedType(rt));
        let r = Envelope {
            obj: ObjectList(List(Vec::new())),
            schema: Schema { types: List(tns) },
            transforms_schema: None,
        };
        proof {
            assert(r@.obj =~= snapshot_request().obj);
            assert(rt@.provides =~= Seq::<Seq<u8>>::empty());
            assert(rt@.choices =~= Seq::<crate::types::ChoiceV>::empty());
            assert(tns@[0]@ == TypeNotationV::RestrictedType(rt@));
            assert(r@.schema.types =~= snapshot_request().schema.types);
        }
        r
    }

    /// Decodes the reply carried by a received frame.
    pub fn response(&self, frame: &proto::Frame) -> (r: Result<Vec<NodeInfo>, Error>)
        ensures
            match r {
                Ok(v) => dec_snapshot_response(frame@) == Ok::<Seq<NodeInfoV>, Error>(
                    view_elems(v@),
                ),
                Err(e) => dec_snapshot_response(frame@) == Err::<Seq<NodeInfoV>, Error>(e),
            },
    {
        let body: &Vec<u8> = match frame {
            proto::Frame::Amqp(af) => match &af.message {
                Some(m) => match &m.body {
                    Some(crate::amqp::Body::Data(d)) => &d.0,
                    _ => {
                        return Err(Error::InvalidData);
                    },
                },
                None => {
                    return Err(Error::InvalidData);
                },
            },
            _ => {
                return Err(Error::InvalidData);
            },
        };
        let env = Envelope::<Try<List<NodeInfo>, ()>>::decode(body.as_slice())?;
        match env.obj {
            Try::Success(s) => Ok(s.value.0),
            Try::Failure(_) => Err(Error::InvalidData),
        }
    }
}

} // verus!
