//! The SASL layer: the mechanisms advertisement, the initial response and
//! the outcome, carried in frames of type 1.
use vstd::prelude::*;

use crate::amqp::{
    dec_elem_list, dec_variant_index, desc_matches, descriptor_matches, enc_elem_list,
    enc_elem_list_ok, parse_elem_list, view_elems, write_composite,
};
use crate::de::{
    dec_bin, dec_compound, dec_descriptor, dec_maybe_desc, dec_opt_bin, dec_opt_str, dec_u8,
    Descriptor, DescriptorV, Deserializer, stepped,
};
use crate::ser::{
    enc_bin, enc_composite, enc_compound_ok, enc_opt_bin, enc_opt_bin_ok, enc_opt_str,
    enc_opt_str_ok, enc_sym, enc_u8, enc_var_ok, view_opt_bytes, Serializer,
};
use crate::wire::bytes_eq;
use crate::{Codec, Error};

verus! {

/// The byte string `amqp:sasl-mechanisms:list`.
pub open spec fn name_sasl_mechanisms() -> Seq<u8> {
    seq![
        0x61u8, 0x6du8, 0x71u8, 0x70u8, 0x3au8, 0x73u8, 0x61u8, 0x73u8, 0x6cu8, 0x2du8, 0x6du8,
        0x65u8, 0x63u8, 0x68u8, 0x61u8, 0x6eu8, 0x69u8, 0x73u8, 0x6du8, 0x73u8, 0x3au8, 0x6cu8,
        0x69u8, 0x73u8, 0x74u8,
    ]
}

pub fn name_sasl_mechanisms_arr() -> (r: [u8; 25])
    ensures
        r@ == name_sasl_mechanisms(),
{
    let r: [u8; 25] = [
        0x61, 0x6d, 0x71, 0x70, 0x3a, 0x73, 0x61, 0x73, 0x6c, 0x2d, 0x6d, 0x65, 0x63, 0x68, 0x61,
        0x6e, 0x69, 0x73, 0x6d, 0x73, 0x3a, 0x6c, 0x69, 0x73, 0x74,
    ];
    assert(r@ =~= name_sasl_mechanisms());
    r
}

/// The byte string `amqp:sasl-init:list`.
pub open spec fn name_sasl_init() -> Seq<u8> {
    seq![
        0x61u8, 0x6du8, 0x71u8, 0x70u8, 0x3au8, 0x73u8, 0x61u8, 0x73u8, 0x6cu8, 0x2du8, 0x69u8,
        0x6eu8, 0x69u8, 0x74u8, 0x3au8, 0x6cu8, 0x69u8, 0x73u8, 0x74u8,
    ]
}

pub fn name_sasl_init_arr() -> (r: [u8; 19])
    ensures
        r@ == name_sasl_init(),
{
    let r: [u8; 19] = [
        0x61, 0x6d, 0x71, 0x70, 0x3a, 0x73, 0x61, 0x73, 0x6c, 0x2d, 0x69, 0x6e, 0x69, 0x74, 0x3a,
        0x6c, 0x69, 0x73, 0x74,
    ];
    assert(r@ =~= name_sasl_init());
    r
}

/// The byte string `amqp:sasl-outcome:list`.
pub open spec fn name_sasl_outcome() -> Seq<u8> {
    seq![
        0x61u8, 0x6du8, 0x71u8, 0x70u8, 0x3au8, 0x73u8, 0x61u8, 0x73u8, 0x6cu8, 0x2du8, 0x6fu8,
        0x75u8, 0x74u8, 0x63u8, 0x6fu8, 0x6du8, 0x65u8, 0x3au8, 0x6cu8, 0x69u8, 0x73u8, 0x74u8,
    ]
}

pub fn name_sasl_outcome_arr() -> (r: [u8; 22])
    ensures
        r@ == name_sasl_outcome(),
{
    let r: [u8; 22] = [
        0x61, 0x6d, 0x71, 0x70, 0x3a, 0x73, 0x61, 0x73, 0x6c, 0x2d, 0x6f, 0x75, 0x74, 0x63, 0x6f,
        0x6d, 0x65, 0x3a, 0x6c, 0x69, 0x73, 0x74,
    ];
    assert(r@ =~= name_sasl_outcome());
    r
}

/// The byte string `ANONYMOUS`.
pub open spec fn mech_anonymous() -> Seq<u8> {
    seq![0x41u8, 0x4eu8, 0x4fu8, 0x4eu8, 0x59u8, 0x4du8, 0x4fu8, 0x55u8, 0x53u8]
}

pub fn mech_anonymous_arr() -> (r: [u8; 9])
    ensures
        r@ == mech_anonymous(),
{
    let r: [u8; 9] = [0x41, 0x4e, 0x4f, 0x4e, 0x59, 0x4d, 0x4f, 0x55, 0x53];
    assert(r@ =~= mech_anonymous());
    r
}

/// The byte string `PLAIN`.
pub open spec fn mech_plain() -> Seq<u8> {
    seq![0x50u8, 0x4cu8, 0x41u8, 0x49u8, 0x4eu8]
}

pub fn mech_plain_arr() -> (r: [u8; 5])
    ensures
        r@ == mech_plain(),
{
    let r: [u8; 5] = [0x50, 0x4c, 0x41, 0x49, 0x4e];
    assert(r@ =~= mech_plain());
    r
}

/// The byte string `SCRAM_SHA1`.
pub open spec fn mech_scram_sha1() -> Seq<u8> {
    seq![0x53u8, 0x43u8, 0x52u8, 0x41u8, 0x4du8, 0x5fu8, 0x53u8, 0x48u8, 0x41u8, 0x31u8]
}

pub fn mech_scram_sha1_arr() -> (r: [u8; 10])
    ensures
        r@ == mech_scram_sha1(),
{
    let r: [u8; 10] = [0x53, 0x43, 0x52, 0x41, 0x4d, 0x5f, 0x53, 0x48, 0x41, 0x31];
    assert(r@ =~= mech_scram_sha1());
    r
}

/// A SASL mechanism, named by a symbol on the wire.
#[derive(Clone, Copy, Debug, PartialEq, Eq, Structural)]
pub enum Mechanism {
    Anonymous,
    Plain,
    ScramSha1,
}

pub open spec fn mechanism_name(v: Mechanism) -> Seq<u8> {
    match v {
        Mechanism::Anonymous => mech_anonymous(),
        Mechanism::Plain => mech_plain(),
        Mechanism::ScramSha1 => mech_scram_sha1(),
    }
}

impl View for Mechanism {
    type V = Mechanism;

    open spec fn view(&self) -> Mechanism {
        *self
    }
}

impl Codec for Mechanism {
    open spec fn enc(v: Mechanism) -> Seq<u8> {
        enc_sym(mechanism_name(v))
    }

    open spec fn enc_ok(v: Mechanism) -> bool {
        true
    }

    open spec fn dec(c: Option<u8>, s: Seq<u8>) -> Result<(Mechanism, Seq<u8>), Error> {
        match dec_bin(c, s) {
            Err(e) => Err(e),
            Ok((n, r)) => if n == mech_anonymous() {
                Ok((Mechanism::Anonymous, r))
            } else if n == mech_plain() {
                Ok((Mechanism::Plain, r))
            } else if n == mech_scram_sha1() {
                Ok((Mechanism::ScramSha1, r))
            } else {
                Err(Error::InvalidData)
            },
        }
    }

    fn encode(&self, s: &mut Serializer) -> (r: Result<(), Error>) {
        let a: Vec<u8> = match self {
            Mechanism::Anonymous => {
                let x = mech_anonymous_arr();
                vstd::slice::slice_to_vec(x.as_slice())
            },
            Mechanism::Plain => {
                let x = mech_plain_arr();
                vstd::slice::slice_to_vec(x.as_slice())
            },
            Mechanism::ScramSha1 => {
                let x = mech_scram_sha1_arr();
                vstd::slice::slice_to_vec(x.as_slice())
            },
        };
        match s.serialize_symbol(a.as_slice()) {
            Ok(()) => Ok(()),
            Err(e) => {
                proof {
                    assert(false);
                }
                Err(e)
            },
        }
    }

    fn decode<'x>(d: &mut Deserializer<'x>) -> (r: Result<Self, Error>) {
        let n = d.parse_bytes()?;
        let a = mech_anonymous_arr();
        if bytes_eq(n.as_slice(), a.as_slice()) {
            return Ok(Mechanism::Anonymous);
        }
        let a = mech_plain_arr();
        if bytes_eq(n.as_slice(), a.as_slice()) {
            return Ok(Mechanism::Plain);
        }
        let a = mech_scram_sha1_arr();
        if bytes_eq(n.as_slice(), a.as_slice()) {
            return Ok(Mechanism::ScramSha1);
        }
        Err(Error::InvalidData)
    }
}

/// The mechanisms the server offers.
#[derive(Clone, Debug, PartialEq, Eq)]
pub struct Mechanisms {
    pub sasl_server_mechanisms: Vec<Mechanism>,
}

pub struct MechanismsV {
    pub sasl_server_mechanisms: Seq<Mechanism>,
}

impl View for Mechanisms {
    type V = MechanismsV;

    open spec fn view(&self) -> MechanismsV {
        MechanismsV { sasl_server_mechanisms: view_elems(self.sasl_server_mechanisms@) }
    }
}

pub open spec fn enc_mechanisms_fields(v: MechanismsV) -> Seq<u8> {
    enc_elem_list::<Mechanism>(v.sasl_server_mechanisms)
}

pub open spec fn enc_mechanisms(v: MechanismsV) -> Seq<u8> {
    enc_composite(0x40, 1, enc_mechanisms_fields(v))
}

pub open spec fn enc_mechanisms_ok(v: MechanismsV) -> bool {
    enc_elem_list_ok::<Mechanism>(v.sasl_server_mechanisms) && enc_compound_ok(
        enc_mechanisms_fields(v),
    )
}

pub open spec fn dec_mechanisms_fields(ctor: Option<u8>, w: Seq<u8>) -> Result<
    (MechanismsV, Seq<u8>),
    Error,
> {
    match dec_elem_list::<Mechanism>(ctor, w) {
        Err(e) => Err(e),
        Ok((sasl_server_mechanisms, w1)) => Ok((MechanismsV { sasl_server_mechanisms }, w1)),
    }
}

pub open spec fn dec_mechanisms_body(c: Option<u8>, s: Seq<u8>) -> Result<
    (MechanismsV, Seq<u8>),
    Error,
> {
    match dec_maybe_desc(c, s) {
        Err(e) => Err(e),
        Ok(s0) => match dec_compound(s0) {
            Err(e) => Err(e),
            Ok(((size, _count, ctor), s1)) => if s1.len() < size {
                Err(Error::UnexpectedEnd)
            } else {
                match dec_mechanisms_fields(ctor, s1.take(size as int)) {
                    Err(e) => Err(e),
                    Ok((v, _leftover)) => Ok((v, s1.skip(size as int))),
                }
            },
        },
    }
}

impl Mechanisms {
    #[verifier::rlimit(100)]
    #[verifier::spinoff_prover]
    pub fn encode(&self, s: &mut Serializer) -> (r: Result<(), Error>)
        ensures
            match r {
                Ok(()) => enc_mechanisms_ok(self@) && final(s).bytes() == old(s).bytes()
                    + enc_mechanisms(self@),
                Err(e) => !enc_mechanisms_ok(self@) && e == Error::InvalidData && *final(s)
                    == *old(s),
            },
    {
        let mut f = Serializer::new();
        crate::amqp::encode_elem_list::<Mechanism>(&mut f, &self.sasl_server_mechanisms)?;
        proof {
            assert(f.bytes() =~= enc_mechanisms_fields(self@));
        }
        write_composite(s, 0x40, 1, &f.output)
    }

    pub fn decode_body(d: &mut Deserializer) -> (r: Result<Mechanisms, Error>)
        requires
            old(d).wf(),
        ensures
            stepped(*old(d), *final(d)),
            match r {
                Ok(v) => dec_mechanisms_body(old(d).constructor, old(d).remaining()) == Ok::<
                    _,
                    Error,
                >((v@, final(d).remaining())),
                Err(e) => dec_mechanisms_body(old(d).constructor, old(d).remaining()) == Err::<
                    (MechanismsV, Seq<u8>),
                    Error,
                >(e),
            },
    {
        d.skip_redundant_descriptor()?;
        let (size, _count, ctor) = d.composite()?;
        let mut w = d.window(size, ctor)?;
        let sasl_server_mechanisms = parse_elem_list::<Mechanism>(&mut w)?;
        Ok(Mechanisms { sasl_server_mechanisms })
    }
}

/// The client's chosen mechanism with its initial response.
#[derive(Clone, Debug, PartialEq, Eq)]
pub struct Init {
    pub mechanism: Mechanism,
    pub initial_response: Option<Vec<u8>>,
    pub hostname: Option<Vec<u8>>,
}

pub struct InitV {
    pub mechanism: Mechanism,
    pub initial_response: Option<Seq<u8>>,
    pub hostname: Option<Seq<u8>>,
}

impl View for Init {
    type V = InitV;

    open spec fn view(&self) -> InitV {
        InitV {
            mechanism: self.mechanism,
            initial_response: view_opt_bytes(self.initial_response),
            hostname: view_opt_bytes(self.hostname),
        }
    }
}

pub open spec fn enc_init_fields(v: InitV) -> Seq<u8> {
    enc_sym(mechanism_name(v.mechanism)) + enc_opt_bin(v.initial_response) + enc_opt_str(
        v.hostname,
    )
}

pub open spec fn enc_init_fields_ok(v: InitV) -> bool {
    enc_opt_bin_ok(v.initial_response) && enc_opt_str_ok(v.hostname)
}

pub open spec fn enc_init(v: InitV) -> Seq<u8> {
    enc_composite(0x41, 3, enc_init_fields(v))
}

pub open spec fn enc_init_ok(v: InitV) -> bool {
    enc_init_fields_ok(v) && enc_compound_ok(enc_init_fields(v))
}

pub open spec fn dec_init_fields(ctor: Option<u8>, w: Seq<u8>) -> Result<(InitV, Seq<u8>), Error> {
    match Mechanism::dec(ctor, w) {
        Err(e) => Err(e),
        Ok((mechanism, w1)) => match dec_opt_bin(ctor, w1) {
            Err(e) => Err(e),
            Ok((initial_response, w2)) => match dec_opt_str(ctor, w2) {
                Err(e) => Err(e),
                Ok((hostname, w3)) => Ok((InitV { mechanism, initial_response, hostname }, w3)),
            },
        },
    }
}

pub open spec fn dec_init_body(c: Option<u8>, s: Seq<u8>) -> Result<(InitV, Seq<u8>), Error> {
    match dec_maybe_desc(c, s) {
        Err(e) => Err(e),
        Ok(s0) => match dec_compound(s0) {
            Err(e) => Err(e),
            Ok(((size, _count, ctor), s1)) => if s1.len() < size {
                Err(Error::UnexpectedEnd)
            } else {
                match dec_init_fields(ctor, s1.take(size as int)) {
                    Err(e) => Err(e),
                    Ok((v, _leftover)) => Ok((v, s1.skip(size as int))),
                }
            },
        },
    }
}

impl Init {
    #[verifier::rlimit(100)]
    #[verifier::spinoff_prover]
    pub fn encode(&self, s: &mut Serializer) -> (r: Result<(), Error>)
        ensures
            match r {
                Ok(()) => enc_init_ok(self@) && final(s).bytes() == old(s).bytes() + enc_init(
                    self@,
                ),
                Err(e) => !enc_init_ok(self@) && e == Error::InvalidData && *final(s) == *old(s),
            },
    {
        let mut f = Serializer::new();
        self.mechanism.encode(&mut f)?;
        f.serialize_opt_bytes(&self.initial_response)?;
        f.serialize_opt_str(&self.hostname)?;
        proof {
            assert(f.bytes() =~= enc_init_fields(self@));
        }
        write_composite(s, 0x41, 3, &f.output)
    }

    pub fn decode_body(d: &mut Deserializer) -> (r: Result<Init, Error>)
        requires
            old(d).wf(),
        ensures
            stepped(*old(d), *final(d)),
            match r {
                Ok(v) => dec_init_body(old(d).constructor, old(d).remaining()) == Ok::<_, Error>(
                    (v@, final(d).remaining()),
                ),
                Err(e) => dec_init_body(old(d).constructor, old(d).remaining()) == Err::<
                    (InitV, Seq<u8>),
                    Error,
                >(e),
            },
    {
        d.skip_redundant_descriptor()?;
        let (size, _count, ctor) = d.composite()?;
        let mut w = d.window(size, ctor)?;
        let mechanism = Mechanism::decode(&mut w)?;
        let initial_response = w.parse_opt_bytes()?;
        let hostname = w.parse_opt_str()?;
        Ok(Init { mechanism, initial_response, hostname })
    }
}

/// The outcome code of the authentication exchange.
#[derive(Clone, Copy, Debug, PartialEq, Eq, Structural)]
pub enum Code {
    Accepted,
    Auth,
    Sys,
    SysPerm,
    SysTemp,
}

pub open spec fn code_index(v: Code) -> u8 {
    match v {
        Code::Accepted => 0,
        Code::Auth => 1,
        Code::Sys => 2,
        Code::SysPerm => 3,
        Code::SysTemp => 4,
    }
}

pub open spec fn enc_code(v: Code) -> Seq<u8> {
    enc_u8(code_index(v))
}

pub open spec fn dec_code(s: Seq<u8>) -> Result<(Code, Seq<u8>), Error> {
    match dec_variant_index(s) {
        Err(e) => Err(e),
        Ok((i, r)) => if i == 0 {
            Ok((Code::Accepted, r))
        } else if i == 1 {
            Ok((Code::Auth, r))
        } else if i == 2 {
            Ok((Code::Sys, r))
        } else if i == 3 {
            Ok((Code::SysPerm, r))
        } else if i == 4 {
            Ok((Code::SysTemp, r))
        } else {
            Err(Error::InvalidData)
        },
    }
}

/// The server's verdict on the authentication exchange.
#[derive(Clone, Debug, PartialEq, Eq)]
pub struct Outcome {
    pub code: Code,
    pub additional_data: Option<Vec<u8>>,
}

pub struct OutcomeV {
    pub code: Code,
    pub additional_data: Option<Seq<u8>>,
}

impl View for Outcome {
    type V = OutcomeV;

    open spec fn view(&self) -> OutcomeV {
        OutcomeV { code: self.code, additional_data: view_opt_bytes(self.additional_data) }
    }
}

pub open spec fn enc_outcome_fields(v: OutcomeV) -> Seq<u8> {
    enc_code(v.code) + enc_opt_bin(v.additional_data)
}

pub open spec fn enc_outcome_fields_ok(v: OutcomeV) -> bool {
    enc_opt_bin_ok(v.additional_data)
}

pub open spec fn enc_sasl_outcome(v: OutcomeV) -> Seq<u8> {
    enc_composite(0x44, 2, enc_outcome_fields(v))
}

pub open spec fn enc_sasl_outcome_ok(v: OutcomeV) -> bool {
    enc_outcome_fields_ok(v) && enc_compound_ok(enc_outcome_fields(v))
}

pub open spec fn dec_outcome_fields(ctor: Option<u8>, w: Seq<u8>) -> Result<
    (OutcomeV, Seq<u8>),
    Error,
> {
    if ctor is Some {
        Err(Error::InvalidData)
    } else {
        match dec_code(w) {
            Err(e) => Err(e),
            Ok((code, w1)) => match dec_opt_bin(ctor, w1) {
                Err(e) => Err(e),
                Ok((additional_data, w2)) => Ok((OutcomeV { code, additional_data }, w2)),
            },
        }
    }
}

pub open spec fn dec_sasl_outcome_body(c: Option<u8>, s: Seq<u8>) -> Result<
    (OutcomeV, Seq<u8>),
    Error,
> {
    match dec_maybe_desc(c, s) {
        Err(e) => Err(e),
        Ok(s0) => match dec_compound(s0) {
            Err(e) => Err(e),
            Ok(((size, _count, ctor), s1)) => if s1.len() < size {
                Err(Error::UnexpectedEnd)
            } else {
                match dec_outcome_fields(ctor, s1.take(size as int)) {
                    Err(e) => Err(e),
                    Ok((v, _leftover)) => Ok((v, s1.skip(size as int))),
                }
            },
        },
    }
}

impl Outcome {
    #[verifier::rlimit(100)]
    #[verifier::spinoff_prover]
    pub fn encode(&self, s: &mut Serializer) -> (r: Result<(), Error>)
        ensures
            match r {
                Ok(()) => enc_sasl_outcome_ok(self@) && final(s).bytes() == old(s).bytes()
                    + enc_sasl_outcome(self@),
                Err(e) => !enc_sasl_outcome_ok(self@) && e == Error::InvalidData && *final(s)
                    == *old(s),
            },
    {
        let mut f = Serializer::new();
        f.serialize_u8(
            match self.code {
                Code::Accepted => 0,
                Code::Auth => 1,
                Code::Sys => 2,
                Code::SysPerm => 3,
                Code::SysTemp => 4,
            },
        );
        f.serialize_opt_bytes(&self.additional_data)?;
        proof {
            assert(f.bytes() =~= enc_outcome_fields(self@));
        }
        write_composite(s, 0x44, 2, &f.output)
    }

    pub fn decode_body(d: &mut Deserializer) -> (r: Result<Outcome, Error>)
        requires
            old(d).wf(),
        ensures
            stepped(*old(d), *final(d)),
            match r {
                Ok(v) => dec_sasl_outcome_body(old(d).constructor, old(d).remaining()) == Ok::<
                    _,
                    Error,
                >((v@, final(d).remaining())),
                Err(e) => dec_sasl_outcome_body(old(d).constructor, old(d).remaining()) == Err::<
                    (OutcomeV, Seq<u8>),
                    Error,
                >(e),
            },
    {
        d.skip_redundant_descriptor()?;
        let (size, _count, ctor) = d.composite()?;
        let mut w = d.window(size, ctor)?;
        if w.constructor.is_some() {
            return Err(Error::InvalidData);
        }
        let code = {
            let i = w.parse_variant_index()?;
            if i == 0 {
                Code::Accepted
            } else if i == 1 {
                Code::Auth
            } else if i == 2 {
                Code::Sys
            } else if i == 3 {
                Code::SysPerm
            } else if i == 4 {
                Code::SysTemp
            } else {
                return Err(Error::InvalidData);
            }
        };
        let additional_data = w.parse_opt_bytes()?;
        Ok(Outcome { code, additional_data })
    }
}

/// A SASL frame body: a tagged choice over the three described composites.
#[derive(Clone, Debug, PartialEq, Eq)]
pub enum Frame {
    Mechanisms(Mechanisms),
    Init(Init),
    Outcome(Outcome),
}

pub enum FrameV {
    Mechanisms(MechanismsV),
    Init(InitV),
    Outcome(OutcomeV),
}

impl View for Frame {
    type V = FrameV;

    open spec fn view(&self) -> FrameV {
        match self {
            Frame::Mechanisms(x) => FrameV::Mechanisms(x@),
            Frame::Init(x) => FrameV::Init(x@),
            Frame::Outcome(x) => FrameV::Outcome(x@),
        }
    }
}

pub open spec fn enc_sasl_frame(v: FrameV) -> Seq<u8> {
    match v {
        FrameV::Mechanisms(x) => enc_mechanisms(x),
        FrameV::Init(x) => enc_init(x),
        FrameV::Outcome(x) => enc_sasl_outcome(x),
    }
}

pub open spec fn enc_sasl_frame_ok(v: FrameV) -> bool {
    match v {
        FrameV::Mechanisms(x) => enc_mechanisms_ok(x),
        FrameV::Init(x) => enc_init_ok(x),
        FrameV::Outcome(x) => enc_sasl_outcome_ok(x),
    }
}

/// Dispatch over the descriptor: numeric codes first, then names.
#[verifier::opaque]
pub open spec fn dec_sasl_frame(s: Seq<u8>) -> Result<(FrameV, Seq<u8>), Error> {
    match dec_descriptor(None, s) {
        Err(e) => Err(e),
        Ok((dsc, s1)) => if desc_matches(dsc, 0x40, name_sasl_mechanisms()) {
            match dec_mechanisms_body(None, s1) {
                Err(e) => Err(e),
                Ok((v, r)) => Ok((FrameV::Mechanisms(v), r)),
            }
        } else if desc_matches(dsc, 0x41, name_sasl_init()) {
            match dec_init_body(None, s1) {
                Err(e) => Err(e),
                Ok((v, r)) => Ok((FrameV::Init(v), r)),
            }
        } else if desc_matches(dsc, 0x44, name_sasl_outcome()) {
            match dec_sasl_outcome_body(None, s1) {
                Err(e) => Err(e),
                Ok((v, r)) => Ok((FrameV::Outcome(v), r)),
            }
        } else {
            Err(Error::InvalidData)
        },
    }
}

impl Frame {
    #[verifier::rlimit(100)]
    #[verifier::spinoff_prover]
    pub fn encode(&self, s: &mut Serializer) -> (r: Result<(), Error>)
        ensures
            match r {
                Ok(()) => enc_sasl_frame_ok(self@) && final(s).bytes() == old(s).bytes()
                    + enc_sasl_frame(self@),
                Err(e) => !enc_sasl_frame_ok(self@) && e == Error::InvalidData && *final(s)
                    == *old(s),
            },
    {
        match self {
            Frame::Mechanisms(x) => x.encode(s),
            Frame::Init(x) => x.encode(s),
            Frame::Outcome(x) => x.encode(s),
        }
    }

    pub fn decode(d: &mut Deserializer) -> (r: Result<Frame, Error>)
        requires
            old(d).wf(),
            old(d).constructor == None::<u8>,
        ensures
            stepped(*old(d), *final(d)),
            match r {
                Ok(v) => dec_sasl_frame(old(d).remaining()) == Ok::<_, Error>((
                    v@,
                    final(d).remaining(),
                )),
                Err(e) => dec_sasl_frame(old(d).remaining()) == Err::<(FrameV, Seq<u8>), Error>(
                    e,
                ),
            },
    {
        proof {
            reveal(dec_sasl_frame);
        }
        let dsc = d.parse_descriptor()?;
        let a = name_sasl_mechanisms_arr();
        if descriptor_matches(&dsc, 0x40, a.as_slice()) {
            let v = Mechanisms::decode_body(d)?;
            return Ok(Frame::Mechanisms(v));
        }
        let a = name_sasl_init_arr();
        if descriptor_matches(&dsc, 0x41, a.as_slice()) {
            let v = Init::decode_body(d)?;
            return Ok(Frame::Init(v));
        }
        let a = name_sasl_outcome_arr();
        if descriptor_matches(&dsc, 0x44, a.as_slice()) {
            let v = Outcome::decode_body(d)?;
            return Ok(Frame::Outcome(v));
        }
        Err(Error::InvalidData)
    }
}

} // verus!
