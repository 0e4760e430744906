//! The Corda envelope: the magic prefix, section byte, and the
//! schema-carrying described composite layered on AMQP message bodies, with
//! the `Try` reply wrapper of the typed RPC surface.
use vstd::prelude::*;

use crate::amqp::{
    dec_elem_list, enc_elem_list, enc_elem_list_ok, encode_elem_list, parse_elem_list,
    skip_compound, dec_skip_compound, enc_empty_composite, encode_empty_composite, view_elems,
    view_opt, write_composite, write_composite_named, List, Symbol,
};
use crate::de::{
    dec_bin, dec_bool, dec_i32, dec_i64, dec_opt_str, dec_opt_u64, dec_str, dec_compound,
    dec_maybe_desc, Deserializer, stepped,
};
use crate::ser::{
    enc_bin, enc_bool, enc_composite, enc_composite_named, enc_compound_ok, enc_i32, enc_i64,
    enc_null, enc_opt_str, enc_opt_str_ok, enc_opt_u64, enc_str, enc_sym, enc_var_ok,
    view_opt_bytes, Serializer,
};
use crate::wire::{bytes_eq, push_all};
use crate::{Codec, Error, Expected};

verus! {

/// The 7-byte Corda body magic.
pub open spec fn corda_magic() -> Seq<u8> {
    seq![0x63u8, 0x6fu8, 0x72u8, 0x64u8, 0x61u8, 0x01u8, 0x00u8]
}

pub fn corda_magic_arr() -> (r: [u8; 7])
    ensures
        r@ == corda_magic(),
{
    let r: [u8; 7] = [0x63, 0x6f, 0x72, 0x64, 0x61, 0x01, 0x00];
    assert(r@ =~= corda_magic());
    r
}

/// The section byte that follows the magic; only `DataAndStop` is produced.
#[derive(Clone, Copy, Debug, PartialEq, Eq, Structural)]
pub enum SectionId {
    DataAndStop,
    AltDataAndStop,
    Encoding,
}

pub open spec fn section_byte(v: SectionId) -> u8 {
    match v {
        SectionId::DataAndStop => 0,
        SectionId::AltDataAndStop => 1,
        SectionId::Encoding => 2,
    }
}

/// Whether a parsed descriptor carries exactly this numeric code.
pub open spec fn desc_code_only(d: crate::de::DescriptorV, code: u64) -> bool {
    match d {
        crate::de::DescriptorV::Numeric(c) => c == code,
        crate::de::DescriptorV::Symbol(_) => false,
    }
}

pub fn descriptor_code_is(d: &crate::de::Descriptor, code: u64) -> (r: bool)
    ensures
        r == desc_code_only(d@, code),
{
    match d {
        crate::de::Descriptor::Numeric(c) => *c == code,
        crate::de::Descriptor::Symbol(_) => false,
    }
}

/// Whether a parsed descriptor carries exactly this symbolic name.
pub open spec fn desc_name_only(d: crate::de::DescriptorV, name: Seq<u8>) -> bool {
    match d {
        crate::de::DescriptorV::Numeric(_) => false,
        crate::de::DescriptorV::Symbol(s) => s == name,
    }
}

pub fn descriptor_name_is(d: &crate::de::Descriptor, name: &[u8]) -> (r: bool)
    ensures
        r == desc_name_only(d@, name@),
{
    match d {
        crate::de::Descriptor::Numeric(_) => false,
        crate::de::Descriptor::Symbol(s) => bytes_eq(s.as_slice(), name),
    }
}

/// The unit payload: a bare null byte, as in an empty object list.
impl Codec for () {
    open spec fn enc(v: ()) -> Seq<u8> {
        enc_null()
    }

    open spec fn enc_ok(v: ()) -> bool {
        true
    }

    open spec fn dec(c: Option<u8>, s: Seq<u8>) -> Result<((), Seq<u8>), Error> {
        crate::de::dec_expect(0x40, Expected::Null, s)
    }

    fn encode(&self, s: &mut Serializer) -> (r: Result<(), Error>) {
        s.serialize_unit();
        Ok(())
    }

    fn decode<'x>(d: &mut Deserializer<'x>) -> (r: Result<Self, Error>) {
        d.expect(0x40, Expected::Null)
    }
}

impl<T: View> View for List<T> {
    type V = Seq<T::V>;

    open spec fn view(&self) -> Seq<T::V> {
        view_elems(self.0@)
    }
}

/// A list value encodes as a plain list compound of its elements.
impl<T: Codec> Codec for List<T> {
    open spec fn enc(v: Seq<T::V>) -> Seq<u8> {
        enc_elem_list::<T>(v)
    }

    open spec fn enc_ok(v: Seq<T::V>) -> bool {
        enc_elem_list_ok::<T>(v)
    }

    open spec fn dec(c: Option<u8>, s: Seq<u8>) -> Result<(Seq<T::V>, Seq<u8>), Error> {
        dec_elem_list::<T>(c, s)
    }

    fn encode(&self, s: &mut Serializer) -> (r: Result<(), Error>) {
        encode_elem_list::<T>(s, &self.0)
    }

    fn decode<'x>(d: &mut Deserializer<'x>) -> (r: Result<Self, Error>) {
        let v = parse_elem_list::<T>(d)?;
        Ok(List(v))
    }
}

/// An optional symbol field.
pub open spec fn enc_opt_sym(v: Option<Seq<u8>>) -> Seq<u8> {
    match v {
        Some(x) => enc_sym(x),
        None => enc_null(),
    }
}

pub open spec fn enc_opt_sym_ok(v: Option<Seq<u8>>) -> bool {
    match v {
        Some(x) => enc_var_ok(x),
        None => true,
    }
}

pub open spec fn dec_opt_sym(c: Option<u8>, s: Seq<u8>) -> Result<
    (Option<Seq<u8>>, Seq<u8>),
    Error,
> {
    if s.len() == 0 {
        Ok((None, s))
    } else if s[0] == 0x40 {
        Ok((None, s.skip(1)))
    } else {
        match dec_bin(c, s) {
            Err(e) => Err(e),
            Ok((v, r)) => Ok((Some(v), r)),
        }
    }
}

pub fn serialize_opt_symbol(s: &mut Serializer, v: &Option<Symbol>) -> (r: Result<(), Error>)
    ensures
        match r {
            Ok(()) => enc_opt_sym_ok(view_opt(*v)) && final(s).bytes() == old(s).bytes()
                + enc_opt_sym(view_opt(*v)),
            Err(e) => !enc_opt_sym_ok(view_opt(*v)) && e == Error::InvalidData && *final(s)
                == *old(s),
        },
{
    match v {
        Some(x) => s.serialize_symbol(x.0.as_slice()),
        None => {
            s.serialize_unit();
            Ok(())
        },
    }
}

pub fn parse_opt_symbol(d: &mut Deserializer) -> (r: Result<Option<Symbol>, Error>)
    requires
        old(d).wf(),
    ensures
        stepped(*old(d), *final(d)),
        match r {
            Ok(v) => dec_opt_sym(old(d).constructor, old(d).remaining()) == Ok::<_, Error>((
                view_opt(v),
                final(d).remaining(),
            )),
            Err(e) => dec_opt_sym(old(d).constructor, old(d).remaining()) == Err::<
                (Option<Seq<u8>>, Seq<u8>),
                Error,
            >(e),
        },
{
    if d.at_end() {
        return Ok(None);
    }
    let b = d.peek()?;
    if b == 0x40 {
        let _ = d.next()?;
        return Ok(None);
    }
    match d.parse_bytes() {
        Ok(v) => Ok(Some(Symbol(v))),
        Err(e) => Err(e),
    }
}

/// The byte string `net.corda:e+qsW/cJ4ajGpb8YkJWB1A==`.
pub open spec fn corda_name_success() -> Seq<u8> {
    seq![0x6eu8, 0x65u8, 0x74u8, 0x2eu8, 0x63u8, 0x6fu8, 0x72u8, 0x64u8, 0x61u8, 0x3au8, 0x65u8, 0x2bu8, 0x71u8, 0x73u8, 0x57u8, 0x2fu8, 0x63u8, 0x4au8, 0x34u8, 0x61u8, 0x6au8, 0x47u8, 0x70u8, 0x62u8, 0x38u8, 0x59u8, 0x6bu8, 0x4au8, 0x57u8, 0x42u8, 0x31u8, 0x41u8, 0x3du8, 0x3du8]
}

pub fn corda_name_success_arr() -> (r: [u8; 34])
    ensures
        r@ == corda_name_success(),
{
    let r: [u8; 34] = [0x6e, 0x65, 0x74, 0x2e, 0x63, 0x6f, 0x72, 0x64, 0x61, 0x3a, 0x65, 0x2b, 0x71, 0x73, 0x57, 0x2f, 0x63, 0x4a, 0x34, 0x61, 0x6a, 0x47, 0x70, 0x62, 0x38, 0x59, 0x6b, 0x4a, 0x57, 0x42, 0x31, 0x41, 0x3d, 0x3d];
    assert(r@ =~= corda_name_success());
    r
}

/// The byte string `net.corda:????????????????????????`.
pub open spec fn corda_name_failure() -> Seq<u8> {
    seq![0x6eu8, 0x65u8, 0x74u8, 0x2eu8, 0x63u8, 0x6fu8, 0x72u8, 0x64u8, 0x61u8, 0x3au8, 0x3fu8, 0x3fu8, 0x3fu8, 0x3fu8, 0x3fu8, 0x3fu8, 0x3fu8, 0x3fu8, 0x3fu8, 0x3fu8, 0x3fu8, 0x3fu8, 0x3fu8, 0x3fu8, 0x3fu8, 0x3fu8, 0x3fu8, 0x3fu8, 0x3fu8, 0x3fu8, 0x3fu8, 0x3fu8, 0x3fu8, 0x3fu8]
}

pub fn corda_name_failure_arr() -> (r: [u8; 34])
    ensures
        r@ == corda_name_failure(),
{
    let r: [u8; 34] = [0x6e, 0x65, 0x74, 0x2e, 0x63, 0x6f, 0x72, 0x64, 0x61, 0x3a, 0x3f, 0x3f, 0x3f, 0x3f, 0x3f, 0x3f, 0x3f, 0x3f, 0x3f, 0x3f, 0x3f, 0x3f, 0x3f, 0x3f, 0x3f, 0x3f, 0x3f, 0x3f, 0x3f, 0x3f, 0x3f, 0x3f, 0x3f, 0x3f];
    assert(r@ =~= corda_name_failure());
    r
}

/// The byte string `net.corda:1BLPJgNvsxdvPcbrIQd87g==`.
pub open spec fn corda_name_object_list() -> Seq<u8> {
    seq![0x6eu8, 0x65u8, 0x74u8, 0x2eu8, 0x63u8, 0x6fu8, 0x72u8, 0x64u8, 0x61u8, 0x3au8, 0x31u8, 0x42u8, 0x4cu8, 0x50u8, 0x4au8, 0x67u8, 0x4eu8, 0x76u8, 0x73u8, 0x78u8, 0x64u8, 0x76u8, 0x50u8, 0x63u8, 0x62u8, 0x72u8, 0x49u8, 0x51u8, 0x64u8, 0x38u8, 0x37u8, 0x67u8, 0x3du8, 0x3du8]
}

pub fn corda_name_object_list_arr() -> (r: [u8; 34])
    ensures
        r@ == corda_name_object_list(),
{
    let r: [u8; 34] = [0x6e, 0x65, 0x74, 0x2e, 0x63, 0x6f, 0x72, 0x64, 0x61, 0x3a, 0x31, 0x42, 0x4c, 0x50, 0x4a, 0x67, 0x4e, 0x76, 0x73, 0x78, 0x64, 0x76, 0x50, 0x63, 0x62, 0x72, 0x49, 0x51, 0x64, 0x38, 0x37, 0x67, 0x3d, 0x3d];
    assert(r@ =~= corda_name_object_list());
    r
}

/// A Corda schema descriptor: a symbolic fingerprint name, a numeric code, or both.
#[derive(Clone, Debug, PartialEq, Eq)]
pub struct Descriptor {
    pub name: Option<Symbol>,
    pub code: Option<u64>,
}

pub struct DescriptorRecV {
    pub name: Option<Seq<u8>>,
    pub code: Option<u64>,
}

impl View for Descriptor {
    type V = DescriptorRecV;

    open spec fn view(&self) -> DescriptorRecV {
        DescriptorRecV {
            name: view_opt(self.name),
            code: self.code,
        }
    }
}

pub open spec fn enc_descriptor_fields(v: DescriptorRecV) -> Seq<u8> {
    enc_opt_sym(v.name) + enc_opt_u64(v.code)
}

pub open spec fn enc_descriptor_fields_ok(v: DescriptorRecV) -> bool {
    enc_opt_sym_ok(v.name)
}

pub open spec fn enc_descriptor(v: DescriptorRecV) -> Seq<u8> {
    enc_composite(0xc562_0000_0000_0003, 2, enc_descriptor_fields(v))
}

pub open spec fn enc_descriptor_ok(v: DescriptorRecV) -> bool {
    enc_descriptor_fields_ok(v) && enc_compound_ok(enc_descriptor_fields(v))
}

#[verifier::opaque]
pub open spec fn dec_descriptor_fields(ctor: Option<u8>, w: Seq<u8>) -> Result<
    (DescriptorRecV, Seq<u8>),
    Error,
> {
    match dec_opt_sym(ctor, w) {
        Err(e) => Err(e),
        Ok((name, w1)) =>
        match dec_opt_u64(w1) {
            Err(e) => Err(e),
            Ok((code, w2)) =>
            Ok((DescriptorRecV {
                name,
                code,
            }, w2))
            ,
        }
        ,
    }
}

pub open spec fn dec_descriptor_body(c: Option<u8>, s: Seq<u8>) -> Result<(DescriptorRecV, Seq<u8>), Error> {
    match dec_maybe_desc(c, s) {
        Err(e) => Err(e),
        Ok(s0) => match dec_compound(s0) {
            Err(e) => Err(e),
            Ok(((size, _count, ctor), s1)) => if s1.len() < size {
                Err(Error::UnexpectedEnd)
            } else {
                match dec_descriptor_fields(ctor, s1.take(size as int)) {
                    Err(e) => Err(e),
                    Ok((v, _leftover)) => Ok((v, s1.skip(size as int))),
                }
            },
        },
    }
}

impl Descriptor {
    #[verifier::rlimit(100)]
    #[verifier::spinoff_prover]
    pub fn encode(&self, s: &mut Serializer) -> (r: Result<(), Error>)
        ensures
            match r {
                Ok(()) => enc_descriptor_ok(self@) && final(s).bytes() == old(s).bytes()
                    + enc_descriptor(self@),
                Err(e) => !enc_descriptor_ok(self@) && e == Error::InvalidData && *final(s)
                    == *old(s),
            },
    {
        let mut f = Serializer::new();
        serialize_opt_symbol(&mut f, &self.name)?;
        f.serialize_opt_u64(&self.code);
        proof {
            assert(f.bytes() =~= enc_descriptor_fields(self@));
        }
        write_composite(s, 0xc562_0000_0000_0003, 2, &f.output)
    }

    pub fn decode_fields(w: &mut Deserializer) -> (r: Result<Descriptor, Error>)
        requires
            old(w).wf(),
        ensures
            stepped(*old(w), *final(w)),
            match r {
                Ok(v) => dec_descriptor_fields(old(w).constructor, old(w).remaining()) == Ok::<
                    _,
                    Error,
                >((v@, final(w).remaining())),
                Err(e) => dec_descriptor_fields(old(w).constructor, old(w).remaining()) == Err::<
                    (DescriptorRecV, Seq<u8>),
                    Error,
                >(e),
            },
    {
        proof {
            reveal(dec_descriptor_fields);
        }
        let name = parse_opt_symbol(w)?;
        let code = w.parse_opt_u64()?;
        Ok(Descriptor {
            name,
            code,
        })
    }

    pub fn decode_body(d: &mut Deserializer) -> (r: Result<Descriptor, Error>)
        requires
            old(d).wf(),
        ensures
            stepped(*old(d), *final(d)),
            match r {
                Ok(v) => dec_descriptor_body(old(d).constructor, old(d).remaining()) == Ok::<
                    _,
                    Error,
                >((v@, final(d).remaining())),
                Err(e) => dec_descriptor_body(old(d).constructor, old(d).remaining()) == Err::<
                    (DescriptorRecV, Seq<u8>),
                    Error,
                >(e),
            },
    {
        d.skip_redundant_descriptor()?;
        let (size, _count, ctor) = d.composite()?;
        let mut w = d.window(size, ctor)?;
        match Descriptor::decode_fields(&mut w) {
            Ok(v) => Ok(v),
            Err(e) => Err(e),
        }
    }
}

/// One field of a Corda composite type description.
#[derive(Clone, Debug, PartialEq, Eq)]
pub struct Field {
    pub name: Vec<u8>,
    pub ty: Vec<u8>,
    pub requirements: List<Vec<u8>>,
    pub default: Option<Vec<u8>>,
    pub label: Option<Vec<u8>>,
    pub mandatory: bool,
    pub multiple: bool,
}

pub struct FieldV {
    pub name: Seq<u8>,
    pub ty: Seq<u8>,
    pub requirements: Seq<Seq<u8>>,
    pub default: Option<Seq<u8>>,
    pub label: Option<Seq<u8>>,
    pub mandatory: bool,
    pub multiple: bool,
}

impl View for Field {
    type V = FieldV;

    open spec fn view(&self) -> FieldV {
        FieldV {
            name: self.name@,
            ty: self.ty@,
            requirements: view_elems(self.requirements.0@),
            default: view_opt_bytes(self.default),
            label: view_opt_bytes(self.label),
            mandatory: self.mandatory,
            multiple: self.multiple,
        }
    }
}

pub open spec fn enc_field_fields(v: FieldV) -> Seq<u8> {
    enc_str(v.name) + enc_str(v.ty) + enc_elem_list::<Vec<u8>>(v.requirements) + enc_opt_str(v.default) + enc_opt_str(v.label) + enc_bool(v.mandatory) + (enc_bool(v.multiple))
}

pub open spec fn enc_field_fields_ok(v: FieldV) -> bool {
    &&& enc_var_ok(v.name)
    &&& enc_var_ok(v.ty)
    &&& enc_elem_list_ok::<Vec<u8>>(v.requirements)
    &&& enc_opt_str_ok(v.default)
    &&& enc_opt_str_ok(v.label)
}

pub open spec fn enc_field(v: FieldV) -> Seq<u8> {
    enc_composite(0xc562_0000_0000_0004, 7, enc_field_fields(v))
}

pub open spec fn enc_field_ok(v: FieldV) -> bool {
    enc_field_fields_ok(v) && enc_compound_ok(enc_field_fields(v))
}

#[verifier::opaque]
pub open spec fn dec_field_fields(ctor: Option<u8>, w: Seq<u8>) -> Result<
    (FieldV, Seq<u8>),
    Error,
> {
    match dec_str(ctor, w) {
        Err(e) => Err(e),
        Ok((name, w1)) =>
        match dec_str(ctor, w1) {
            Err(e) => Err(e),
            Ok((ty, w2)) =>
            match dec_elem_list::<Vec<u8>>(ctor, w2) {
                Err(e) => Err(e),
                Ok((requirements, w3)) =>
                match dec_opt_str(ctor, w3) {
                    Err(e) => Err(e),
                    Ok((default, w4)) =>
                    match dec_opt_str(ctor, w4) {
                        Err(e) => Err(e),
                        Ok((label, w5)) =>
                        match dec_bool(ctor, w5) {
                            Err(e) => Err(e),
                            Ok((mandatory, w6)) =>
                            match dec_bool(ctor, w6) {
                                Err(e) => Err(e),
                                Ok((multiple, w7)) =>
                                Ok((FieldV {
                                    name,
                                    ty,
                                    requirements,
                                    default,
                                    label,
                                    mandatory,
                                    multiple,
                                }, w7))
                                ,
                            }
                            ,
                        }
                        ,
                    }
                    ,
                }
                ,
            }
            ,
        }
        ,
    }
}

pub open spec fn dec_field_body(c: Option<u8>, s: Seq<u8>) -> Result<(FieldV, Seq<u8>), Error> {
    match dec_maybe_desc(c, s) {
        Err(e) => Err(e),
        Ok(s0) => match dec_compound(s0) {
            Err(e) => Err(e),
            Ok(((size, _count, ctor), s1)) => if s1.len() < size {
                Err(Error::UnexpectedEnd)
            } else {
                match dec_field_fields(ctor, s1.take(size as int)) {
                    Err(e) => Err(e),
                    Ok((v, _leftover)) => Ok((v, s1.skip(size as int))),
                }
            },
        },
    }
}

impl Field {
    #[verifier::rlimit(100)]
    #[verifier::spinoff_prover]
    pub fn encode(&self, s: &mut Serializer) -> (r: Result<(), Error>)
        ensures
            match r {
                Ok(()) => enc_field_ok(self@) && final(s).bytes() == old(s).bytes()
                    + enc_field(self@),
                Err(e) => !enc_field_ok(self@) && e == Error::InvalidData && *final(s)
                    == *old(s),
            },
    {
        let mut f = Serializer::new();
        f.serialize_str(self.name.as_slice())?;
        f.serialize_str(self.ty.as_slice())?;
        encode_elem_list::<Vec<u8>>(&mut f, &self.requirements.0)?;
        f.serialize_opt_str(&self.default)?;
        f.serialize_opt_str(&self.label)?;
        f.serialize_bool(self.mandatory);
        f.serialize_bool(self.multiple);
        proof {
            assert(f.bytes() =~= enc_field_fields(self@));
        }
        write_composite(s, 0xc562_0000_0000_0004, 7, &f.output)
    }

    pub fn decode_fields(w: &mut Deserializer) -> (r: Result<Field, Error>)
        requires
            old(w).wf(),
        ensures
            stepped(*old(w), *final(w)),
            match r {
                Ok(v) => dec_field_fields(old(w).constructor, old(w).remaining()) == Ok::<
                    _,
                    Error,
                >((v@, final(w).remaining())),
                Err(e) => dec_field_fields(old(w).constructor, old(w).remaining()) == Err::<
                    (FieldV, Seq<u8>),
                    Error,
                >(e),
            },
    {
        proof {
            reveal(dec_field_fields);
        }
        let name = w.parse_str()?;
        let ty = w.parse_str()?;
        let requirements = List(parse_elem_list::<Vec<u8>>(w)?);
        let default = w.parse_opt_str()?;
        let label = w.parse_opt_str()?;
        let mandatory = w.parse_bool()?;
        let multiple = w.parse_bool()?;
        Ok(Field {
            name,
            ty,
            requirements,
            default,
            label,
            mandatory,
            multiple,
        })
    }

    pub fn decode_body(d: &mut Deserializer) -> (r: Result<Field, Error>)
        requires
            old(d).wf(),
        ensures
            stepped(*old(d), *final(d)),
            match r {
                Ok(v) => dec_field_body(old(d).constructor, old(d).remaining()) == Ok::<
                    _,
                    Error,
                >((v@, final(d).remaining())),
                Err(e) => dec_field_body(old(d).constructor, old(d).remaining()) == Err::<
                    (FieldV, Seq<u8>),
                    Error,
                >(e),
            },
    {
        d.skip_redundant_descriptor()?;
        let (size, _count, ctor) = d.composite()?;
        let mut w = d.window(size, ctor)?;
        match Field::decode_fields(&mut w) {
            Ok(v) => Ok(v),
            Err(e) => Err(e),
        }
    }
}

/// One choice of a Corda restricted type.
#[derive(Clone, Debug, PartialEq, Eq)]
pub struct Choice {
    pub name: Vec<u8>,
    pub value: Vec<u8>,
}

pub struct ChoiceV {
    pub name: Seq<u8>,
    pub value: Seq<u8>,
}

impl View for Choice {
    type V = ChoiceV;

    open spec fn view(&self) -> ChoiceV {
        ChoiceV {
            name: self.name@,
            value: self.value@,
        }
    }
}

pub open spec fn enc_choice_fields(v: ChoiceV) -> Seq<u8> {
    enc_str(v.name) + enc_str(v.value)
}

pub open spec fn enc_choice_fields_ok(v: ChoiceV) -> bool {
    &&& enc_var_ok(v.name)
    &&& enc_var_ok(v.value)
}

pub open spec fn enc_choice(v: ChoiceV) -> Seq<u8> {
    enc_composite(0xc562_0000_0000_0007, 2, enc_choice_fields(v))
}

pub open spec fn enc_choice_ok(v: ChoiceV) -> bool {
    enc_choice_fields_ok(v) && enc_compound_ok(enc_choice_fields(v))
}

#[verifier::opaque]
pub open spec fn dec_choice_fields(ctor: Option<u8>, w: Seq<u8>) -> Result<
    (ChoiceV, Seq<u8>),
    Error,
> {
    match dec_str(ctor, w) {
        Err(e) => Err(e),
        Ok((name, w1)) =>
        match dec_str(ctor, w1) {
            Err(e) => Err(e),
            Ok((value, w2)) =>
            Ok((ChoiceV {
                name,
                value,
            }, w2))
            ,
        }
        ,
    }
}

pub open spec fn dec_choice_body(c: Option<u8>, s: Seq<u8>) -> Result<(ChoiceV, Seq<u8>), Error> {
    match dec_maybe_desc(c, s) {
        Err(e) => Err(e),
        Ok(s0) => match dec_compound(s0) {
            Err(e) => Err(e),
            Ok(((size, _count, ctor), s1)) => if s1.len() < size {
                Err(Error::UnexpectedEnd)
            } else {
                match dec_choice_fields(ctor, s1.take(size as int)) {
                    Err(e) => Err(e),
                    Ok((v, _leftover)) => Ok((v, s1.skip(size as int))),
                }
            },
        },
    }
}

impl Choice {
    #[verifier::rlimit(100)]
    #[verifier::spinoff_prover]
    pub fn encode(&self, s: &mut Serializer) -> (r: Result<(), Error>)
        ensures
            match r {
                Ok(()) => enc_choice_ok(self@) && final(s).bytes() == old(s).bytes()
                    + enc_choice(self@),
                Err(e) => !enc_choice_ok(self@) && e == Error::InvalidData && *final(s)
                    == *old(s),
            },
    {
        let mut f = Serializer::new();
        f.serialize_str(self.name.as_slice())?;
        f.serialize_str(self.value.as_slice())?;
        proof {
            assert(f.bytes() =~= enc_choice_fields(self@));
        }
        write_composite(s, 0xc562_0000_0000_0007, 2, &f.output)
    }

    pub fn decode_fields(w: &mut Deserializer) -> (r: Result<Choice, Error>)
        requires
            old(w).wf(),
        ensures
            stepped(*old(w), *final(w)),
            match r {
                Ok(v) => dec_choice_fields(old(w).constructor, old(w).remaining()) == Ok::<
                    _,
                    Error,
                >((v@, final(w).remaining())),
                Err(e) => dec_choice_fields(old(w).constructor, old(w).remaining()) == Err::<
                    (ChoiceV, Seq<u8>),
                    Error,
                >(e),
            },
    {
        proof {
            reveal(dec_choice_fields);
        }
        let name = w.parse_str()?;
        let value = w.parse_str()?;
        Ok(Choice {
            name,
            value,
        })
    }

    pub fn decode_body(d: &mut Deserializer) -> (r: Result<Choice, Error>)
        requires
            old(d).wf(),
        ensures
            stepped(*old(d), *final(d)),
            match r {
                Ok(v) => dec_choice_body(old(d).constructor, old(d).remaining()) == Ok::<
                    _,
                    Error,
                >((v@, final(d).remaining())),
                Err(e) => dec_choice_body(old(d).constructor, old(d).remaining()) == Err::<
                    (ChoiceV, Seq<u8>),
                    Error,
                >(e),
            },
    {
        d.skip_redundant_descriptor()?;
        let (size, _count, ctor) = d.composite()?;
        let mut w = d.window(size, ctor)?;
        match Choice::decode_fields(&mut w) {
            Ok(v) => Ok(v),
            Err(e) => Err(e),
        }
    }
}

/// A Corda composite type description.
#[derive(Clone, Debug, PartialEq, Eq)]
pub struct CompositeType {
    pub name: Vec<u8>,
    pub label: Option<Vec<u8>>,
    pub provides: List<Vec<u8>>,
    pub descriptor: Descriptor,
    pub fields: List<Field>,
}

pub struct CompositeTypeV {
    pub name: Seq<u8>,
    pub label: Option<Seq<u8>>,
    pub provides: Seq<Seq<u8>>,
    pub descriptor: DescriptorRecV,
    pub fields: Seq<FieldV>,
}

impl View for CompositeType {
    type V = CompositeTypeV;

    open spec fn view(&self) -> CompositeTypeV {
        CompositeTypeV {
            name: self.name@,
            label: view_opt_bytes(self.label),
            provides: view_elems(self.provides.0@),
            descriptor: self.descriptor@,
            fields: view_elems(self.fields.0@),
        }
    }
}

pub open spec fn enc_composite_type_fields(v: CompositeTypeV) -> Seq<u8> {
    enc_str(v.name) + enc_opt_str(v.label) + enc_elem_list::<Vec<u8>>(v.provides) + enc_corda_descriptor(v.descriptor) + (enc_elem_list::<Field>(v.fields))
}

pub open spec fn enc_composite_type_fields_ok(v: CompositeTypeV) -> bool {
    &&& enc_var_ok(v.name)
    &&& enc_opt_str_ok(v.label)
    &&& enc_elem_list_ok::<Vec<u8>>(v.provides)
    &&& enc_corda_descriptor_ok(v.descriptor)
    &&& enc_elem_list_ok::<Field>(v.fields)
}

pub open spec fn enc_composite_type(v: CompositeTypeV) -> Seq<u8> {
    enc_composite(0xc562_0000_0000_0005, 5, enc_composite_type_fields(v))
}

pub open spec fn enc_composite_type_ok(v: CompositeTypeV) -> bool {
    enc_composite_type_fields_ok(v) && enc_compound_ok(enc_composite_type_fields(v))
}

#[verifier::opaque]
pub open spec fn dec_composite_type_fields(ctor: Option<u8>, w: Seq<u8>) -> Result<
    (CompositeTypeV, Seq<u8>),
    Error,
> {
    match dec_str(ctor, w) {
        Err(e) => Err(e),
        Ok((name, w1)) =>
        match dec_opt_str(ctor, w1) {
            Err(e) => Err(e),
            Ok((label, w2)) =>
            match dec_elem_list::<Vec<u8>>(ctor, w2) {
                Err(e) => Err(e),
                Ok((provides, w3)) =>
                match dec_corda_descriptor(ctor, w3) {
                    Err(e) => Err(e),
                    Ok((descriptor, w4)) =>
                    match dec_elem_list::<Field>(ctor, w4) {
                        Err(e) => Err(e),
                        Ok((fields, w5)) =>
                        Ok((CompositeTypeV {
                            name,
                            label,
                            provides,
                            descriptor,
                            fields,
                        }, w5))
                        ,
                    }
                    ,
                }
                ,
            }
            ,
        }
        ,
    }
}

pub open spec fn dec_composite_type_body(c: Option<u8>, s: Seq<u8>) -> Result<(CompositeTypeV, Seq<u8>), Error> {
    match dec_maybe_desc(c, s) {
        Err(e) => Err(e),
        Ok(s0) => match dec_compound(s0) {
            Err(e) => Err(e),
            Ok(((size, _count, ctor), s1)) => if s1.len() < size {
                Err(Error::UnexpectedEnd)
            } else {
                match dec_composite_type_fields(ctor, s1.take(size as int)) {
                    Err(e) => Err(e),
                    Ok((v, _leftover)) => Ok((v, s1.skip(size as int))),
                }
            },
        },
    }
}

impl CompositeType {
    #[verifier::rlimit(100)]
    #[verifier::spinoff_prover]
    pub fn encode(&self, s: &mut Serializer) -> (r: Result<(), Error>)
        ensures
            match r {
                Ok(()) => enc_composite_type_ok(self@) && final(s).bytes() == old(s).bytes()
                    + enc_composite_type(self@),
                Err(e) => !enc_composite_type_ok(self@) && e == Error::InvalidData && *final(s)
                    == *old(s),
            },
    {
        let mut f = Serializer::new();
        f.serialize_str(self.name.as_slice())?;
        f.serialize_opt_str(&self.label)?;
        encode_elem_list::<Vec<u8>>(&mut f, &self.provides.0)?;
        self.descriptor.encode(&mut f)?;
        encode_elem_list::<Field>(&mut f, &self.fields.0)?;
        proof {
            assert(f.bytes() =~= enc_composite_type_fields(self@));
        }
        write_composite(s, 0xc562_0000_0000_0005, 5, &f.output)
    }

    pub fn decode_fields(w: &mut Deserializer) -> (r: Result<CompositeType, Error>)
        requires
            old(w).wf(),
        ensures
            stepped(*old(w), *final(w)),
            match r {
                Ok(v) => dec_composite_type_fields(old(w).constructor, old(w).remaining()) == Ok::<
                    _,
                    Error,
                >((v@, final(w).remaining())),
                Err(e) => dec_composite_type_fields(old(w).constructor, old(w).remaining()) == Err::<
                    (CompositeTypeV, Seq<u8>),
                    Error,
                >(e),
            },
    {
        proof {
            reveal(dec_composite_type_fields);
        }
        let name = w.parse_str()?;
        let label = w.parse_opt_str()?;
        let provides = List(parse_elem_list::<Vec<u8>>(w)?);
        let descriptor = Descriptor::decode(w)?;
        let fields = List(parse_elem_list::<Field>(w)?);
        Ok(CompositeType {
            name,
            label,
            provides,
            descriptor,
            fields,
        })
    }

    pub fn decode_body(d: &mut Deserializer) -> (r: Result<CompositeType, Error>)
        requires
            old(d).wf(),
        ensures
            stepped(*old(d), *final(d)),
            match r {
                Ok(v) => dec_composite_type_body(old(d).constructor, old(d).remaining()) == Ok::<
                    _,
                    Error,
                >((v@, final(d).remaining())),
                Err(e) => dec_composite_type_body(old(d).constructor, old(d).remaining()) == Err::<
                    (CompositeTypeV, Seq<u8>),
                    Error,
                >(e),
            },
    {
        d.skip_redundant_descriptor()?;
        let (size, _count, ctor) = d.composite()?;
        let mut w = d.window(size, ctor)?;
        match CompositeType::decode_fields(&mut w) {
            Ok(v) => Ok(v),
            Err(e) => Err(e),
        }
    }
}

/// A Corda restricted type description.
#[derive(Clone, Debug, PartialEq, Eq)]
pub struct RestrictedType {
    pub name: Vec<u8>,
    pub label: Option<Vec<u8>>,
    pub provides: List<Vec<u8>>,
    pub source: Vec<u8>,
    pub descriptor: Descriptor,
    pub choices: List<Choice>,
}

pub struct RestrictedTypeV {
    pub name: Seq<u8>,
    pub label: Option<Seq<u8>>,
    pub provides: Seq<Seq<u8>>,
    pub source: Seq<u8>,
    pub descriptor: DescriptorRecV,
    pub choices: Seq<ChoiceV>,
}

impl View for RestrictedType {
    type V = RestrictedTypeV;

    open spec fn view(&self) -> RestrictedTypeV {
        RestrictedTypeV {
            name: self.name@,
            label: view_opt_bytes(self.label),
            provides: view_elems(self.provides.0@),
            source: self.source@,
            descriptor: self.descriptor@,
            choices: view_elems(self.choices.0@),
        }
    }
}

pub open spec fn enc_restricted_type_fields(v: RestrictedTypeV) -> Seq<u8> {
    enc_str(v.name) + enc_opt_str(v.label) + enc_elem_list::<Vec<u8>>(v.provides) + enc_str(v.source) + enc_corda_descriptor(v.descriptor) + (enc_elem_list::<Choice>(v.choices))
}

pub open spec fn enc_restricted_type_fields_ok(v: RestrictedTypeV) -> bool {
    &&& enc_var_ok(v.name)
    &&& enc_opt_str_ok(v.label)
    &&& enc_elem_list_ok::<Vec<u8>>(v.provides)
    &&& enc_var_ok(v.source)
    &&& enc_corda_descriptor_ok(v.descriptor)
    &&& enc_elem_list_ok::<Choice>(v.choices)
}

pub open spec fn enc_restricted_type(v: RestrictedTypeV) -> Seq<u8> {
    enc_composite(0xc562_0000_0000_0006, 6, enc_restricted_type_fields(v))
}

pub open spec fn enc_restricted_type_ok(v: RestrictedTypeV) -> bool {
    enc_restricted_type_fields_ok(v) && enc_compound_ok(enc_restricted_type_fields(v))
}

#[verifier::opaque]
pub open spec fn dec_restricted_type_fields(ctor: Option<u8>, w: Seq<u8>) -> Result<
    (RestrictedTypeV, Seq<u8>),
    Error,
> {
    match dec_str(ctor, w) {
        Err(e) => Err(e),
        Ok((name, w1)) =>
        match dec_opt_str(ctor, w1) {
            Err(e) => Err(e),
            Ok((label, w2)) =>
            match dec_elem_list::<Vec<u8>>(ctor, w2) {
                Err(e) => Err(e),
                Ok((provides, w3)) =>
                match dec_str(ctor, w3) {
                    Err(e) => Err(e),
                    Ok((source, w4)) =>
                    match dec_corda_descriptor(ctor, w4) {
                        Err(e) => Err(e),
                        Ok((descriptor, w5)) =>
                        match dec_elem_list::<Choice>(ctor, w5) {
                            Err(e) => Err(e),
                            Ok((choices, w6)) =>
                            Ok((RestrictedTypeV {
                                name,
                                label,
                                provides,
                                source,
                                descriptor,
                                choices,
                            }, w6))
                            ,
                        }
                        ,
                    }
                    ,
                }
                ,
            }
            ,
        }
        ,
    }
}

pub open spec fn dec_restricted_type_body(c: Option<u8>, s: Seq<u8>) -> Result<(RestrictedTypeV, Seq<u8>), Error> {
    match dec_maybe_desc(c, s) {
        Err(e) => Err(e),
        Ok(s0) => match dec_compound(s0) {
            Err(e) => Err(e),
            Ok(((size, _count, ctor), s1)) => if s1.len() < size {
                Err(Error::UnexpectedEnd)
            } else {
                match dec_restricted_type_fields(ctor, s1.take(size as int)) {
                    Err(e) => Err(e),
                    Ok((v, _leftover)) => Ok((v, s1.skip(size as int))),
                }
            },
        },
    }
}

impl RestrictedType {
    #[verifier::rlimit(100)]
    #[verifier::spinoff_prover]
    pub fn encode(&self, s: &mut Serializer) -> (r: Result<(), Error>)
        ensures
            match r {
                Ok(()) => enc_restricted_type_ok(self@) && final(s).bytes() == old(s).bytes()
                    + enc_restricted_type(self@),
                Err(e) => !enc_restricted_type_ok(self@) && e == Error::InvalidData && *final(s)
                    == *old(s),
            },
    {
        let mut f = Serializer::new();
        f.serialize_str(self.name.as_slice())?;
        f.serialize_opt_str(&self.label)?;
        encode_elem_list::<Vec<u8>>(&mut f, &self.provides.0)?;
        f.serialize_str(self.source.as_slice())?;
        self.descriptor.encode(&mut f)?;
        encode_elem_list::<Choice>(&mut f, &self.choices.0)?;
        proof {
            assert(f.bytes() =~= enc_restricted_type_fields(self@));
        }
        write_composite(s, 0xc562_0000_0000_0006, 6, &f.output)
    }

    pub fn decode_fields(w: &mut Deserializer) -> (r: Result<RestrictedType, Error>)
        requires
            old(w).wf(),
        ensures
            stepped(*old(w), *final(w)),
            match r {
                Ok(v) => dec_restricted_type_fields(old(w).constructor, old(w).remaining()) == Ok::<
                    _,
                    Error,
                >((v@, final(w).remaining())),
                Err(e) => dec_restricted_type_fields(old(w).constructor, old(w).remaining()) == Err::<
                    (RestrictedTypeV, Seq<u8>),
                    Error,
                >(e),
            },
    {
        proof {
            reveal(dec_restricted_type_fields);
        }
        let name = w.parse_str()?;
        let label = w.parse_opt_str()?;
        let provides = List(parse_elem_list::<Vec<u8>>(w)?);
        let source = w.parse_str()?;
        let descriptor = Descriptor::decode(w)?;
        let choices = List(parse_elem_list::<Choice>(w)?);
        Ok(RestrictedType {
            name,
            label,
            provides,
            source,
            descriptor,
            choices,
        })
    }

    pub fn decode_body(d: &mut Deserializer) -> (r: Result<RestrictedType, Error>)
        requires
            old(d).wf(),
        ensures
            stepped(*old(d), *final(d)),
            match r {
                Ok(v) => dec_restricted_type_body(old(d).constructor, old(d).remaining()) == Ok::<
                    _,
                    Error,
                >((v@, final(d).remaining())),
                Err(e) => dec_restricted_type_body(old(d).constructor, old(d).remaining()) == Err::<
                    (RestrictedTypeV, Seq<u8>),
                    Error,
                >(e),
            },
    {
        d.skip_redundant_descriptor()?;
        let (size, _count, ctor) = d.composite()?;
        let mut w = d.window(size, ctor)?;
        match RestrictedType::decode_fields(&mut w) {
            Ok(v) => Ok(v),
            Err(e) => Err(e),
        }
    }
}

/// The schema carried in every Corda envelope: the Java-level types the payload references.
#[derive(Clone, Debug, PartialEq, Eq)]
pub struct Schema {
    pub types: List<TypeNotation>,
}

pub struct SchemaV {
    pub types: Seq<TypeNotationV>,
}

impl View for Schema {
    type V = SchemaV;

    open spec fn view(&self) -> SchemaV {
        SchemaV {
            types: view_elems(self.types.0@),
        }
    }
}

pub open spec fn enc_schema_fields(v: SchemaV) -> Seq<u8> {
    enc_elem_list::<TypeNotation>(v.types)
}

pub open spec fn enc_schema_fields_ok(v: SchemaV) -> bool {
    enc_elem_list_ok::<TypeNotation>(v.types)
}

pub open spec fn enc_schema(v: SchemaV) -> Seq<u8> {
    enc_composite(0xc562_0000_0000_0002, 1, enc_schema_fields(v))
}

pub open spec fn enc_schema_ok(v: SchemaV) -> bool {
    enc_schema_fields_ok(v) && enc_compound_ok(enc_schema_fields(v))
}

#[verifier::opaque]
pub open spec fn dec_schema_fields(ctor: Option<u8>, w: Seq<u8>) -> Result<
    (SchemaV, Seq<u8>),
    Error,
> {
    match dec_elem_list::<TypeNotation>(ctor, w) {
        Err(e) => Err(e),
        Ok((types, w1)) =>
        Ok((SchemaV {
            types,
        }, w1))
        ,
    }
}

pub open spec fn dec_schema_body(c: Option<u8>, s: Seq<u8>) -> Result<(SchemaV, Seq<u8>), Error> {
    match dec_maybe_desc(c, s) {
        Err(e) => Err(e),
        Ok(s0) => match dec_compound(s0) {
            Err(e) => Err(e),
            Ok(((size, _count, ctor), s1)) => if s1.len() < size {
                Err(Error::UnexpectedEnd)
            } else {
                match dec_schema_fields(ctor, s1.take(size as int)) {
                    Err(e) => Err(e),
                    Ok((v, _leftover)) => Ok((v, s1.skip(size as int))),
                }
            },
        },
    }
}

impl Schema {
    #[verifier::rlimit(100)]
    #[verifier::spinoff_prover]
    pub fn encode(&self, s: &mut Serializer) -> (r: Result<(), Error>)
        ensures
            match r {
                Ok(()) => enc_schema_ok(self@) && final(s).bytes() == old(s).bytes()
                    + enc_schema(self@),
                Err(e) => !enc_schema_ok(self@) && e == Error::InvalidData && *final(s)
                    == *old(s),
            },
    {
        let mut f = Serializer::new();
        encode_elem_list::<TypeNotation>(&mut f, &self.types.0)?;
        proof {
            assert(f.bytes() =~= enc_schema_fields(self@));
        }
        write_composite(s, 0xc562_0000_0000_0002, 1, &f.output)
    }

    pub fn decode_fields(w: &mut Deserializer) -> (r: Result<Schema, Error>)
        requires
            old(w).wf(),
        ensures
            stepped(*old(w), *final(w)),
            match r {
                Ok(v) => dec_schema_fields(old(w).constructor, old(w).remaining()) == Ok::<
                    _,
                    Error,
                >((v@, final(w).remaining())),
                Err(e) => dec_schema_fields(old(w).constructor, old(w).remaining()) == Err::<
                    (SchemaV, Seq<u8>),
                    Error,
                >(e),
            },
    {
        proof {
            reveal(dec_schema_fields);
        }
        let types = List(parse_elem_list::<TypeNotation>(w)?);
        Ok(Schema {
            types,
        })
    }

    pub fn decode_body(d: &mut Deserializer) -> (r: Result<Schema, Error>)
        requires
            old(d).wf(),
        ensures
            stepped(*old(d), *final(d)),
            match r {
                Ok(v) => dec_schema_body(old(d).constructor, old(d).remaining()) == Ok::<
                    _,
                    Error,
                >((v@, final(d).remaining())),
                Err(e) => dec_schema_body(old(d).constructor, old(d).remaining()) == Err::<
                    (SchemaV, Seq<u8>),
                    Error,
                >(e),
            },
    {
        d.skip_redundant_descriptor()?;
        let (size, _count, ctor) = d.composite()?;
        let mut w = d.window(size, ctor)?;
        match Schema::decode_fields(&mut w) {
            Ok(v) => Ok(v),
            Err(e) => Err(e),
        }
    }
}

// ---------------------------------------------------------------------------
// Wrappers for the described schema records
// ---------------------------------------------------------------------------
pub open spec fn enc_corda_descriptor(v: DescriptorRecV) -> Seq<u8> {
    enc_descriptor(v)
}

pub open spec fn enc_corda_descriptor_ok(v: DescriptorRecV) -> bool {
    enc_descriptor_ok(v)
}

/// A schema descriptor record read as a whole described value.
pub open spec fn dec_corda_descriptor(c: Option<u8>, s: Seq<u8>) -> Result<
    (DescriptorRecV, Seq<u8>),
    Error,
> {
    if c is Some {
        Err(Error::InvalidData)
    } else {
        match crate::de::dec_descriptor(None, s) {
            Err(e) => Err(e),
            Ok((dsc, s1)) => if desc_code_only(dsc, 0xc562_0000_0000_0003) {
                dec_descriptor_body(None, s1)
            } else {
                Err(Error::InvalidData)
            },
        }
    }
}

impl Descriptor {
    pub fn decode(d: &mut Deserializer) -> (r: Result<Descriptor, Error>)
        requires
            old(d).wf(),
        ensures
            stepped(*old(d), *final(d)),
            match r {
                Ok(v) => dec_corda_descriptor(old(d).constructor, old(d).remaining()) == Ok::<
                    _,
                    Error,
                >((v@, final(d).remaining())),
                Err(e) => dec_corda_descriptor(old(d).constructor, old(d).remaining()) == Err::<
                    (DescriptorRecV, Seq<u8>),
                    Error,
                >(e),
            },
    {
        if d.constructor.is_some() {
            return Err(Error::InvalidData);
        }
        let dsc = d.parse_descriptor()?;
        if !descriptor_code_is(&dsc, 0xc562_0000_0000_0003) {
            return Err(Error::InvalidData);
        }
        Descriptor::decode_body(d)
    }
}

/// A schema record read as a whole described value.
pub open spec fn dec_corda_schema(c: Option<u8>, s: Seq<u8>) -> Result<(SchemaV, Seq<u8>), Error> {
    if c is Some {
        Err(Error::InvalidData)
    } else {
        match crate::de::dec_descriptor(None, s) {
            Err(e) => Err(e),
            Ok((dsc, s1)) => if desc_code_only(dsc, 0xc562_0000_0000_0002) {
                dec_schema_body(None, s1)
            } else {
                Err(Error::InvalidData)
            },
        }
    }
}

impl Schema {
    pub fn decode(d: &mut Deserializer) -> (r: Result<Schema, Error>)
        requires
            old(d).wf(),
        ensures
            stepped(*old(d), *final(d)),
            match r {
                Ok(v) => dec_corda_schema(old(d).constructor, old(d).remaining()) == Ok::<
                    _,
                    Error,
                >((v@, final(d).remaining())),
                Err(e) => dec_corda_schema(old(d).constructor, old(d).remaining()) == Err::<
                    (SchemaV, Seq<u8>),
                    Error,
                >(e),
            },
    {
        if d.constructor.is_some() {
            return Err(Error::InvalidData);
        }
        let dsc = d.parse_descriptor()?;
        if !descriptor_code_is(&dsc, 0xc562_0000_0000_0002) {
            return Err(Error::InvalidData);
        }
        Schema::decode_body(d)
    }
}


/// Schema fields and choices as list elements.
impl Codec for Field {
    open spec fn enc(v: FieldV) -> Seq<u8> {
        enc_field(v)
    }

    open spec fn enc_ok(v: FieldV) -> bool {
        enc_field_ok(v)
    }

    open spec fn dec(c: Option<u8>, s: Seq<u8>) -> Result<(FieldV, Seq<u8>), Error> {
        if c is Some {
            Err(Error::InvalidData)
        } else {
            match crate::de::dec_descriptor(None, s) {
                Err(e) => Err(e),
                Ok((dsc, s1)) => if desc_code_only(dsc, 0xc562_0000_0000_0004) {
                    dec_field_body(None, s1)
                } else {
                    Err(Error::InvalidData)
                },
            }
        }
    }

    fn encode(&self, s: &mut Serializer) -> (r: Result<(), Error>) {
        Field::encode(self, s)
    }

    fn decode<'x>(d: &mut Deserializer<'x>) -> (r: Result<Self, Error>) {
        if d.constructor.is_some() {
            return Err(Error::InvalidData);
        }
        let dsc = d.parse_descriptor()?;
        if !descriptor_code_is(&dsc, 0xc562_0000_0000_0004) {
            return Err(Error::InvalidData);
        }
        Field::decode_body(d)
    }
}

impl Codec for Choice {
    open spec fn enc(v: ChoiceV) -> Seq<u8> {
        enc_choice(v)
    }

    open spec fn enc_ok(v: ChoiceV) -> bool {
        enc_choice_ok(v)
    }

    open spec fn dec(c: Option<u8>, s: Seq<u8>) -> Result<(ChoiceV, Seq<u8>), Error> {
        if c is Some {
            Err(Error::InvalidData)
        } else {
            match crate::de::dec_descriptor(None, s) {
                Err(e) => Err(e),
                Ok((dsc, s1)) => if desc_code_only(dsc, 0xc562_0000_0000_0007) {
                    dec_choice_body(None, s1)
                } else {
                    Err(Error::InvalidData)
                },
            }
        }
    }

    fn encode(&self, s: &mut Serializer) -> (r: Result<(), Error>) {
        Choice::encode(self, s)
    }

    fn decode<'x>(d: &mut Deserializer<'x>) -> (r: Result<Self, Error>) {
        if d.constructor.is_some() {
            return Err(Error::InvalidData);
        }
        let dsc = d.parse_descriptor()?;
        if !descriptor_code_is(&dsc, 0xc562_0000_0000_0007) {
            return Err(Error::InvalidData);
        }
        Choice::decode_body(d)
    }
}

// ---------------------------------------------------------------------------
// The type-notation choice
// ---------------------------------------------------------------------------
/// A schema type description: composite or restricted.
#[derive(Clone, Debug, PartialEq, Eq)]
pub enum TypeNotation {
    CompositeType(CompositeType),
    RestrictedType(RestrictedType),
}

pub enum TypeNotationV {
    CompositeType(CompositeTypeV),
    RestrictedType(RestrictedTypeV),
}

impl View for TypeNotation {
    type V = TypeNotationV;

    open spec fn view(&self) -> TypeNotationV {
        match self {
            TypeNotation::CompositeType(x) => TypeNotationV::CompositeType(x@),
            TypeNotation::RestrictedType(x) => TypeNotationV::RestrictedType(x@),
        }
    }
}

pub open spec fn dec_type_notation(s: Seq<u8>) -> Result<(TypeNotationV, Seq<u8>), Error> {
    match crate::de::dec_descriptor(None, s) {
        Err(e) => Err(e),
        Ok((dsc, s1)) => if desc_code_only(dsc, 0xc562_0000_0000_0005) {
            match dec_composite_type_body(None, s1) {
                Err(e) => Err(e),
                Ok((v, r)) => Ok((TypeNotationV::CompositeType(v), r)),
            }
        } else if desc_code_only(dsc, 0xc562_0000_0000_0006) {
            match dec_restricted_type_body(None, s1) {
                Err(e) => Err(e),
                Ok((v, r)) => Ok((TypeNotationV::RestrictedType(v), r)),
            }
        } else {
            Err(Error::InvalidData)
        },
    }
}

impl Codec for TypeNotation {
    open spec fn enc(v: TypeNotationV) -> Seq<u8> {
        match v {
            TypeNotationV::CompositeType(x) => enc_composite_type(x),
            TypeNotationV::RestrictedType(x) => enc_restricted_type(x),
        }
    }

    open spec fn enc_ok(v: TypeNotationV) -> bool {
        match v {
            TypeNotationV::CompositeType(x) => enc_composite_type_ok(x),
            TypeNotationV::RestrictedType(x) => enc_restricted_type_ok(x),
        }
    }

    open spec fn dec(c: Option<u8>, s: Seq<u8>) -> Result<(TypeNotationV, Seq<u8>), Error> {
        if c is Some {
            Err(Error::InvalidData)
        } else {
            dec_type_notation(s)
        }
    }

    fn encode(&self, s: &mut Serializer) -> (r: Result<(), Error>) {
        match self {
            TypeNotation::CompositeType(x) => x.encode(s),
            TypeNotation::RestrictedType(x) => x.encode(s),
        }
    }

    fn decode<'x>(d: &mut Deserializer<'x>) -> (r: Result<Self, Error>) {
        if d.constructor.is_some() {
            return Err(Error::InvalidData);
        }
        let dsc = d.parse_descriptor()?;
        if descriptor_code_is(&dsc, 0xc562_0000_0000_0005) {
            let v = CompositeType::decode_body(d)?;
            return Ok(TypeNotation::CompositeType(v));
        }
        if descriptor_code_is(&dsc, 0xc562_0000_0000_0006) {
            let v = RestrictedType::decode_body(d)?;
            return Ok(TypeNotation::RestrictedType(v));
        }
        Err(Error::InvalidData)
    }
}

// ---------------------------------------------------------------------------
// The object list, the transforms placeholder, and the Try wrapper
// ---------------------------------------------------------------------------
/// The empty argument record: a name-keyed described list of unit values.
#[derive(Clone, Debug, PartialEq, Eq)]
pub struct ObjectList(pub List<()>);

impl View for ObjectList {
    type V = Seq<()>;

    open spec fn view(&self) -> Seq<()> {
        self.0@
    }
}

impl Codec for ObjectList {
    open spec fn enc(v: Seq<()>) -> Seq<u8> {
        crate::ser::enc_desc_name(corda_name_object_list()) + enc_elem_list::<()>(v)
    }

    open spec fn enc_ok(v: Seq<()>) -> bool {
        enc_elem_list_ok::<()>(v)
    }

    open spec fn dec(c: Option<u8>, s: Seq<u8>) -> Result<(Seq<()>, Seq<u8>), Error> {
        if c is Some {
            Err(Error::InvalidData)
        } else {
            match crate::de::dec_descriptor(None, s) {
                Err(e) => Err(e),
                Ok((dsc, s1)) => if desc_name_only(dsc, corda_name_object_list()) {
                    dec_elem_list::<()>(None, s1)
                } else {
                    Err(Error::InvalidData)
                },
            }
        }
    }

    fn encode(&self, s: &mut Serializer) -> (r: Result<(), Error>) {
        let mut f = Serializer::new();
        encode_elem_list::<()>(&mut f, &self.0.0)?;
        let nm = corda_name_object_list_arr();
        match s.serialize_descriptor_name(nm.as_slice()) {
            Ok(()) => (),
            Err(_) => {
                proof {
                    assert(false);
                }
            },
        }
        s.write_raw(f.output.as_slice());
        Ok(())
    }

    fn decode<'x>(d: &mut Deserializer<'x>) -> (r: Result<Self, Error>) {
        if d.constructor.is_some() {
            return Err(Error::InvalidData);
        }
        let dsc = d.parse_descriptor()?;
        let nm = corda_name_object_list_arr();
        if !descriptor_name_is(&dsc, nm.as_slice()) {
            return Err(Error::InvalidData);
        }
        let v = parse_elem_list::<()>(d)?;
        Ok(ObjectList(List(v)))
    }
}

/// The optional transforms schema; this revision never carries one.
#[derive(Clone, Copy, Debug, PartialEq, Eq, Structural)]
pub struct TransformsSchema {}

pub open spec fn enc_transforms_schema() -> Seq<u8> {
    enc_empty_composite(0xc562_0000_0000_0009)
}

pub open spec fn enc_opt_transforms(v: Option<TransformsSchema>) -> Seq<u8> {
    match v {
        Some(_) => enc_transforms_schema(),
        None => enc_null(),
    }
}

pub open spec fn dec_opt_transforms(c: Option<u8>, s: Seq<u8>) -> Result<
    (Option<TransformsSchema>, Seq<u8>),
    Error,
> {
    if s.len() == 0 {
        Ok((None, s))
    } else if s[0] == 0x40 {
        Ok((None, s.skip(1)))
    } else if c is Some {
        Err(Error::InvalidData)
    } else {
        match crate::de::dec_descriptor(None, s) {
            Err(e) => Err(e),
            Ok((dsc, s1)) => if desc_code_only(dsc, 0xc562_0000_0000_0009) {
                match dec_skip_compound(None, s1) {
                    Err(e) => Err(e),
                    Ok(r) => Ok((Some(TransformsSchema {}), r)),
                }
            } else {
                Err(Error::InvalidData)
            },
        }
    }
}

pub fn encode_opt_transforms(s: &mut Serializer, v: &Option<TransformsSchema>)
    ensures
        final(s).bytes() == old(s).bytes() + enc_opt_transforms(*v),
{
    match v {
        Some(_) => encode_empty_composite(s, 0xc562_0000_0000_0009),
        None => s.serialize_unit(),
    }
}

pub fn parse_opt_transforms(d: &mut Deserializer) -> (r: Result<Option<TransformsSchema>, Error>)
    requires
        old(d).wf(),
    ensures
        stepped(*old(d), *final(d)),
        match r {
            Ok(v) => dec_opt_transforms(old(d).constructor, old(d).remaining()) == Ok::<_, Error>(
                (v, final(d).remaining()),
            ),
            Err(e) => dec_opt_transforms(old(d).constructor, old(d).remaining()) == Err::<
                (Option<TransformsSchema>, Seq<u8>),
                Error,
            >(e),
        },
{
    if d.at_end() {
        return Ok(None);
    }
    let b = d.peek()?;
    if b == 0x40 {
        let _ = d.next()?;
        return Ok(None);
    }
    if d.constructor.is_some() {
        return Err(Error::InvalidData);
    }
    let dsc = d.parse_descriptor()?;
    if !descriptor_code_is(&dsc, 0xc562_0000_0000_0009) {
        return Err(Error::InvalidData);
    }
    skip_compound(d)?;
    Ok(Some(TransformsSchema {}))
}

/// The success arm of a reply.
#[derive(Clone, Debug, PartialEq, Eq)]
pub struct Success<T> {
    pub value: T,
}

pub struct SuccessV<TV> {
    pub value: TV,
}

impl<T: Codec> View for Success<T> {
    type V = SuccessV<T::V>;

    open spec fn view(&self) -> SuccessV<T::V> {
        SuccessV { value: self.value@ }
    }
}

/// The failure arm of a reply. The symbolic descriptor is the placeholder
/// fingerprint this revision ships with; interoperating with a live broker
/// requires substituting the real one.
#[derive(Clone, Debug, PartialEq, Eq)]
pub struct Failure<T> {
    pub value: T,
}

pub struct FailureV<TV> {
    pub value: TV,
}

impl<T: Codec> View for Failure<T> {
    type V = FailureV<T::V>;

    open spec fn view(&self) -> FailureV<T::V> {
        FailureV { value: self.value@ }
    }
}

pub open spec fn enc_success<T: Codec>(v: SuccessV<T::V>) -> Seq<u8> {
    enc_composite_named(corda_name_success(), 1, T::enc(v.value))
}

pub open spec fn enc_success_ok<T: Codec>(v: SuccessV<T::V>) -> bool {
    T::enc_ok(v.value) && enc_compound_ok(T::enc(v.value))
}

pub open spec fn dec_success_body<T: Codec>(s: Seq<u8>) -> Result<(SuccessV<T::V>, Seq<u8>), Error> {
    match dec_maybe_desc(None, s) {
        Err(e) => Err(e),
        Ok(s0) => match dec_compound(s0) {
            Err(e) => Err(e),
            Ok(((size, _count, ctor), s1)) => if s1.len() < size {
                Err(Error::UnexpectedEnd)
            } else {
                match T::dec(ctor, s1.take(size as int)) {
                    Err(e) => Err(e),
                    Ok((value, _leftover)) => Ok((SuccessV { value }, s1.skip(size as int))),
                }
            },
        },
    }
}

pub open spec fn enc_failure<T: Codec>(v: FailureV<T::V>) -> Seq<u8> {
    enc_composite_named(corda_name_failure(), 1, T::enc(v.value))
}

pub open spec fn enc_failure_ok<T: Codec>(v: FailureV<T::V>) -> bool {
    T::enc_ok(v.value) && enc_compound_ok(T::enc(v.value))
}

pub open spec fn dec_failure_body<T: Codec>(s: Seq<u8>) -> Result<(FailureV<T::V>, Seq<u8>), Error> {
    match dec_maybe_desc(None, s) {
        Err(e) => Err(e),
        Ok(s0) => match dec_compound(s0) {
            Err(e) => Err(e),
            Ok(((size, _count, ctor), s1)) => if s1.len() < size {
                Err(Error::UnexpectedEnd)
            } else {
                match T::dec(ctor, s1.take(size as int)) {
                    Err(e) => Err(e),
                    Ok((value, _leftover)) => Ok((FailureV { value }, s1.skip(size as int))),
                }
            },
        },
    }
}

impl<T: Codec> Success<T> {
    pub fn decode_body(d: &mut Deserializer) -> (r: Result<Success<T>, Error>)
        requires
            old(d).wf(),
            old(d).constructor == None::<u8>,
        ensures
            stepped(*old(d), *final(d)),
            match r {
                Ok(v) => dec_success_body::<T>(old(d).remaining()) == Ok::<_, Error>((
                    v@,
                    final(d).remaining(),
                )),
                Err(e) => dec_success_body::<T>(old(d).remaining()) == Err::<
                    (SuccessV<T::V>, Seq<u8>),
                    Error,
                >(e),
            },
    {
        d.skip_redundant_descriptor()?;
        let (size, _count, ctor) = d.composite()?;
        let mut w = d.window(size, ctor)?;
        let value = T::decode(&mut w)?;
        Ok(Success { value })
    }

    #[verifier::rlimit(100)]
    #[verifier::spinoff_prover]
    pub fn encode(&self, s: &mut Serializer) -> (r: Result<(), Error>)
        ensures
            match r {
                Ok(()) => enc_success_ok::<T>(self@) && final(s).bytes() == old(s).bytes()
                    + enc_success::<T>(self@),
                Err(e) => !enc_success_ok::<T>(self@) && e == Error::InvalidData && *final(s)
                    == *old(s),
            },
    {
        let mut f = Serializer::new();
        self.value.encode(&mut f)?;
        let nm = corda_name_success_arr();
        write_composite_named(s, nm.as_slice(), 1, &f.output)
    }
}

impl<T: Codec> Failure<T> {
    pub fn decode_body(d: &mut Deserializer) -> (r: Result<Failure<T>, Error>)
        requires
            old(d).wf(),
            old(d).constructor == None::<u8>,
        ensures
            stepped(*old(d), *final(d)),
            match r {
                Ok(v) => dec_failure_body::<T>(old(d).remaining()) == Ok::<_, Error>((
                    v@,
                    final(d).remaining(),
                )),
                Err(e) => dec_failure_body::<T>(old(d).remaining()) == Err::<
                    (FailureV<T::V>, Seq<u8>),
                    Error,
                >(e),
            },
    {
        d.skip_redundant_descriptor()?;
        let (size, _count, ctor) = d.composite()?;
        let mut w = d.window(size, ctor)?;
        let value = T::decode(&mut w)?;
        Ok(Failure { value })
    }

    #[verifier::rlimit(100)]
    #[verifier::spinoff_prover]
    pub fn encode(&self, s: &mut Serializer) -> (r: Result<(), Error>)
        ensures
            match r {
                Ok(()) => enc_failure_ok::<T>(self@) && final(s).bytes() == old(s).bytes()
                    + enc_failure::<T>(self@),
                Err(e) => !enc_failure_ok::<T>(self@) && e == Error::InvalidData && *final(s)
                    == *old(s),
            },
    {
        let mut f = Serializer::new();
        self.value.encode(&mut f)?;
        let nm = corda_name_failure_arr();
        write_composite_named(s, nm.as_slice(), 1, &f.output)
    }
}

/// A reply: success carrying the declared value, or failure carrying the
/// declared error.
#[derive(Clone, Debug, PartialEq, Eq)]
pub enum Try<T, E> {
    Success(Success<T>),
    Failure(Failure<E>),
}

pub enum TryV<TV, EV> {
    Success(SuccessV<TV>),
    Failure(FailureV<EV>),
}

impl<T: Codec, E: Codec> View for Try<T, E> {
    type V = TryV<T::V, E::V>;

    open spec fn view(&self) -> TryV<T::V, E::V> {
        match self {
            Try::Success(x) => TryV::Success(x@),
            Try::Failure(x) => TryV::Failure(x@),
        }
    }
}

/// Reply dispatch: one descriptor, matched against the success and failure
/// fingerprints.
pub open spec fn dec_try<T: Codec, E: Codec>(s: Seq<u8>) -> Result<
    (TryV<T::V, E::V>, Seq<u8>),
    Error,
> {
    match crate::de::dec_descriptor(None, s) {
        Err(e) => Err(e),
        Ok((dsc, s1)) => if desc_name_only(dsc, corda_name_success()) {
            match dec_success_body::<T>(s1) {
                Err(e) => Err(e),
                Ok((v, r)) => Ok((TryV::Success(v), r)),
            }
        } else if desc_name_only(dsc, corda_name_failure()) {
            match dec_failure_body::<E>(s1) {
                Err(e) => Err(e),
                Ok((v, r)) => Ok((TryV::Failure(v), r)),
            }
        } else {
            Err(Error::InvalidData)
        },
    }
}

impl<T: Codec, E: Codec> Codec for Try<T, E> {
    open spec fn enc(v: TryV<T::V, E::V>) -> Seq<u8> {
        match v {
            TryV::Success(x) => enc_success::<T>(x),
            TryV::Failure(x) => enc_failure::<E>(x),
        }
    }

    open spec fn enc_ok(v: TryV<T::V, E::V>) -> bool {
        match v {
            TryV::Success(x) => enc_success_ok::<T>(x),
            TryV::Failure(x) => enc_failure_ok::<E>(x),
        }
    }

    open spec fn dec(c: Option<u8>, s: Seq<u8>) -> Result<(TryV<T::V, E::V>, Seq<u8>), Error> {
        if c is Some {
            Err(Error::InvalidData)
        } else {
            dec_try::<T, E>(s)
        }
    }

    fn encode(&self, s: &mut Serializer) -> (r: Result<(), Error>) {
        match self {
            Try::Success(x) => x.encode(s),
            Try::Failure(x) => x.encode(s),
        }
    }

    fn decode<'x>(d: &mut Deserializer<'x>) -> (r: Result<Self, Error>) {
        if d.constructor.is_some() {
            return Err(Error::InvalidData);
        }
        let dsc = d.parse_descriptor()?;
        let nm = corda_name_success_arr();
        if descriptor_name_is(&dsc, nm.as_slice()) {
            let v = Success::<T>::decode_body(d)?;
            return Ok(Try::Success(v));
        }
        let nm = corda_name_failure_arr();
        if descriptor_name_is(&dsc, nm.as_slice()) {
            let v = Failure::<E>::decode_body(d)?;
            return Ok(Try::Failure(v));
        }
        Err(Error::InvalidData)
    }
}


impl crate::Described for Field {
    open spec fn descriptor_code() -> Option<u64> {
        Some(0xc562_0000_0000_0004)
    }

    open spec fn descriptor_name() -> Option<Seq<u8>> {
        None
    }
}

impl crate::Described for Choice {
    open spec fn descriptor_code() -> Option<u64> {
        Some(0xc562_0000_0000_0007)
    }

    open spec fn descriptor_name() -> Option<Seq<u8>> {
        None
    }
}

impl crate::Described for ObjectList {
    open spec fn descriptor_code() -> Option<u64> {
        None
    }

    open spec fn descriptor_name() -> Option<Seq<u8>> {
        Some(corda_name_object_list())
    }
}

// ---------------------------------------------------------------------------
// The envelope
// ---------------------------------------------------------------------------
/// The Corda envelope: the payload, the schema describing its Java-level
/// types, and the optional transforms schema.
#[derive(Clone, Debug, PartialEq, Eq)]
pub struct Envelope<T> {
    pub obj: T,
    pub schema: Schema,
    pub transforms_schema: Option<TransformsSchema>,
}

pub struct EnvelopeV<TV> {
    pub obj: TV,
    pub schema: SchemaV,
    pub transforms_schema: Option<TransformsSchema>,
}

impl<T: Codec> View for Envelope<T> {
    type V = EnvelopeV<T::V>;

    open spec fn view(&self) -> EnvelopeV<T::V> {
        EnvelopeV {
            obj: self.obj@,
            schema: self.schema@,
            transforms_schema: self.transforms_schema,
        }
    }
}

pub open spec fn enc_envelope_fields<T: Codec>(v: EnvelopeV<T::V>) -> Seq<u8> {
    T::enc(v.obj) + enc_schema(v.schema) + enc_opt_transforms(v.transforms_schema)
}

pub open spec fn enc_envelope_fields_ok<T: Codec>(v: EnvelopeV<T::V>) -> bool {
    T::enc_ok(v.obj) && enc_schema_ok(v.schema)
}

pub open spec fn enc_envelope<T: Codec>(v: EnvelopeV<T::V>) -> Seq<u8> {
    enc_composite(0xc562_0000_0000_0001, 3, enc_envelope_fields::<T>(v))
}

pub open spec fn enc_envelope_ok<T: Codec>(v: EnvelopeV<T::V>) -> bool {
    enc_envelope_fields_ok::<T>(v) && enc_compound_ok(enc_envelope_fields::<T>(v))
}

/// The whole body: magic, the data-and-stop section byte, the envelope.
pub open spec fn enc_envelope_bytes<T: Codec>(v: EnvelopeV<T::V>) -> Seq<u8> {
    corda_magic() + seq![0x00u8] + enc_envelope::<T>(v)
}

pub open spec fn dec_envelope_fields<T: Codec>(ctor: Option<u8>, w: Seq<u8>) -> Result<
    (EnvelopeV<T::V>, Seq<u8>),
    Error,
> {
    match T::dec(ctor, w) {
        Err(e) => Err(e),
        Ok((obj, w1)) => match dec_corda_schema(ctor, w1) {
            Err(e) => Err(e),
            Ok((schema, w2)) => match dec_opt_transforms(ctor, w2) {
                Err(e) => Err(e),
                Ok((transforms_schema, w3)) => Ok(
                    (EnvelopeV { obj, schema, transforms_schema }, w3),
                ),
            },
        },
    }
}

pub open spec fn dec_envelope_body<T: Codec>(c: Option<u8>, s: Seq<u8>) -> Result<
    (EnvelopeV<T::V>, Seq<u8>),
    Error,
> {
    match dec_maybe_desc(c, s) {
        Err(e) => Err(e),
        Ok(s0) => match dec_compound(s0) {
            Err(e) => Err(e),
            Ok(((size, _count, ctor), s1)) => if s1.len() < size {
                Err(Error::UnexpectedEnd)
            } else {
                match dec_envelope_fields::<T>(ctor, s1.take(size as int)) {
                    Err(e) => Err(e),
                    Ok((v, _leftover)) => Ok((v, s1.skip(size as int))),
                }
            },
        },
    }
}

/// The whole decode: magic, section byte, one envelope, nothing after it.
pub open spec fn dec_envelope<T: Codec>(s: Seq<u8>) -> Result<EnvelopeV<T::V>, Error> {
    if s.len() < 7 || s.take(7) != corda_magic() {
        Err(Error::InvalidData)
    } else if s.len() < 8 || s[7] != 0x00 {
        Err(Error::InvalidData)
    } else {
        let s8 = s.skip(8);
        match crate::de::dec_descriptor(None, s8) {
            Err(e) => Err(e),
            Ok((dsc, s9)) => if !desc_code_only(dsc, 0xc562_0000_0000_0001) {
                Err(Error::InvalidData)
            } else {
                match dec_envelope_body::<T>(None, s9) {
                    Err(e) => Err(e),
                    Ok((v, rest)) => if rest.len() > 0 {
                        Err(Error::TrailingCharacters)
                    } else {
                        Ok(v)
                    },
                }
            },
        }
    }
}

impl<T: Codec> Envelope<T> {
    fn decode_fields(w: &mut Deserializer) -> (r: Result<Envelope<T>, Error>)
        requires
            old(w).wf(),
        ensures
            stepped(*old(w), *final(w)),
            match r {
                Ok(v) => dec_envelope_fields::<T>(old(w).constructor, old(w).remaining()) == Ok::<
                    _,
                    Error,
                >((v@, final(w).remaining())),
                Err(e) => dec_envelope_fields::<T>(old(w).constructor, old(w).remaining())
                    == Err::<(EnvelopeV<T::V>, Seq<u8>), Error>(e),
            },
    {
        let obj = T::decode(w)?;
        let schema = Schema::decode(w)?;
        let transforms_schema = parse_opt_transforms(w)?;
        Ok(Envelope { obj, schema, transforms_schema })
    }

    fn decode_body(d: &mut Deserializer) -> (r: Result<Envelope<T>, Error>)
        requires
            old(d).wf(),
        ensures
            stepped(*old(d), *final(d)),
            match r {
                Ok(v) => dec_envelope_body::<T>(old(d).constructor, old(d).remaining()) == Ok::<
                    _,
                    Error,
                >((v@, final(d).remaining())),
                Err(e) => dec_envelope_body::<T>(old(d).constructor, old(d).remaining()) == Err::<
                    (EnvelopeV<T::V>, Seq<u8>),
                    Error,
                >(e),
            },
    {
        d.skip_redundant_descriptor()?;
        let (size, _count, ctor) = d.composite()?;
        let mut w = d.window(size, ctor)?;
        match Envelope::<T>::decode_fields(&mut w) {
            Ok(v) => Ok(v),
            Err(e) => Err(e),
        }
    }

    /// Decodes a whole Corda body: the magic, the section byte, the
    /// envelope, and nothing after it.
    pub fn decode(buf: &[u8]) -> (r: Result<Envelope<T>, Error>)
        ensures
            match r {
                Ok(v) => dec_envelope::<T>(buf@) == Ok::<EnvelopeV<T::V>, Error>(v@),
                Err(e) => dec_envelope::<T>(buf@) == Err::<EnvelopeV<T::V>, Error>(e),
            },
    {
        if buf.len() < 8 {
            proof {
                if buf@.len() >= 7 {
                    assert(buf@.take(7).len() == 7);
                }
            }
            return Err(Error::InvalidData);
        }
        let magic = corda_magic_arr();
        let head = vstd::slice::slice_subrange(buf, 0, 7);
        if !bytes_eq(head, magic.as_slice()) {
            proof {
                assert(head@ =~= buf@.take(7));
            }
            return Err(Error::InvalidData);
        }
        proof {
            assert(head@ =~= buf@.take(7));
        }
        if buf[7] != 0x00 {
            return Err(Error::InvalidData);
        }
        let rest = vstd::slice::slice_subrange(buf, 8, buf.len());
        proof {
            assert(rest@ =~= buf@.skip(8));
        }
        let mut d = Deserializer::from_bytes(rest);
        let dsc = d.parse_descriptor()?;
        if !descriptor_code_is(&dsc, 0xc562_0000_0000_0001) {
            return Err(Error::InvalidData);
        }
        let v = Envelope::<T>::decode_body(&mut d)?;
        if !d.at_end() {
            return Err(Error::TrailingCharacters);
        }
        Ok(v)
    }

    /// Appends the whole Corda body: magic, section byte, envelope.
    pub fn encode(&self, buf: &mut Vec<u8>) -> (r: Result<(), Error>)
        ensures
            match r {
                Ok(()) => enc_envelope_ok::<T>(self@) && final(buf)@ == old(buf)@
                    + enc_envelope_bytes::<T>(self@),
                Err(e) => !enc_envelope_ok::<T>(self@) && e == Error::InvalidData && *final(buf)
                    == *old(buf),
            },
    {
        let mut f = Serializer::new();
        self.obj.encode(&mut f)?;
        self.schema.encode(&mut f)?;
        encode_opt_transforms(&mut f, &self.transforms_schema);
        proof {
            assert(f.bytes() =~= enc_envelope_fields::<T>(self@));
        }
        let mut body = Serializer::new();
        match write_composite(&mut body, 0xc562_0000_0000_0001, 3, &f.output) {
            Ok(()) => (),
            Err(e) => {
                return Err(e);
            },
        }
        let magic = corda_magic_arr();
        push_all(buf, magic.as_slice());
        buf.push(0x00);
        push_all(buf, body.output.as_slice());
        proof {
            assert(buf@ =~= old(buf)@ + enc_envelope_bytes::<T>(self@));
        }
        Ok(())
    }
}

} // verus!
