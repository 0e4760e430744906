//! The AMQP 1.0 wire type model: performatives, link endpoint records,
//! message sections and the frame body, with one explicit encode/decode pair
//! per described composite.
//!
//! Every record is an owned value type; decoded strings and binaries are
//! copied out of the input buffer. Views (`*V` types) carry the same shape
//! over `Seq`/`Option` for use in contracts.
use vstd::prelude::*;

use crate::de::{
    dec_bin, dec_bool, dec_byte, dec_compound, dec_descriptor, dec_i64, dec_maybe_desc,
    dec_opt_bin, dec_opt_bool, dec_opt_i64, dec_opt_str, dec_opt_u16, dec_opt_u32, dec_opt_u64,
    dec_opt_u8,
    dec_raw_u16, dec_str, dec_u16, dec_u32, dec_u64, dec_u8, dec_i8, dec_i32, DescribedReader,
    Descriptor, DescriptorV, Deserializer, stepped,
};
use crate::ser::{
    enc_bin, enc_bool, enc_composite, enc_compound_ok, enc_desc_code, enc_i32, enc_i64, enc_i8,
    enc_list_compound, enc_map_compound, enc_null, enc_opt_bin, enc_opt_bin_ok, enc_opt_bool,
    enc_opt_i64, enc_opt_str, enc_opt_str_ok, enc_opt_u16, enc_opt_u32, enc_opt_u64, enc_opt_u8,
    enc_str, enc_sym, enc_u16, enc_u32, enc_u64, enc_u8, enc_var_ok, view_opt_bytes, Serializer,
};
use crate::wire::bytes_eq;
use crate::{ifc, Codec, Error, Expected, InvalidFormatCode};

verus! {

// ---------------------------------------------------------------------------
// Variant identifiers
// ---------------------------------------------------------------------------
/// A variant identifier read as an unsigned number: booleans count as 0/1,
/// and any of the unsigned integer forms is accepted.
pub open spec fn dec_variant_index(s: Seq<u8>) -> Result<(u64, Seq<u8>), Error> {
    if s.len() == 0 {
        Err(Error::UnexpectedEnd)
    } else {
        let t = s[0];
        if t == 0x56 || t == 0x41 || t == 0x42 {
            match dec_bool(None, s) {
                Err(e) => Err(e),
                Ok((b, r)) => Ok((if b {
                    1u64
                } else {
                    0u64
                }, r)),
            }
        } else if t == 0x50 {
            match dec_u8(s) {
                Err(e) => Err(e),
                Ok((v, r)) => Ok((v as u64, r)),
            }
        } else if t == 0x43 || t == 0x52 || t == 0x70 {
            match dec_u32(s) {
                Err(e) => Err(e),
                Ok((v, r)) => Ok((v as u64, r)),
            }
        } else if t == 0x44 || t == 0x53 || t == 0x80 {
            dec_u64(s)
        } else {
            Err(ifc(Expected::VariantId, t))
        }
    }
}

impl<'a> Deserializer<'a> {
    /// Reads a numeric variant identifier.
    pub fn parse_variant_index(&mut self) -> (r: Result<u64, Error>)
        requires
            old(self).wf(),
            old(self).constructor == None::<u8>,
        ensures
            stepped(*old(self), *final(self)),
            match r {
                Ok(v) => dec_variant_index(old(self).remaining()) == Ok::<_, Error>((
                    v,
                    final(self).remaining(),
                )),
                Err(e) => dec_variant_index(old(self).remaining()) == Err::<
                    (u64, Seq<u8>),
                    Error,
                >(e),
            },
    {
        let t = self.peek()?;
        if t == 0x56 || t == 0x41 || t == 0x42 {
            let b = self.parse_bool()?;
            Ok(if b {
                1
            } else {
                0
            })
        } else if t == 0x50 {
            let v = self.parse_u8()?;
            Ok(v as u64)
        } else if t == 0x43 || t == 0x52 || t == 0x70 {
            let v = self.parse_u32()?;
            Ok(v as u64)
        } else if t == 0x44 || t == 0x53 || t == 0x80 {
            self.parse_u64()
        } else {
            Err(Error::InvalidFormatCode(InvalidFormatCode {
                expected: Expected::VariantId,
                code: t,
            }))
        }
    }
}

// ---------------------------------------------------------------------------
// Scalar enumerations
// ---------------------------------------------------------------------------
/// A link's role: encoded as a bare boolean, false for Sender.
#[derive(Clone, Copy, Debug, PartialEq, Eq, Structural)]
pub enum Role {
    Sender,
    Receiver,
}

pub open spec fn enc_role(v: Role) -> Seq<u8> {
    enc_bool(v == Role::Receiver)
}

pub open spec fn dec_role(c: Option<u8>, s: Seq<u8>) -> Result<(Role, Seq<u8>), Error> {
    match dec_bool(c, s) {
        Err(e) => Err(e),
        Ok((b, r)) => Ok((if b {
            Role::Receiver
        } else {
            Role::Sender
        }, r)),
    }
}

#[derive(Clone, Copy, Debug, PartialEq, Eq, Structural)]
pub enum SenderSettleMode {
    Unsettled,
    Settled,
    Mixed,
}

pub open spec fn snd_settle_index(v: SenderSettleMode) -> u8 {
    match v {
        SenderSettleMode::Unsettled => 0,
        SenderSettleMode::Settled => 1,
        SenderSettleMode::Mixed => 2,
    }
}

pub open spec fn enc_snd_settle(v: SenderSettleMode) -> Seq<u8> {
    enc_u8(snd_settle_index(v))
}

pub open spec fn dec_snd_settle(s: Seq<u8>) -> Result<(SenderSettleMode, Seq<u8>), Error> {
    match dec_variant_index(s) {
        Err(e) => Err(e),
        Ok((i, r)) => if i == 0 {
            Ok((SenderSettleMode::Unsettled, r))
        } else if i == 1 {
            Ok((SenderSettleMode::Settled, r))
        } else if i == 2 {
            Ok((SenderSettleMode::Mixed, r))
        } else {
            Err(Error::InvalidData)
        },
    }
}

#[derive(Clone, Copy, Debug, PartialEq, Eq, Structural)]
pub enum ReceiverSettleMode {
    First,
    Second,
}

pub open spec fn rcv_settle_index(v: ReceiverSettleMode) -> u8 {
    match v {
        ReceiverSettleMode::First => 0,
        ReceiverSettleMode::Second => 1,
    }
}

pub open spec fn enc_rcv_settle(v: ReceiverSettleMode) -> Seq<u8> {
    enc_u8(rcv_settle_index(v))
}

pub open spec fn dec_rcv_settle(s: Seq<u8>) -> Result<(ReceiverSettleMode, Seq<u8>), Error> {
    match dec_variant_index(s) {
        Err(e) => Err(e),
        Ok((i, r)) => if i == 0 {
            Ok((ReceiverSettleMode::First, r))
        } else if i == 1 {
            Ok((ReceiverSettleMode::Second, r))
        } else {
            Err(Error::InvalidData)
        },
    }
}

/// Terminus durability: encoded as a `u32` ordinal.
#[derive(Clone, Copy, Debug, PartialEq, Eq, Structural)]
pub enum TerminusDurability {
    NoDurability,
    Configuration,
    UnsettledState,
}

pub open spec fn durability_index(v: TerminusDurability) -> u32 {
    match v {
        TerminusDurability::NoDurability => 0,
        TerminusDurability::Configuration => 1,
        TerminusDurability::UnsettledState => 2,
    }
}

pub open spec fn enc_durability(v: TerminusDurability) -> Seq<u8> {
    enc_u32(durability_index(v))
}

pub open spec fn dec_durability(s: Seq<u8>) -> Result<(TerminusDurability, Seq<u8>), Error> {
    match dec_variant_index(s) {
        Err(e) => Err(e),
        Ok((i, r)) => if i == 0 {
            Ok((TerminusDurability::NoDurability, r))
        } else if i == 1 {
            Ok((TerminusDurability::Configuration, r))
        } else if i == 2 {
            Ok((TerminusDurability::UnsettledState, r))
        } else {
            Err(Error::InvalidData)
        },
    }
}

#[derive(Clone, Copy, Debug, PartialEq, Eq, Structural)]
pub enum ExpiryPolicy {
    LinkDetach,
    SessionEnd,
    ConnectionClose,
    Never,
}

/// The byte string `link-detach`.
pub open spec fn sym_link_detach() -> Seq<u8> {
    seq![0x6cu8, 0x69u8, 0x6eu8, 0x6bu8, 0x2du8, 0x64u8, 0x65u8, 0x74u8, 0x61u8, 0x63u8, 0x68u8]
}

pub fn sym_link_detach_arr() -> (r: [u8; 11])
    ensures
        r@ == sym_link_detach(),
{
    let r: [u8; 11] = [0x6c, 0x69, 0x6e, 0x6b, 0x2d, 0x64, 0x65, 0x74, 0x61, 0x63, 0x68];
    assert(r@ =~= sym_link_detach());
    r
}

/// The byte string `session-end`.
pub open spec fn sym_session_end() -> Seq<u8> {
    seq![0x73u8, 0x65u8, 0x73u8, 0x73u8, 0x69u8, 0x6fu8, 0x6eu8, 0x2du8, 0x65u8, 0x6eu8, 0x64u8]
}

pub fn sym_session_end_arr() -> (r: [u8; 11])
    ensures
        r@ == sym_session_end(),
{
    let r: [u8; 11] = [0x73, 0x65, 0x73, 0x73, 0x69, 0x6f, 0x6e, 0x2d, 0x65, 0x6e, 0x64];
    assert(r@ =~= sym_session_end());
    r
}

/// The byte string `connection-close`.
pub open spec fn sym_connection_close() -> Seq<u8> {
    seq![
        0x63u8, 0x6fu8, 0x6eu8, 0x6eu8, 0x65u8, 0x63u8, 0x74u8, 0x69u8, 0x6fu8, 0x6eu8, 0x2du8,
        0x63u8, 0x6cu8, 0x6fu8, 0x73u8, 0x65u8,
    ]
}

pub fn sym_connection_close_arr() -> (r: [u8; 16])
    ensures
        r@ == sym_connection_close(),
{
    let r: [u8; 16] = [
        0x63, 0x6f, 0x6e, 0x6e, 0x65, 0x63, 0x74, 0x69, 0x6f, 0x6e, 0x2d, 0x63, 0x6c, 0x6f, 0x73,
        0x65,
    ];
    assert(r@ =~= sym_connection_close());
    r
}

/// The byte string `never`.
pub open spec fn sym_never() -> Seq<u8> {
    seq![0x6eu8, 0x65u8, 0x76u8, 0x65u8, 0x72u8]
}

pub fn sym_never_arr() -> (r: [u8; 5])
    ensures
        r@ == sym_never(),
{
    let r: [u8; 5] = [0x6e, 0x65, 0x76, 0x65, 0x72];
    assert(r@ =~= sym_never());
    r
}

pub open spec fn expiry_name(v: ExpiryPolicy) -> Seq<u8> {
    match v {
        ExpiryPolicy::LinkDetach => sym_link_detach(),
        ExpiryPolicy::SessionEnd => sym_session_end(),
        ExpiryPolicy::ConnectionClose => sym_connection_close(),
        ExpiryPolicy::Never => sym_never(),
    }
}

pub open spec fn enc_expiry(v: ExpiryPolicy) -> Seq<u8> {
    enc_sym(expiry_name(v))
}

pub open spec fn dec_expiry(s: Seq<u8>) -> Result<(ExpiryPolicy, Seq<u8>), Error> {
    match dec_bin(None, s) {
        Err(e) => Err(e),
        Ok((n, r)) => if n == sym_link_detach() {
            Ok((ExpiryPolicy::LinkDetach, r))
        } else if n == sym_session_end() {
            Ok((ExpiryPolicy::SessionEnd, r))
        } else if n == sym_connection_close() {
            Ok((ExpiryPolicy::ConnectionClose, r))
        } else if n == sym_never() {
            Ok((ExpiryPolicy::Never, r))
        } else {
            Err(Error::InvalidData)
        },
    }
}

#[derive(Clone, Copy, Debug, PartialEq, Eq, Structural)]
pub enum DistributionMode {
    Move,
    Copy,
}

/// The byte string `move`.
pub open spec fn sym_move() -> Seq<u8> {
    seq![0x6du8, 0x6fu8, 0x76u8, 0x65u8]
}

pub fn sym_move_arr() -> (r: [u8; 4])
    ensures
        r@ == sym_move(),
{
    let r: [u8; 4] = [0x6d, 0x6f, 0x76, 0x65];
    assert(r@ =~= sym_move());
    r
}

/// The byte string `copy`.
pub open spec fn sym_copy() -> Seq<u8> {
    seq![0x63u8, 0x6fu8, 0x70u8, 0x79u8]
}

pub fn sym_copy_arr() -> (r: [u8; 4])
    ensures
        r@ == sym_copy(),
{
    let r: [u8; 4] = [0x63, 0x6f, 0x70, 0x79];
    assert(r@ =~= sym_copy());
    r
}

pub open spec fn distribution_name(v: DistributionMode) -> Seq<u8> {
    match v {
        DistributionMode::Move => sym_move(),
        DistributionMode::Copy => sym_copy(),
    }
}

pub open spec fn enc_distribution(v: DistributionMode) -> Seq<u8> {
    enc_sym(distribution_name(v))
}

pub open spec fn dec_distribution(s: Seq<u8>) -> Result<(DistributionMode, Seq<u8>), Error> {
    match dec_bin(None, s) {
        Err(e) => Err(e),
        Ok((n, r)) => if n == sym_move() {
            Ok((DistributionMode::Move, r))
        } else if n == sym_copy() {
            Ok((DistributionMode::Copy, r))
        } else {
            Err(Error::InvalidData)
        },
    }
}

// ---------------------------------------------------------------------------
// The restricted dynamic value
// ---------------------------------------------------------------------------
/// The restricted any-type used in application-property values. Dispatch on
/// decode reads the next format code without advancing and accepts only the
/// codes the dialect uses.
#[derive(Clone, Debug, PartialEq, Eq)]
pub enum Any {
    Null,
    Bool(bool),
    U8(u8),
    U16(u16),
    U32(u32),
    U64(u64),
    I8(i8),
    I16(i16),
    I32(i32),
    I64(i64),
    Bytes(Vec<u8>),
    Symbol(Vec<u8>),
    Str(Vec<u8>),
}

pub enum AnyV {
    Null,
    Bool(bool),
    U8(u8),
    U16(u16),
    U32(u32),
    U64(u64),
    I8(i8),
    I16(i16),
    I32(i32),
    I64(i64),
    Bytes(Seq<u8>),
    Symbol(Seq<u8>),
    Str(Seq<u8>),
}

impl View for Any {
    type V = AnyV;

    open spec fn view(&self) -> AnyV {
        match self {
            Any::Null => AnyV::Null,
            Any::Bool(v) => AnyV::Bool(*v),
            Any::U8(v) => AnyV::U8(*v),
            Any::U16(v) => AnyV::U16(*v),
            Any::U32(v) => AnyV::U32(*v),
            Any::U64(v) => AnyV::U64(*v),
            Any::I8(v) => AnyV::I8(*v),
            Any::I16(v) => AnyV::I16(*v),
            Any::I32(v) => AnyV::I32(*v),
            Any::I64(v) => AnyV::I64(*v),
            Any::Bytes(v) => AnyV::Bytes(v@),
            Any::Symbol(v) => AnyV::Symbol(v@),
            Any::Str(v) => AnyV::Str(v@),
        }
    }
}

/// A symbol value carries its bytes as a string on the wire, matching the
/// serializer this dialect was written against.
pub open spec fn enc_any(v: AnyV) -> Seq<u8> {
    match v {
        AnyV::Null => enc_null(),
        AnyV::Bool(x) => enc_bool(x),
        AnyV::U8(x) => enc_u8(x),
        AnyV::U16(x) => enc_u16(x),
        AnyV::U32(x) => enc_u32(x),
        AnyV::U64(x) => enc_u64(x),
        AnyV::I8(x) => crate::ser::enc_i8(x),
        AnyV::I16(x) => crate::ser::enc_i16(x),
        AnyV::I32(x) => enc_i32(x),
        AnyV::I64(x) => enc_i64(x),
        AnyV::Bytes(x) => enc_bin(x),
        AnyV::Symbol(x) => enc_str(x),
        AnyV::Str(x) => enc_str(x),
    }
}

pub open spec fn enc_any_ok(v: AnyV) -> bool {
    match v {
        AnyV::Bytes(x) => enc_var_ok(x),
        AnyV::Symbol(x) => enc_var_ok(x),
        AnyV::Str(x) => enc_var_ok(x),
        _ => true,
    }
}

pub open spec fn dec_any(s: Seq<u8>) -> Result<(AnyV, Seq<u8>), Error> {
    if s.len() == 0 {
        Err(Error::UnexpectedEnd)
    } else {
        let t = s[0];
        if t == 0x40 {
            Ok((AnyV::Null, s.skip(1)))
        } else if t == 0x51 {
            match dec_i8(s) {
                Err(e) => Err(e),
                Ok((v, r)) => Ok((AnyV::I8(v), r)),
            }
        } else if t == 0x54 {
            match dec_i32(s) {
                Err(e) => Err(e),
                Ok((v, r)) => Ok((AnyV::I32(v), r)),
            }
        } else if t == 0x55 || t == 0x81 {
            match dec_i64(s) {
                Err(e) => Err(e),
                Ok((v, r)) => Ok((AnyV::I64(v), r)),
            }
        } else if t == 0xa1 {
            match dec_str(None, s) {
                Err(e) => Err(e),
                Ok((v, r)) => Ok((AnyV::Str(v), r)),
            }
        } else if t == 0xb0 {
            match dec_bin(None, s) {
                Err(e) => Err(e),
                Ok((v, r)) => Ok((AnyV::Bytes(v), r)),
            }
        } else {
            Err(ifc(Expected::Any, t))
        }
    }
}

impl Any {
    #[verifier::rlimit(100)]
    #[verifier::spinoff_prover]
    pub fn encode(&self, s: &mut Serializer) -> (r: Result<(), Error>)
        ensures
            match r {
                Ok(()) => enc_any_ok(self@) && final(s).bytes() == old(s).bytes() + enc_any(self@),
                Err(e) => !enc_any_ok(self@) && e == Error::InvalidData && *final(s) == *old(s),
            },
    {
        match self {
            Any::Null => {
                s.serialize_unit();
                Ok(())
            },
            Any::Bool(v) => {
                s.serialize_bool(*v);
                Ok(())
            },
            Any::U8(v) => {
                s.serialize_u8(*v);
                Ok(())
            },
            Any::U16(v) => {
                s.serialize_u16(*v);
                Ok(())
            },
            Any::U32(v) => {
                s.serialize_u32(*v);
                Ok(())
            },
            Any::U64(v) => {
                s.serialize_u64(*v);
                Ok(())
            },
            Any::I8(v) => {
                s.serialize_i8(*v);
                Ok(())
            },
            Any::I16(v) => {
                s.serialize_i16(*v);
                Ok(())
            },
            Any::I32(v) => {
                s.serialize_i32(*v);
                Ok(())
            },
            Any::I64(v) => {
                s.serialize_i64(*v);
                Ok(())
            },
            Any::Bytes(v) => s.serialize_bytes(v.as_slice()),
            Any::Symbol(v) => s.serialize_str(v.as_slice()),
            Any::Str(v) => s.serialize_str(v.as_slice()),
        }
    }

    pub fn decode(d: &mut Deserializer) -> (r: Result<Any, Error>)
        requires
            old(d).wf(),
            old(d).constructor == None::<u8>,
        ensures
            stepped(*old(d), *final(d)),
            match r {
                Ok(v) => dec_any(old(d).remaining()) == Ok::<_, Error>((
                    v@,
                    final(d).remaining(),
                )),
                Err(e) => dec_any(old(d).remaining()) == Err::<(AnyV, Seq<u8>), Error>(e),
            },
    {
        let t = d.peek()?;
        if t == 0x40 {
            let _ = d.next()?;
            Ok(Any::Null)
        } else if t == 0x51 {
            let v = d.parse_i8()?;
            Ok(Any::I8(v))
        } else if t == 0x54 {
            let v = d.parse_i32()?;
            Ok(Any::I32(v))
        } else if t == 0x55 || t == 0x81 {
            let v = d.parse_i64()?;
            Ok(Any::I64(v))
        } else if t == 0xa1 {
            let v = d.parse_str()?;
            Ok(Any::Str(v))
        } else if t == 0xb0 {
            let v = d.parse_bytes()?;
            Ok(Any::Bytes(v))
        } else {
            Err(Error::InvalidFormatCode(InvalidFormatCode { expected: Expected::Any, code: t }))
        }
    }
}

/// An AMQP symbol, carried as its raw bytes.
#[derive(Clone, Debug, PartialEq, Eq)]
pub struct Symbol(pub Vec<u8>);

impl View for Symbol {
    type V = Seq<u8>;

    open spec fn view(&self) -> Seq<u8> {
        self.0@
    }
}

/// A plain sequence wrapper, kept distinct from `Vec` so that composite
/// fields read as the wire model's list type.
#[derive(Clone, Debug, PartialEq, Eq)]
pub struct List<T>(pub Vec<T>);

// ---------------------------------------------------------------------------
// Generic lists and maps of codec values
// ---------------------------------------------------------------------------
/// The element-wise view of a sequence of viewable values.
pub open spec fn view_elems<T: View>(l: Seq<T>) -> Seq<T::V> {
    l.map_values(|x: T| x@)
}

/// The elements of `l` encoded one after another.
pub open spec fn enc_elems<T: Codec>(l: Seq<T::V>) -> Seq<u8>
    decreases l.len(),
{
    if l.len() == 0 {
        Seq::empty()
    } else {
        T::enc(l[0]) + enc_elems::<T>(l.skip(1))
    }
}

pub open spec fn enc_elems_ok<T: Codec>(l: Seq<T::V>) -> bool {
    forall|i: int| 0 <= i < l.len() ==> T::enc_ok(#[trigger] l[i])
}

/// `n` consecutive elements decoded under the hoisted constructor `c`.
pub open spec fn dec_elems<T: Codec>(n: nat, c: Option<u8>, s: Seq<u8>) -> Result<
    (Seq<T::V>, Seq<u8>),
    Error,
>
    decreases n,
{
    if n == 0 {
        Ok((Seq::empty(), s))
    } else {
        match T::dec(c, s) {
            Err(e) => Err(e),
            Ok((x, s1)) => match dec_elems::<T>((n - 1) as nat, c, s1) {
                Err(e) => Err(e),
                Ok((xs, s2)) => Ok((seq![x] + xs, s2)),
            },
        }
    }
}

/// Appending one element extends the encoded run by that element's bytes.
pub proof fn lemma_enc_elems_take<T: Codec>(l: Seq<T::V>, i: int)
    requires
        0 <= i < l.len(),
    ensures
        enc_elems::<T>(l.take(i + 1)) == enc_elems::<T>(l.take(i)) + T::enc(l[i]),
    decreases i,
{
    let t1 = l.take(i + 1);
    if i == 0 {
        assert(t1 =~= seq![l[0]]);
        assert(t1.skip(1) =~= Seq::<T::V>::empty());
        assert(l.take(0) =~= Seq::<T::V>::empty());
        assert(enc_elems::<T>(t1) =~= enc_elems::<T>(l.take(0)) + T::enc(l[0]));
    } else {
        assert(t1[0] == l[0]);
        assert(t1.skip(1) =~= l.skip(1).take(i));
        assert(l.take(i)[0] == l[0]);
        assert(l.take(i).skip(1) =~= l.skip(1).take(i - 1));
        lemma_enc_elems_take::<T>(l.skip(1), i - 1);
        assert(l.skip(1)[i - 1] == l[i]);
        assert(enc_elems::<T>(t1) =~= T::enc(l[0]) + (enc_elems::<T>(l.skip(1).take(i - 1))
            + T::enc(l[i])));
        assert(enc_elems::<T>(l.take(i)) + T::enc(l[i]) =~= T::enc(l[0]) + (enc_elems::<T>(
            l.skip(1).take(i - 1),
        ) + T::enc(l[i])));
    }
}

/// A list of codec values: a `0xd0` compound whose count is the element
/// count.
pub open spec fn enc_elem_list<T: Codec>(l: Seq<T::V>) -> Seq<u8> {
    enc_list_compound(l.len() as u32, enc_elems::<T>(l))
}

pub open spec fn enc_elem_list_ok<T: Codec>(l: Seq<T::V>) -> bool {
    &&& l.len() <= 0xFFFF_FFFF
    &&& enc_elems_ok::<T>(l)
    &&& enc_compound_ok(enc_elems::<T>(l))
}

/// Decodes a list of codec values: tolerates a redundant outer descriptor,
/// reads the compound header, and takes `count` elements out of the sized
/// window, ignoring any leftover in it.
#[verifier::opaque]
pub open spec fn dec_elem_list<T: Codec>(c: Option<u8>, s: Seq<u8>) -> Result<
    (Seq<T::V>, Seq<u8>),
    Error,
> {
    match dec_maybe_desc(c, s) {
        Err(e) => Err(e),
        Ok(s0) => match dec_compound(s0) {
            Err(e) => Err(e),
            Ok(((size, count, ctor), s1)) => if s1.len() < size {
                Err(Error::UnexpectedEnd)
            } else {
                match dec_elems::<T>(count as nat, ctor, s1.take(size as int)) {
                    Err(e) => Err(e),
                    Ok((xs, _)) => Ok((xs, s1.skip(size as int))),
                }
            },
        },
    }
}

/// A map of codec entries: a `0xd1` compound whose count is twice the entry
/// count.
pub open spec fn enc_elem_map<T: Codec>(l: Seq<T::V>) -> Seq<u8> {
    enc_map_compound((l.len() * 2) as u32, enc_elems::<T>(l))
}

pub open spec fn enc_elem_map_ok<T: Codec>(l: Seq<T::V>) -> bool {
    &&& l.len() * 2 <= 0xFFFF_FFFF
    &&& enc_elems_ok::<T>(l)
    &&& enc_compound_ok(enc_elems::<T>(l))
}

/// Decodes a map of codec entries; an odd count — a trailing unpaired key —
/// is a framing error.
#[verifier::opaque]
pub open spec fn dec_elem_map<T: Codec>(s: Seq<u8>) -> Result<(Seq<T::V>, Seq<u8>), Error> {
    match dec_compound(s) {
        Err(e) => Err(e),
        Ok(((size, count, ctor), s1)) => if count % 2 != 0 {
            Err(Error::InvalidData)
        } else if s1.len() < size {
            Err(Error::UnexpectedEnd)
        } else {
            match dec_elems::<T>((count / 2) as nat, ctor, s1.take(size as int)) {
                Err(e) => Err(e),
                Ok((xs, _)) => Ok((xs, s1.skip(size as int))),
            }
        },
    }
}

/// Encodes the elements of `l` one after another into a fresh buffer.
fn encode_elems<T: Codec>(l: &Vec<T>) -> (r: Result<Vec<u8>, Error>)
    ensures
        match r {
            Ok(v) => enc_elems_ok::<T>(view_elems(l@)) && v@ == enc_elems::<T>(view_elems(l@)),
            Err(e) => !enc_elems_ok::<T>(view_elems(l@)) && e == Error::InvalidData,
        },
{
    let ghost lv = view_elems(l@);
    let mut f = Serializer::new();
    let mut i: usize = 0;
    while i < l.len()
        invariant
            i <= l@.len(),
            lv == view_elems(l@),
            lv.len() == l@.len(),
            f.bytes() == enc_elems::<T>(lv.take(i as int)),
            forall|j: int| 0 <= j < i ==> T::enc_ok(#[trigger] lv[j]),
        decreases l@.len() - i,
    {
        proof {
            assert(lv[i as int] == l@[i as int]@);
        }
        match l[i].encode(&mut f) {
            Ok(()) => {
                proof {
                    lemma_enc_elems_take::<T>(lv, i as int);
                }
                i = i + 1;
            },
            Err(e) => {
                proof {
                    assert(!T::enc_ok(lv[i as int]));
                }
                return Err(e);
            },
        }
    }
    proof {
        assert(lv.take(l@.len() as int) =~= lv);
    }
    Ok(f.into_vec())
}

/// Encodes a list of codec values in the `0xd0` form.
pub fn encode_elem_list<T: Codec>(s: &mut Serializer, l: &Vec<T>) -> (r: Result<(), Error>)
    ensures
        match r {
            Ok(()) => enc_elem_list_ok::<T>(view_elems(l@)) && final(s).bytes() == old(s).bytes()
                + enc_elem_list::<T>(view_elems(l@)),
            Err(e) => !enc_elem_list_ok::<T>(view_elems(l@)) && e == Error::InvalidData && *final(s) == *old(s),
        },
{
    let ghost lv = view_elems(l@);
    if l.len() > 0xFFFF_FFFFusize {
        return Err(Error::InvalidData);
    }
    let payload = match encode_elems::<T>(l) {
        Ok(v) => v,
        Err(e) => {
            return Err(e);
        },
    };
    s.serialize_list_compound(l.len() as u32, payload.as_slice())
}

/// Encodes a map of codec entries in the `0xd1` form; the count written is
/// twice the entry count, so it is always even.
pub fn encode_elem_map<T: Codec>(s: &mut Serializer, l: &Vec<T>) -> (r: Result<(), Error>)
    ensures
        match r {
            Ok(()) => enc_elem_map_ok::<T>(view_elems(l@)) && final(s).bytes() == old(s).bytes()
                + enc_elem_map::<T>(view_elems(l@)),
            Err(e) => !enc_elem_map_ok::<T>(view_elems(l@)) && e == Error::InvalidData && *final(s) == *old(s),
        },
{
    let ghost lv = view_elems(l@);
    if l.len() > 0x7FFF_FFFFusize {
        return Err(Error::InvalidData);
    }
    let payload = match encode_elems::<T>(l) {
        Ok(v) => v,
        Err(e) => {
            return Err(e);
        },
    };
    s.serialize_map_compound((l.len() as u32) * 2, payload.as_slice())
}

/// Reads `n` elements out of the current window.
fn parse_elems<T: Codec>(w: &mut Deserializer, n: u32) -> (r: Result<Vec<T>, Error>)
    requires
        old(w).wf(),
    ensures
        stepped(*old(w), *final(w)),
        match r {
            Ok(v) => dec_elems::<T>(n as nat, old(w).constructor, old(w).remaining()) == Ok::<
                _,
                Error,
            >((view_elems(v@), final(w).remaining())),
            Err(e) => dec_elems::<T>(n as nat, old(w).constructor, old(w).remaining()) == Err::<
                (Seq<T::V>, Seq<u8>),
                Error,
            >(e),
        },
{
    let ghost c = old(w).constructor;
    let ghost s0 = old(w).remaining();
    let mut acc: Vec<T> = Vec::new();
    let mut i: u32 = 0;
    while i < n
        invariant
            i <= n,
            w.wf(),
            w.input@ == old(w).input@,
            w.limit == old(w).limit,
            w.constructor == c,
            old(w).pos <= w.pos,
            c == old(w).constructor,
            s0 == old(w).remaining(),
            forall|xs: Seq<T::V>, r2: Seq<u8>|
                dec_elems::<T>((n - i) as nat, c, w.remaining()) == Ok::<_, Error>((xs, r2))
                    ==> dec_elems::<T>(n as nat, c, s0) == Ok::<_, Error>((
                    view_elems(acc@) + xs,
                    r2,
                )),
            forall|e: Error|
                dec_elems::<T>((n - i) as nat, c, w.remaining()) == Err::<
                    (Seq<T::V>, Seq<u8>),
                    Error,
                >(e) ==> dec_elems::<T>(n as nat, c, s0) == Err::<(Seq<T::V>, Seq<u8>), Error>(e),
        decreases n - i,
    {
        let ghost pre = w.remaining();
        match T::decode(w) {
            Ok(x) => {
                proof {
                    assert(T::dec(c, pre) == Ok::<_, Error>((x@, w.remaining())));
                    assert forall|xs: Seq<T::V>, r2: Seq<u8>|
                        dec_elems::<T>((n - (i + 1)) as nat, c, w.remaining()) == Ok::<_, Error>((
                            xs,
                            r2,
                        )) implies dec_elems::<T>(n as nat, c, s0) == Ok::<_, Error>((
                        view_elems(acc@.push(x)) + xs,
                        r2,
                    )) by {
                        assert(dec_elems::<T>((n - i) as nat, c, pre) == Ok::<_, Error>((
                            seq![x@] + xs,
                            r2,
                        )));
                        assert(view_elems(acc@) + (seq![x@] + xs) =~= view_elems(acc@.push(x))
                            + xs) by {
                            assert(view_elems(acc@.push(x)) =~= view_elems(acc@).push(x@));
                        }
                    }
                    assert forall|e: Error|
                        dec_elems::<T>((n - (i + 1)) as nat, c, w.remaining()) == Err::<
                            (Seq<T::V>, Seq<u8>),
                            Error,
                        >(e) implies dec_elems::<T>(n as nat, c, s0) == Err::<
                        (Seq<T::V>, Seq<u8>),
                        Error,
                    >(e) by {
                        assert(dec_elems::<T>((n - i) as nat, c, pre) == Err::<
                            (Seq<T::V>, Seq<u8>),
                            Error,
                        >(e));
                    }
                }
                acc.push(x);
                i = i + 1;
            },
            Err(e) => {
                proof {
                    assert(dec_elems::<T>((n - i) as nat, c, pre) == Err::<
                        (Seq<T::V>, Seq<u8>),
                        Error,
                    >(e));
                }
                return Err(e);
            },
        }
    }
    proof {
        assert(dec_elems::<T>(0, c, w.remaining()) == Ok::<_, Error>((
            Seq::<T::V>::empty(),
            w.remaining(),
        )));
        assert(view_elems(acc@) + Seq::<T::V>::empty() =~= view_elems(acc@));
    }
    Ok(acc)
}

/// Parses a list of codec values.
pub fn parse_elem_list<T: Codec>(d: &mut Deserializer) -> (r: Result<Vec<T>, Error>)
    requires
        old(d).wf(),
    ensures
        stepped(*old(d), *final(d)),
        match r {
            Ok(v) => dec_elem_list::<T>(old(d).constructor, old(d).remaining()) == Ok::<_, Error>(
                (view_elems(v@), final(d).remaining()),
            ),
            Err(e) => dec_elem_list::<T>(old(d).constructor, old(d).remaining()) == Err::<
                (Seq<T::V>, Seq<u8>),
                Error,
            >(e),
        },
{
    proof {
        reveal(dec_elem_list);
    }
    d.skip_redundant_descriptor()?;
    let (size, count, ctor) = d.composite()?;
    let mut w = d.window(size, ctor)?;
    let r = parse_elems::<T>(&mut w, count)?;
    Ok(r)
}

/// Parses a map of codec entries.
pub fn parse_elem_map<T: Codec>(d: &mut Deserializer) -> (r: Result<Vec<T>, Error>)
    requires
        old(d).wf(),
    ensures
        stepped(*old(d), *final(d)),
        match r {
            Ok(v) => dec_elem_map::<T>(old(d).remaining()) == Ok::<_, Error>((
                view_elems(v@),
                final(d).remaining(),
            )),
            Err(e) => dec_elem_map::<T>(old(d).remaining()) == Err::<
                (Seq<T::V>, Seq<u8>),
                Error,
            >(e),
        },
{
    proof {
        reveal(dec_elem_map);
    }
    let (size, count, ctor) = d.composite()?;
    if count % 2 != 0 {
        return Err(Error::InvalidData);
    }
    let mut w = d.window(size, ctor)?;
    let r = parse_elems::<T>(&mut w, count / 2)?;
    Ok(r)
}


// ---------------------------------------------------------------------------
// Descriptor codes and names
// ---------------------------------------------------------------------------
/// The byte string `amqp:open:list`.
pub open spec fn name_open() -> Seq<u8> {
    seq![0x61u8, 0x6du8, 0x71u8, 0x70u8, 0x3au8, 0x6fu8, 0x70u8, 0x65u8, 0x6eu8, 0x3au8, 0x6cu8, 0x69u8, 0x73u8, 0x74u8]
}

pub fn name_open_arr() -> (r: [u8; 14])
    ensures
        r@ == name_open(),
{
    let r: [u8; 14] = [0x61, 0x6d, 0x71, 0x70, 0x3a, 0x6f, 0x70, 0x65, 0x6e, 0x3a, 0x6c, 0x69, 0x73, 0x74];
    assert(r@ =~= name_open());
    r
}

/// The byte string `amqp:begin:list`.
pub open spec fn name_begin() -> Seq<u8> {
    seq![0x61u8, 0x6du8, 0x71u8, 0x70u8, 0x3au8, 0x62u8, 0x65u8, 0x67u8, 0x69u8, 0x6eu8, 0x3au8, 0x6cu8, 0x69u8, 0x73u8, 0x74u8]
}

pub fn name_begin_arr() -> (r: [u8; 15])
    ensures
        r@ == name_begin(),
{
    let r: [u8; 15] = [0x61, 0x6d, 0x71, 0x70, 0x3a, 0x62, 0x65, 0x67, 0x69, 0x6e, 0x3a, 0x6c, 0x69, 0x73, 0x74];
    assert(r@ =~= name_begin());
    r
}

/// The byte string `amqp:attach:list`.
pub open spec fn name_attach() -> Seq<u8> {
    seq![0x61u8, 0x6du8, 0x71u8, 0x70u8, 0x3au8, 0x61u8, 0x74u8, 0x74u8, 0x61u8, 0x63u8, 0x68u8, 0x3au8, 0x6cu8, 0x69u8, 0x73u8, 0x74u8]
}

pub fn name_attach_arr() -> (r: [u8; 16])
    ensures
        r@ == name_attach(),
{
    let r: [u8; 16] = [0x61, 0x6d, 0x71, 0x70, 0x3a, 0x61, 0x74, 0x74, 0x61, 0x63, 0x68, 0x3a, 0x6c, 0x69, 0x73, 0x74];
    assert(r@ =~= name_attach());
    r
}

/// The byte string `amqp:flow:list`.
pub open spec fn name_flow() -> Seq<u8> {
    seq![0x61u8, 0x6du8, 0x71u8, 0x70u8, 0x3au8, 0x66u8, 0x6cu8, 0x6fu8, 0x77u8, 0x3au8, 0x6cu8, 0x69u8, 0x73u8, 0x74u8]
}

pub fn name_flow_arr() -> (r: [u8; 14])
    ensures
        r@ == name_flow(),
{
    let r: [u8; 14] = [0x61, 0x6d, 0x71, 0x70, 0x3a, 0x66, 0x6c, 0x6f, 0x77, 0x3a, 0x6c, 0x69, 0x73, 0x74];
    assert(r@ =~= name_flow());
    r
}

/// The byte string `amqp:transfer:list`.
pub open spec fn name_transfer() -> Seq<u8> {
    seq![0x61u8, 0x6du8, 0x71u8, 0x70u8, 0x3au8, 0x74u8, 0x72u8, 0x61u8, 0x6eu8, 0x73u8, 0x66u8, 0x65u8, 0x72u8, 0x3au8, 0x6cu8, 0x69u8, 0x73u8, 0x74u8]
}

pub fn name_transfer_arr() -> (r: [u8; 18])
    ensures
        r@ == name_transfer(),
{
    let r: [u8; 18] = [0x61, 0x6d, 0x71, 0x70, 0x3a, 0x74, 0x72, 0x61, 0x6e, 0x73, 0x66, 0x65, 0x72, 0x3a, 0x6c, 0x69, 0x73, 0x74];
    assert(r@ =~= name_transfer());
    r
}

/// The byte string `amqp:disposition:list`.
pub open spec fn name_disposition() -> Seq<u8> {
    seq![0x61u8, 0x6du8, 0x71u8, 0x70u8, 0x3au8, 0x64u8, 0x69u8, 0x73u8, 0x70u8, 0x6fu8, 0x73u8, 0x69u8, 0x74u8, 0x69u8, 0x6fu8, 0x6eu8, 0x3au8, 0x6cu8, 0x69u8, 0x73u8, 0x74u8]
}

pub fn name_disposition_arr() -> (r: [u8; 21])
    ensures
        r@ == name_disposition(),
{
    let r: [u8; 21] = [0x61, 0x6d, 0x71, 0x70, 0x3a, 0x64, 0x69, 0x73, 0x70, 0x6f, 0x73, 0x69, 0x74, 0x69, 0x6f, 0x6e, 0x3a, 0x6c, 0x69, 0x73, 0x74];
    assert(r@ =~= name_disposition());
    r
}

/// The byte string `amqp:detach:list`.
pub open spec fn name_detach() -> Seq<u8> {
    seq![0x61u8, 0x6du8, 0x71u8, 0x70u8, 0x3au8, 0x64u8, 0x65u8, 0x74u8, 0x61u8, 0x63u8, 0x68u8, 0x3au8, 0x6cu8, 0x69u8, 0x73u8, 0x74u8]
}

pub fn name_detach_arr() -> (r: [u8; 16])
    ensures
        r@ == name_detach(),
{
    let r: [u8; 16] = [0x61, 0x6d, 0x71, 0x70, 0x3a, 0x64, 0x65, 0x74, 0x61, 0x63, 0x68, 0x3a, 0x6c, 0x69, 0x73, 0x74];
    assert(r@ =~= name_detach());
    r
}

/// The byte string `amqp:close:list`.
pub open spec fn name_close() -> Seq<u8> {
    seq![0x61u8, 0x6du8, 0x71u8, 0x70u8, 0x3au8, 0x63u8, 0x6cu8, 0x6fu8, 0x73u8, 0x65u8, 0x3au8, 0x6cu8, 0x69u8, 0x73u8, 0x74u8]
}

pub fn name_close_arr() -> (r: [u8; 15])
    ensures
        r@ == name_close(),
{
    let r: [u8; 15] = [0x61, 0x6d, 0x71, 0x70, 0x3a, 0x63, 0x6c, 0x6f, 0x73, 0x65, 0x3a, 0x6c, 0x69, 0x73, 0x74];
    assert(r@ =~= name_close());
    r
}

/// The byte string `amqp:error:list`.
pub open spec fn name_error() -> Seq<u8> {
    seq![0x61u8, 0x6du8, 0x71u8, 0x70u8, 0x3au8, 0x65u8, 0x72u8, 0x72u8, 0x6fu8, 0x72u8, 0x3au8, 0x6cu8, 0x69u8, 0x73u8, 0x74u8]
}

pub fn name_error_arr() -> (r: [u8; 15])
    ensures
        r@ == name_error(),
{
    let r: [u8; 15] = [0x61, 0x6d, 0x71, 0x70, 0x3a, 0x65, 0x72, 0x72, 0x6f, 0x72, 0x3a, 0x6c, 0x69, 0x73, 0x74];
    assert(r@ =~= name_error());
    r
}

/// The byte string `amqp:received:list`.
pub open spec fn name_received() -> Seq<u8> {
    seq![0x61u8, 0x6du8, 0x71u8, 0x70u8, 0x3au8, 0x72u8, 0x65u8, 0x63u8, 0x65u8, 0x69u8, 0x76u8, 0x65u8, 0x64u8, 0x3au8, 0x6cu8, 0x69u8, 0x73u8, 0x74u8]
}

pub fn name_received_arr() -> (r: [u8; 18])
    ensures
        r@ == name_received(),
{
    let r: [u8; 18] = [0x61, 0x6d, 0x71, 0x70, 0x3a, 0x72, 0x65, 0x63, 0x65, 0x69, 0x76, 0x65, 0x64, 0x3a, 0x6c, 0x69, 0x73, 0x74];
    assert(r@ =~= name_received());
    r
}

/// The byte string `amqp:accepted:list`.
pub open spec fn name_accepted() -> Seq<u8> {
    seq![0x61u8, 0x6du8, 0x71u8, 0x70u8, 0x3au8, 0x61u8, 0x63u8, 0x63u8, 0x65u8, 0x70u8, 0x74u8, 0x65u8, 0x64u8, 0x3au8, 0x6cu8, 0x69u8, 0x73u8, 0x74u8]
}

pub fn name_accepted_arr() -> (r: [u8; 18])
    ensures
        r@ == name_accepted(),
{
    let r: [u8; 18] = [0x61, 0x6d, 0x71, 0x70, 0x3a, 0x61, 0x63, 0x63, 0x65, 0x70, 0x74, 0x65, 0x64, 0x3a, 0x6c, 0x69, 0x73, 0x74];
    assert(r@ =~= name_accepted());
    r
}

/// The byte string `amqp:rejected:list`.
pub open spec fn name_rejected() -> Seq<u8> {
    seq![0x61u8, 0x6du8, 0x71u8, 0x70u8, 0x3au8, 0x72u8, 0x65u8, 0x6au8, 0x65u8, 0x63u8, 0x74u8, 0x65u8, 0x64u8, 0x3au8, 0x6cu8, 0x69u8, 0x73u8, 0x74u8]
}

pub fn name_rejected_arr() -> (r: [u8; 18])
    ensures
        r@ == name_rejected(),
{
    let r: [u8; 18] = [0x61, 0x6d, 0x71, 0x70, 0x3a, 0x72, 0x65, 0x6a, 0x65, 0x63, 0x74, 0x65, 0x64, 0x3a, 0x6c, 0x69, 0x73, 0x74];
    assert(r@ =~= name_rejected());
    r
}

/// The byte string `amqp:released:list`.
pub open spec fn name_released() -> Seq<u8> {
    seq![0x61u8, 0x6du8, 0x71u8, 0x70u8, 0x3au8, 0x72u8, 0x65u8, 0x6cu8, 0x65u8, 0x61u8, 0x73u8, 0x65u8, 0x64u8, 0x3au8, 0x6cu8, 0x69u8, 0x73u8, 0x74u8]
}

pub fn name_released_arr() -> (r: [u8; 18])
    ensures
        r@ == name_released(),
{
    let r: [u8; 18] = [0x61, 0x6d, 0x71, 0x70, 0x3a, 0x72, 0x65, 0x6c, 0x65, 0x61, 0x73, 0x65, 0x64, 0x3a, 0x6c, 0x69, 0x73, 0x74];
    assert(r@ =~= name_released());
    r
}

/// The byte string `amqp:modified:list`.
pub open spec fn name_modified() -> Seq<u8> {
    seq![0x61u8, 0x6du8, 0x71u8, 0x70u8, 0x3au8, 0x6du8, 0x6fu8, 0x64u8, 0x69u8, 0x66u8, 0x69u8, 0x65u8, 0x64u8, 0x3au8, 0x6cu8, 0x69u8, 0x73u8, 0x74u8]
}

pub fn name_modified_arr() -> (r: [u8; 18])
    ensures
        r@ == name_modified(),
{
    let r: [u8; 18] = [0x61, 0x6d, 0x71, 0x70, 0x3a, 0x6d, 0x6f, 0x64, 0x69, 0x66, 0x69, 0x65, 0x64, 0x3a, 0x6c, 0x69, 0x73, 0x74];
    assert(r@ =~= name_modified());
    r
}

/// The byte string `amqp:declared:list`.
pub open spec fn name_declared() -> Seq<u8> {
    seq![0x61u8, 0x6du8, 0x71u8, 0x70u8, 0x3au8, 0x64u8, 0x65u8, 0x63u8, 0x6cu8, 0x61u8, 0x72u8, 0x65u8, 0x64u8, 0x3au8, 0x6cu8, 0x69u8, 0x73u8, 0x74u8]
}

pub fn name_declared_arr() -> (r: [u8; 18])
    ensures
        r@ == name_declared(),
{
    let r: [u8; 18] = [0x61, 0x6d, 0x71, 0x70, 0x3a, 0x64, 0x65, 0x63, 0x6c, 0x61, 0x72, 0x65, 0x64, 0x3a, 0x6c, 0x69, 0x73, 0x74];
    assert(r@ =~= name_declared());
    r
}

/// The byte string `amqp:transactional-state:list`.
pub open spec fn name_transactional_state() -> Seq<u8> {
    seq![0x61u8, 0x6du8, 0x71u8, 0x70u8, 0x3au8, 0x74u8, 0x72u8, 0x61u8, 0x6eu8, 0x73u8, 0x61u8, 0x63u8, 0x74u8, 0x69u8, 0x6fu8, 0x6eu8, 0x61u8, 0x6cu8, 0x2du8, 0x73u8, 0x74u8, 0x61u8, 0x74u8, 0x65u8, 0x3au8, 0x6cu8, 0x69u8, 0x73u8, 0x74u8]
}

pub fn name_transactional_state_arr() -> (r: [u8; 29])
    ensures
        r@ == name_transactional_state(),
{
    let r: [u8; 29] = [0x61, 0x6d, 0x71, 0x70, 0x3a, 0x74, 0x72, 0x61, 0x6e, 0x73, 0x61, 0x63, 0x74, 0x69, 0x6f, 0x6e, 0x61, 0x6c, 0x2d, 0x73, 0x74, 0x61, 0x74, 0x65, 0x3a, 0x6c, 0x69, 0x73, 0x74];
    assert(r@ =~= name_transactional_state());
    r
}

/// The byte string `amqp:source:list`.
pub open spec fn name_source() -> Seq<u8> {
    seq![0x61u8, 0x6du8, 0x71u8, 0x70u8, 0x3au8, 0x73u8, 0x6fu8, 0x75u8, 0x72u8, 0x63u8, 0x65u8, 0x3au8, 0x6cu8, 0x69u8, 0x73u8, 0x74u8]
}

pub fn name_source_arr() -> (r: [u8; 16])
    ensures
        r@ == name_source(),
{
    let r: [u8; 16] = [0x61, 0x6d, 0x71, 0x70, 0x3a, 0x73, 0x6f, 0x75, 0x72, 0x63, 0x65, 0x3a, 0x6c, 0x69, 0x73, 0x74];
    assert(r@ =~= name_source());
    r
}

/// The byte string `amqp:target:list`.
pub open spec fn name_target() -> Seq<u8> {
    seq![0x61u8, 0x6du8, 0x71u8, 0x70u8, 0x3au8, 0x74u8, 0x61u8, 0x72u8, 0x67u8, 0x65u8, 0x74u8, 0x3au8, 0x6cu8, 0x69u8, 0x73u8, 0x74u8]
}

pub fn name_target_arr() -> (r: [u8; 16])
    ensures
        r@ == name_target(),
{
    let r: [u8; 16] = [0x61, 0x6d, 0x71, 0x70, 0x3a, 0x74, 0x61, 0x72, 0x67, 0x65, 0x74, 0x3a, 0x6c, 0x69, 0x73, 0x74];
    assert(r@ =~= name_target());
    r
}

/// The byte string `amqp:header:list`.
pub open spec fn name_header() -> Seq<u8> {
    seq![0x61u8, 0x6du8, 0x71u8, 0x70u8, 0x3au8, 0x68u8, 0x65u8, 0x61u8, 0x64u8, 0x65u8, 0x72u8, 0x3au8, 0x6cu8, 0x69u8, 0x73u8, 0x74u8]
}

pub fn name_header_arr() -> (r: [u8; 16])
    ensures
        r@ == name_header(),
{
    let r: [u8; 16] = [0x61, 0x6d, 0x71, 0x70, 0x3a, 0x68, 0x65, 0x61, 0x64, 0x65, 0x72, 0x3a, 0x6c, 0x69, 0x73, 0x74];
    assert(r@ =~= name_header());
    r
}

/// The byte string `amqp:delivery-annotations:map`.
pub open spec fn name_delivery_annotations() -> Seq<u8> {
    seq![0x61u8, 0x6du8, 0x71u8, 0x70u8, 0x3au8, 0x64u8, 0x65u8, 0x6cu8, 0x69u8, 0x76u8, 0x65u8, 0x72u8, 0x79u8, 0x2du8, 0x61u8, 0x6eu8, 0x6eu8, 0x6fu8, 0x74u8, 0x61u8, 0x74u8, 0x69u8, 0x6fu8, 0x6eu8, 0x73u8, 0x3au8, 0x6du8, 0x61u8, 0x70u8]
}

pub fn name_delivery_annotations_arr() -> (r: [u8; 29])
    ensures
        r@ == name_delivery_annotations(),
{
    let r: [u8; 29] = [0x61, 0x6d, 0x71, 0x70, 0x3a, 0x64, 0x65, 0x6c, 0x69, 0x76, 0x65, 0x72, 0x79, 0x2d, 0x61, 0x6e, 0x6e, 0x6f, 0x74, 0x61, 0x74, 0x69, 0x6f, 0x6e, 0x73, 0x3a, 0x6d, 0x61, 0x70];
    assert(r@ =~= name_delivery_annotations());
    r
}

/// The byte string `amqp:message-annotations:map`.
pub open spec fn name_message_annotations() -> Seq<u8> {
    seq![0x61u8, 0x6du8, 0x71u8, 0x70u8, 0x3au8, 0x6du8, 0x65u8, 0x73u8, 0x73u8, 0x61u8, 0x67u8, 0x65u8, 0x2du8, 0x61u8, 0x6eu8, 0x6eu8, 0x6fu8, 0x74u8, 0x61u8, 0x74u8, 0x69u8, 0x6fu8, 0x6eu8, 0x73u8, 0x3au8, 0x6du8, 0x61u8, 0x70u8]
}

pub fn name_message_annotations_arr() -> (r: [u8; 28])
    ensures
        r@ == name_message_annotations(),
{
    let r: [u8; 28] = [0x61, 0x6d, 0x71, 0x70, 0x3a, 0x6d, 0x65, 0x73, 0x73, 0x61, 0x67, 0x65, 0x2d, 0x61, 0x6e, 0x6e, 0x6f, 0x74, 0x61, 0x74, 0x69, 0x6f, 0x6e, 0x73, 0x3a, 0x6d, 0x61, 0x70];
    assert(r@ =~= name_message_annotations());
    r
}

/// The byte string `amqp:properties:list`.
pub open spec fn name_properties() -> Seq<u8> {
    seq![0x61u8, 0x6du8, 0x71u8, 0x70u8, 0x3au8, 0x70u8, 0x72u8, 0x6fu8, 0x70u8, 0x65u8, 0x72u8, 0x74u8, 0x69u8, 0x65u8, 0x73u8, 0x3au8, 0x6cu8, 0x69u8, 0x73u8, 0x74u8]
}

pub fn name_properties_arr() -> (r: [u8; 20])
    ensures
        r@ == name_properties(),
{
    let r: [u8; 20] = [0x61, 0x6d, 0x71, 0x70, 0x3a, 0x70, 0x72, 0x6f, 0x70, 0x65, 0x72, 0x74, 0x69, 0x65, 0x73, 0x3a, 0x6c, 0x69, 0x73, 0x74];
    assert(r@ =~= name_properties());
    r
}

/// The byte string `amqp:application-properties:map`.
pub open spec fn name_application_properties() -> Seq<u8> {
    seq![0x61u8, 0x6du8, 0x71u8, 0x70u8, 0x3au8, 0x61u8, 0x70u8, 0x70u8, 0x6cu8, 0x69u8, 0x63u8, 0x61u8, 0x74u8, 0x69u8, 0x6fu8, 0x6eu8, 0x2du8, 0x70u8, 0x72u8, 0x6fu8, 0x70u8, 0x65u8, 0x72u8, 0x74u8, 0x69u8, 0x65u8, 0x73u8, 0x3au8, 0x6du8, 0x61u8, 0x70u8]
}

pub fn name_application_properties_arr() -> (r: [u8; 31])
    ensures
        r@ == name_application_properties(),
{
    let r: [u8; 31] = [0x61, 0x6d, 0x71, 0x70, 0x3a, 0x61, 0x70, 0x70, 0x6c, 0x69, 0x63, 0x61, 0x74, 0x69, 0x6f, 0x6e, 0x2d, 0x70, 0x72, 0x6f, 0x70, 0x65, 0x72, 0x74, 0x69, 0x65, 0x73, 0x3a, 0x6d, 0x61, 0x70];
    assert(r@ =~= name_application_properties());
    r
}

/// The byte string `amqp:data:binary`.
pub open spec fn name_data() -> Seq<u8> {
    seq![0x61u8, 0x6du8, 0x71u8, 0x70u8, 0x3au8, 0x64u8, 0x61u8, 0x74u8, 0x61u8, 0x3au8, 0x62u8, 0x69u8, 0x6eu8, 0x61u8, 0x72u8, 0x79u8]
}

pub fn name_data_arr() -> (r: [u8; 16])
    ensures
        r@ == name_data(),
{
    let r: [u8; 16] = [0x61, 0x6d, 0x71, 0x70, 0x3a, 0x64, 0x61, 0x74, 0x61, 0x3a, 0x62, 0x69, 0x6e, 0x61, 0x72, 0x79];
    assert(r@ =~= name_data());
    r
}

/// The byte string `amqp:amqp-sequence:list`.
pub open spec fn name_sequence() -> Seq<u8> {
    seq![0x61u8, 0x6du8, 0x71u8, 0x70u8, 0x3au8, 0x61u8, 0x6du8, 0x71u8, 0x70u8, 0x2du8, 0x73u8, 0x65u8, 0x71u8, 0x75u8, 0x65u8, 0x6eu8, 0x63u8, 0x65u8, 0x3au8, 0x6cu8, 0x69u8, 0x73u8, 0x74u8]
}

pub fn name_sequence_arr() -> (r: [u8; 23])
    ensures
        r@ == name_sequence(),
{
    let r: [u8; 23] = [0x61, 0x6d, 0x71, 0x70, 0x3a, 0x61, 0x6d, 0x71, 0x70, 0x2d, 0x73, 0x65, 0x71, 0x75, 0x65, 0x6e, 0x63, 0x65, 0x3a, 0x6c, 0x69, 0x73, 0x74];
    assert(r@ =~= name_sequence());
    r
}

/// The byte string `amqp:value:*`.
pub open spec fn name_value() -> Seq<u8> {
    seq![0x61u8, 0x6du8, 0x71u8, 0x70u8, 0x3au8, 0x76u8, 0x61u8, 0x6cu8, 0x75u8, 0x65u8, 0x3au8, 0x2au8]
}

pub fn name_value_arr() -> (r: [u8; 12])
    ensures
        r@ == name_value(),
{
    let r: [u8; 12] = [0x61, 0x6d, 0x71, 0x70, 0x3a, 0x76, 0x61, 0x6c, 0x75, 0x65, 0x3a, 0x2a];
    assert(r@ =~= name_value());
    r
}

/// The byte string `amqp:footer:map`.
pub open spec fn name_footer() -> Seq<u8> {
    seq![0x61u8, 0x6du8, 0x71u8, 0x70u8, 0x3au8, 0x66u8, 0x6fu8, 0x6fu8, 0x74u8, 0x65u8, 0x72u8, 0x3au8, 0x6du8, 0x61u8, 0x70u8]
}

pub fn name_footer_arr() -> (r: [u8; 15])
    ensures
        r@ == name_footer(),
{
    let r: [u8; 15] = [0x61, 0x6d, 0x71, 0x70, 0x3a, 0x66, 0x6f, 0x6f, 0x74, 0x65, 0x72, 0x3a, 0x6d, 0x61, 0x70];
    assert(r@ =~= name_footer());
    r
}


/// Whether a parsed descriptor names the composite with the given numeric
/// code or symbolic name: numeric codes match first, then names.
pub open spec fn desc_matches(d: DescriptorV, code: u64, name: Seq<u8>) -> bool {
    match d {
        DescriptorV::Numeric(c) => c == code,
        DescriptorV::Symbol(s) => s == name,
    }
}

pub fn descriptor_matches(d: &Descriptor, code: u64, name: &[u8]) -> (r: bool)
    ensures
        r == desc_matches(d@, code, name@),
{
    match d {
        Descriptor::Numeric(c) => *c == code,
        Descriptor::Symbol(s) => bytes_eq(s.as_slice(), name),
    }
}

/// Whether a dynamic value is short enough to encode.
pub fn any_fits(a: &Any) -> (r: bool)
    ensures
        r == enc_any_ok(a@),
{
    match a {
        Any::Bytes(v) => v.len() <= 0xFFFF_FFFEusize,
        Any::Symbol(v) => v.len() <= 0xFFFF_FFFEusize,
        Any::Str(v) => v.len() <= 0xFFFF_FFFEusize,
        _ => true,
    }
}

// ---------------------------------------------------------------------------
// Codec instances for list elements and map entries
// ---------------------------------------------------------------------------
/// A string element (capability and locale lists).
impl Codec for Vec<u8> {
    open spec fn enc(v: Seq<u8>) -> Seq<u8> {
        enc_str(v)
    }

    open spec fn enc_ok(v: Seq<u8>) -> bool {
        enc_var_ok(v)
    }

    open spec fn dec(c: Option<u8>, s: Seq<u8>) -> Result<(Seq<u8>, Seq<u8>), Error> {
        dec_str(c, s)
    }

    fn encode(&self, s: &mut Serializer) -> (r: Result<(), Error>) {
        s.serialize_str(self.as_slice())
    }

    fn decode<'x>(d: &mut Deserializer<'x>) -> (r: Result<Self, Error>) {
        d.parse_str()
    }
}

/// A string-to-string map entry (annotations, filters, node properties).
impl Codec for (Vec<u8>, Vec<u8>) {
    open spec fn enc(v: (Seq<u8>, Seq<u8>)) -> Seq<u8> {
        enc_str(v.0) + enc_str(v.1)
    }

    open spec fn enc_ok(v: (Seq<u8>, Seq<u8>)) -> bool {
        enc_var_ok(v.0) && enc_var_ok(v.1)
    }

    open spec fn dec(c: Option<u8>, s: Seq<u8>) -> Result<((Seq<u8>, Seq<u8>), Seq<u8>), Error> {
        match dec_str(c, s) {
            Err(e) => Err(e),
            Ok((k, s1)) => match dec_str(c, s1) {
                Err(e) => Err(e),
                Ok((v, s2)) => Ok(((k, v), s2)),
            },
        }
    }

    fn encode(&self, s: &mut Serializer) -> (r: Result<(), Error>) {
        if self.1.len() > 0xFFFF_FFFEusize {
            return Err(Error::InvalidData);
        }
        s.serialize_str(self.0.as_slice())?;
        match s.serialize_str(self.1.as_slice()) {
            Ok(()) => Ok(()),
            Err(e) => {
                proof {
                    assert(false);
                }
                Err(e)
            },
        }
    }

    fn decode<'x>(d: &mut Deserializer<'x>) -> (r: Result<Self, Error>) {
        let k = d.parse_str()?;
        let v = d.parse_str()?;
        Ok((k, v))
    }
}

/// A string-to-dynamic-value map entry (application properties and message
/// annotations). Such a map never stands inside a homogeneous array, so a
/// hoisted constructor is a framing error.
impl Codec for (Vec<u8>, Any) {
    open spec fn enc(v: (Seq<u8>, AnyV)) -> Seq<u8> {
        enc_str(v.0) + enc_any(v.1)
    }

    open spec fn enc_ok(v: (Seq<u8>, AnyV)) -> bool {
        enc_var_ok(v.0) && enc_any_ok(v.1)
    }

    open spec fn dec(c: Option<u8>, s: Seq<u8>) -> Result<((Seq<u8>, AnyV), Seq<u8>), Error> {
        if c is Some {
            Err(Error::InvalidData)
        } else {
            match dec_str(None, s) {
                Err(e) => Err(e),
                Ok((k, s1)) => match dec_any(s1) {
                    Err(e) => Err(e),
                    Ok((v, s2)) => Ok(((k, v), s2)),
                },
            }
        }
    }

    fn encode(&self, s: &mut Serializer) -> (r: Result<(), Error>) {
        if !any_fits(&self.1) {
            return Err(Error::InvalidData);
        }
        s.serialize_str(self.0.as_slice())?;
        match self.1.encode(s) {
            Ok(()) => Ok(()),
            Err(e) => {
                proof {
                    assert(false);
                }
                Err(e)
            },
        }
    }

    fn decode<'x>(d: &mut Deserializer<'x>) -> (r: Result<Self, Error>) {
        if d.constructor.is_some() {
            return Err(Error::InvalidData);
        }
        let k = d.parse_str()?;
        let v = Any::decode(d)?;
        Ok((k, v))
    }
}

// ---------------------------------------------------------------------------
// Optional list- and map-valued fields
// ---------------------------------------------------------------------------
pub open spec fn view_opt_elems<T: View>(o: Option<Vec<T>>) -> Option<Seq<T::V>> {
    match o {
        Some(v) => Some(view_elems(v@)),
        None => None,
    }
}

pub open spec fn enc_opt_elem_list<T: Codec>(o: Option<Seq<T::V>>) -> Seq<u8> {
    match o {
        Some(l) => enc_elem_list::<T>(l),
        None => enc_null(),
    }
}

pub open spec fn enc_opt_elem_list_ok<T: Codec>(o: Option<Seq<T::V>>) -> bool {
    match o {
        Some(l) => enc_elem_list_ok::<T>(l),
        None => true,
    }
}

#[verifier::opaque]
pub open spec fn dec_opt_elem_list<T: Codec>(c: Option<u8>, s: Seq<u8>) -> Result<
    (Option<Seq<T::V>>, Seq<u8>),
    Error,
> {
    if s.len() == 0 {
        Ok((None, s))
    } else if s[0] == 0x40 {
        Ok((None, s.skip(1)))
    } else {
        match dec_elem_list::<T>(c, s) {
            Err(e) => Err(e),
            Ok((l, r)) => Ok((Some(l), r)),
        }
    }
}

pub fn encode_opt_elem_list<T: Codec>(s: &mut Serializer, o: &Option<Vec<T>>) -> (r: Result<
    (),
    Error,
>)
    ensures
        match r {
            Ok(()) => enc_opt_elem_list_ok::<T>(view_opt_elems(*o)) && final(s).bytes() == old(
                s,
            ).bytes() + enc_opt_elem_list::<T>(view_opt_elems(*o)),
            Err(e) => !enc_opt_elem_list_ok::<T>(view_opt_elems(*o)) && e == Error::InvalidData
                && *final(s) == *old(s),
        },
{
    match o {
        Some(l) => encode_elem_list::<T>(s, l),
        None => {
            s.serialize_unit();
            Ok(())
        },
    }
}

pub fn parse_opt_elem_list<T: Codec>(d: &mut Deserializer) -> (r: Result<Option<Vec<T>>, Error>)
    requires
        old(d).wf(),
    ensures
        stepped(*old(d), *final(d)),
        match r {
            Ok(v) => dec_opt_elem_list::<T>(old(d).constructor, old(d).remaining()) == Ok::<
                _,
                Error,
            >((view_opt_elems(v), final(d).remaining())),
            Err(e) => dec_opt_elem_list::<T>(old(d).constructor, old(d).remaining()) == Err::<
                (Option<Seq<T::V>>, Seq<u8>),
                Error,
            >(e),
        },
{
    proof {
        reveal(dec_opt_elem_list);
    }
    if d.at_end() {
        return Ok(None);
    }
    let b = d.peek()?;
    if b == 0x40 {
        let _ = d.next()?;
        return Ok(None);
    }
    match parse_elem_list::<T>(d) {
        Ok(v) => Ok(Some(v)),
        Err(e) => Err(e),
    }
}

pub open spec fn enc_opt_elem_map<T: Codec>(o: Option<Seq<T::V>>) -> Seq<u8> {
    match o {
        Some(l) => enc_elem_map::<T>(l),
        None => enc_null(),
    }
}

pub open spec fn enc_opt_elem_map_ok<T: Codec>(o: Option<Seq<T::V>>) -> bool {
    match o {
        Some(l) => enc_elem_map_ok::<T>(l),
        None => true,
    }
}

#[verifier::opaque]
pub open spec fn dec_opt_elem_map<T: Codec>(s: Seq<u8>) -> Result<
    (Option<Seq<T::V>>, Seq<u8>),
    Error,
> {
    if s.len() == 0 {
        Ok((None, s))
    } else if s[0] == 0x40 {
        Ok((None, s.skip(1)))
    } else {
        match dec_elem_map::<T>(s) {
            Err(e) => Err(e),
            Ok((l, r)) => Ok((Some(l), r)),
        }
    }
}

pub fn encode_opt_elem_map<T: Codec>(s: &mut Serializer, o: &Option<Vec<T>>) -> (r: Result<
    (),
    Error,
>)
    ensures
        match r {
            Ok(()) => enc_opt_elem_map_ok::<T>(view_opt_elems(*o)) && final(s).bytes() == old(
                s,
            ).bytes() + enc_opt_elem_map::<T>(view_opt_elems(*o)),
            Err(e) => !enc_opt_elem_map_ok::<T>(view_opt_elems(*o)) && e == Error::InvalidData
                && *final(s) == *old(s),
        },
{
    match o {
        Some(l) => encode_elem_map::<T>(s, l),
        None => {
            s.serialize_unit();
            Ok(())
        },
    }
}

pub fn parse_opt_elem_map<T: Codec>(d: &mut Deserializer) -> (r: Result<Option<Vec<T>>, Error>)
    requires
        old(d).wf(),
    ensures
        stepped(*old(d), *final(d)),
        match r {
            Ok(v) => dec_opt_elem_map::<T>(old(d).remaining()) == Ok::<_, Error>((
                view_opt_elems(v),
                final(d).remaining(),
            )),
            Err(e) => dec_opt_elem_map::<T>(old(d).remaining()) == Err::<
                (Option<Seq<T::V>>, Seq<u8>),
                Error,
            >(e),
        },
{
    proof {
        reveal(dec_opt_elem_map);
    }
    if d.at_end() {
        return Ok(None);
    }
    let b = d.peek()?;
    if b == 0x40 {
        let _ = d.next()?;
        return Ok(None);
    }
    match parse_elem_map::<T>(d) {
        Ok(v) => Ok(Some(v)),
        Err(e) => Err(e),
    }
}

// ---------------------------------------------------------------------------
// Empty composites and the delivery-state choices
// ---------------------------------------------------------------------------
/// One whole compound value skipped without interpretation.
pub open spec fn dec_skip_compound(c: Option<u8>, s: Seq<u8>) -> Result<Seq<u8>, Error> {
    match dec_maybe_desc(c, s) {
        Err(e) => Err(e),
        Ok(s0) => match dec_compound(s0) {
            Err(e) => Err(e),
            Ok(((size, _count, _ctor), s1)) => if s1.len() < size {
                Err(Error::UnexpectedEnd)
            } else {
                Ok(s1.skip(size as int))
            },
        },
    }
}

/// Skips one compound value, contents ignored.
pub fn skip_compound(d: &mut Deserializer) -> (r: Result<(), Error>)
    requires
        old(d).wf(),
    ensures
        stepped(*old(d), *final(d)),
        match r {
            Ok(()) => dec_skip_compound(old(d).constructor, old(d).remaining()) == Ok::<
                Seq<u8>,
                Error,
            >(final(d).remaining()),
            Err(e) => dec_skip_compound(old(d).constructor, old(d).remaining()) == Err::<
                Seq<u8>,
                Error,
            >(e),
        },
{
    d.skip_redundant_descriptor()?;
    let (size, _count, ctor) = d.composite()?;
    let _ = d.window(size, ctor)?;
    Ok(())
}

/// An empty composite: a descriptor and a field list of count zero.
pub open spec fn enc_empty_composite(code: u64) -> Seq<u8> {
    enc_composite(code, 0, Seq::empty())
}

pub fn encode_empty_composite(s: &mut Serializer, code: u64)
    ensures
        final(s).bytes() == old(s).bytes() + enc_empty_composite(code),
{
    s.serialize_descriptor_code(code);
    let payload: Vec<u8> = Vec::new();
    match s.serialize_list_compound(0, payload.as_slice()) {
        Ok(()) => (),
        Err(_) => {
            proof {
                assert(false);
            }
        },
    }
}

/// Writes a whole code-keyed composite around an already-encoded field
/// payload, leaving the buffer untouched on failure.
pub fn write_composite(s: &mut Serializer, code: u64, count: u32, payload: &Vec<u8>) -> (r: Result<
    (),
    Error,
>)
    ensures
        match r {
            Ok(()) => enc_compound_ok(payload@) && final(s).bytes() == old(s).bytes()
                + enc_composite(code, count, payload@),
            Err(e) => !enc_compound_ok(payload@) && e == Error::InvalidData && *final(s) == *old(
                s,
            ),
        },
{
    if payload.len() > 0xFFFF_FFFBusize {
        return Err(Error::InvalidData);
    }
    s.serialize_descriptor_code(code);
    match s.serialize_list_compound(count, payload.as_slice()) {
        Ok(()) => Ok(()),
        Err(e) => {
            proof {
                assert(false);
            }
            Err(e)
        },
    }
}

/// Writes a whole name-keyed composite around an already-encoded field
/// payload.
pub fn write_composite_named(s: &mut Serializer, name: &[u8], count: u32, payload: &Vec<u8>) -> (r:
    Result<(), Error>)
    requires
        name@.len() < 256,
    ensures
        match r {
            Ok(()) => enc_compound_ok(payload@) && final(s).bytes() == old(s).bytes()
                + crate::ser::enc_composite_named(name@, count, payload@),
            Err(e) => !enc_compound_ok(payload@) && e == Error::InvalidData && *final(s) == *old(
                s,
            ),
        },
{
    if payload.len() > 0xFFFF_FFFBusize {
        return Err(Error::InvalidData);
    }
    match s.serialize_descriptor_name(name) {
        Ok(()) => (),
        Err(_) => {
            proof {
                assert(false);
            }
        },
    }
    match s.serialize_list_compound(count, payload.as_slice()) {
        Ok(()) => Ok(()),
        Err(e) => {
            proof {
                assert(false);
            }
            Err(e)
        },
    }
}

#[derive(Clone, Copy, Debug, PartialEq, Eq, Structural)]
pub struct Received {}

#[derive(Clone, Copy, Debug, PartialEq, Eq, Structural)]
pub struct Accepted {}

#[derive(Clone, Copy, Debug, PartialEq, Eq, Structural)]
pub struct Rejected {}

#[derive(Clone, Copy, Debug, PartialEq, Eq, Structural)]
pub struct Released {}

#[derive(Clone, Copy, Debug, PartialEq, Eq, Structural)]
pub struct Modified {}

#[derive(Clone, Copy, Debug, PartialEq, Eq, Structural)]
pub struct Declared {}

#[derive(Clone, Copy, Debug, PartialEq, Eq, Structural)]
pub struct TransactionalState {}

/// The state of a delivery: a tagged choice over described variants, each an
/// empty composite in this dialect.
#[derive(Clone, Copy, Debug, PartialEq, Eq, Structural)]
pub enum DeliveryState {
    Received(Received),
    Accepted(Accepted),
    Rejected(Rejected),
    Released(Released),
    Modified(Modified),
    Declared(Declared),
    TransactionalState(TransactionalState),
}

pub open spec fn delivery_state_code(v: DeliveryState) -> u64 {
    match v {
        DeliveryState::Received(_) => 0x23,
        DeliveryState::Accepted(_) => 0x24,
        DeliveryState::Rejected(_) => 0x25,
        DeliveryState::Released(_) => 0x26,
        DeliveryState::Modified(_) => 0x27,
        DeliveryState::Declared(_) => 0x33,
        DeliveryState::TransactionalState(_) => 0x34,
    }
}

pub open spec fn enc_delivery_state(v: DeliveryState) -> Seq<u8> {
    enc_empty_composite(delivery_state_code(v))
}

/// Dispatch over the pre-read descriptor: numeric codes first, then names.
/// A described choice never stands under a hoisted array constructor.
pub open spec fn dec_delivery_state(c: Option<u8>, s: Seq<u8>) -> Result<
    (DeliveryState, Seq<u8>),
    Error,
> {
    if c is Some {
        Err(Error::InvalidData)
    } else {
        dec_delivery_state_inner(s)
    }
}

pub open spec fn dec_delivery_state_inner(s: Seq<u8>) -> Result<(DeliveryState, Seq<u8>), Error> {
    match dec_descriptor(None, s) {
        Err(e) => Err(e),
        Ok((d, s1)) => match dec_skip_compound(None, s1) {
            Err(e) => Err(e),
            Ok(r) => if desc_matches(d, 0x23, name_received()) {
                Ok((DeliveryState::Received(Received {}), r))
            } else if desc_matches(d, 0x24, name_accepted()) {
                Ok((DeliveryState::Accepted(Accepted {}), r))
            } else if desc_matches(d, 0x25, name_rejected()) {
                Ok((DeliveryState::Rejected(Rejected {}), r))
            } else if desc_matches(d, 0x26, name_released()) {
                Ok((DeliveryState::Released(Released {}), r))
            } else if desc_matches(d, 0x27, name_modified()) {
                Ok((DeliveryState::Modified(Modified {}), r))
            } else if desc_matches(d, 0x33, name_declared()) {
                Ok((DeliveryState::Declared(Declared {}), r))
            } else if desc_matches(d, 0x34, name_transactional_state()) {
                Ok((DeliveryState::TransactionalState(TransactionalState {}), r))
            } else {
                Err(Error::InvalidData)
            },
        },
    }
}

pub fn encode_delivery_state(s: &mut Serializer, v: &DeliveryState)
    ensures
        final(s).bytes() == old(s).bytes() + enc_delivery_state(*v),
{
    match v {
        DeliveryState::Received(_) => encode_empty_composite(s, 0x23),
        DeliveryState::Accepted(_) => encode_empty_composite(s, 0x24),
        DeliveryState::Rejected(_) => encode_empty_composite(s, 0x25),
        DeliveryState::Released(_) => encode_empty_composite(s, 0x26),
        DeliveryState::Modified(_) => encode_empty_composite(s, 0x27),
        DeliveryState::Declared(_) => encode_empty_composite(s, 0x33),
        DeliveryState::TransactionalState(_) => encode_empty_composite(s, 0x34),
    }
}

pub fn parse_delivery_state(d: &mut Deserializer) -> (r: Result<DeliveryState, Error>)
    requires
        old(d).wf(),
    ensures
        stepped(*old(d), *final(d)),
        match r {
            Ok(v) => dec_delivery_state(old(d).constructor, old(d).remaining()) == Ok::<_, Error>(
                (v, final(d).remaining()),
            ),
            Err(e) => dec_delivery_state(old(d).constructor, old(d).remaining()) == Err::<
                (DeliveryState, Seq<u8>),
                Error,
            >(e),
        },
{
    if d.constructor.is_some() {
        return Err(Error::InvalidData);
    }
    let desc = d.parse_descriptor()?;
    skip_compound(d)?;
    let a = name_received_arr();
    if descriptor_matches(&desc, 0x23, a.as_slice()) {
        return Ok(DeliveryState::Received(Received {}));
    }
    let a = name_accepted_arr();
    if descriptor_matches(&desc, 0x24, a.as_slice()) {
        return Ok(DeliveryState::Accepted(Accepted {}));
    }
    let a = name_rejected_arr();
    if descriptor_matches(&desc, 0x25, a.as_slice()) {
        return Ok(DeliveryState::Rejected(Rejected {}));
    }
    let a = name_released_arr();
    if descriptor_matches(&desc, 0x26, a.as_slice()) {
        return Ok(DeliveryState::Released(Released {}));
    }
    let a = name_modified_arr();
    if descriptor_matches(&desc, 0x27, a.as_slice()) {
        return Ok(DeliveryState::Modified(Modified {}));
    }
    let a = name_declared_arr();
    if descriptor_matches(&desc, 0x33, a.as_slice()) {
        return Ok(DeliveryState::Declared(Declared {}));
    }
    let a = name_transactional_state_arr();
    if descriptor_matches(&desc, 0x34, a.as_slice()) {
        return Ok(DeliveryState::TransactionalState(TransactionalState {}));
    }
    Err(Error::InvalidData)
}

/// The outcome choice: the delivery states minus the transactional one.
#[derive(Clone, Copy, Debug, PartialEq, Eq, Structural)]
pub enum Outcome {
    Received(Received),
    Accepted(Accepted),
    Rejected(Rejected),
    Released(Released),
    Modified(Modified),
    Declared(Declared),
}

pub open spec fn outcome_code(v: Outcome) -> u64 {
    match v {
        Outcome::Received(_) => 0x23,
        Outcome::Accepted(_) => 0x24,
        Outcome::Rejected(_) => 0x25,
        Outcome::Released(_) => 0x26,
        Outcome::Modified(_) => 0x27,
        Outcome::Declared(_) => 0x33,
    }
}

pub open spec fn enc_outcome(v: Outcome) -> Seq<u8> {
    enc_empty_composite(outcome_code(v))
}

pub open spec fn dec_outcome(c: Option<u8>, s: Seq<u8>) -> Result<(Outcome, Seq<u8>), Error> {
    if c is Some {
        Err(Error::InvalidData)
    } else {
        dec_outcome_inner(s)
    }
}

pub open spec fn dec_outcome_inner(s: Seq<u8>) -> Result<(Outcome, Seq<u8>), Error> {
    match dec_descriptor(None, s) {
        Err(e) => Err(e),
        Ok((d, s1)) => match dec_skip_compound(None, s1) {
            Err(e) => Err(e),
            Ok(r) => if desc_matches(d, 0x23, name_received()) {
                Ok((Outcome::Received(Received {}), r))
            } else if desc_matches(d, 0x24, name_accepted()) {
                Ok((Outcome::Accepted(Accepted {}), r))
            } else if desc_matches(d, 0x25, name_rejected()) {
                Ok((Outcome::Rejected(Rejected {}), r))
            } else if desc_matches(d, 0x26, name_released()) {
                Ok((Outcome::Released(Released {}), r))
            } else if desc_matches(d, 0x27, name_modified()) {
                Ok((Outcome::Modified(Modified {}), r))
            } else if desc_matches(d, 0x33, name_declared()) {
                Ok((Outcome::Declared(Declared {}), r))
            } else {
                Err(Error::InvalidData)
            },
        },
    }
}

pub fn encode_outcome(s: &mut Serializer, v: &Outcome)
    ensures
        final(s).bytes() == old(s).bytes() + enc_outcome(*v),
{
    match v {
        Outcome::Received(_) => encode_empty_composite(s, 0x23),
        Outcome::Accepted(_) => encode_empty_composite(s, 0x24),
        Outcome::Rejected(_) => encode_empty_composite(s, 0x25),
        Outcome::Released(_) => encode_empty_composite(s, 0x26),
        Outcome::Modified(_) => encode_empty_composite(s, 0x27),
        Outcome::Declared(_) => encode_empty_composite(s, 0x33),
    }
}

// ---------------------------------------------------------------------------
// Optional enumeration and choice fields
// ---------------------------------------------------------------------------
pub open spec fn dec_opt_snd_settle(c: Option<u8>, s: Seq<u8>) -> Result<
    (Option<SenderSettleMode>, Seq<u8>),
    Error,
> {
    if s.len() == 0 {
        Ok((None, s))
    } else if s[0] == 0x40 {
        Ok((None, s.skip(1)))
    } else if c is Some {
        Err(Error::InvalidData)
    } else {
        match dec_snd_settle(s) {
            Err(e) => Err(e),
            Ok((v, r)) => Ok((Some(v), r)),
        }
    }
}

pub open spec fn dec_opt_rcv_settle(c: Option<u8>, s: Seq<u8>) -> Result<
    (Option<ReceiverSettleMode>, Seq<u8>),
    Error,
> {
    if s.len() == 0 {
        Ok((None, s))
    } else if s[0] == 0x40 {
        Ok((None, s.skip(1)))
    } else if c is Some {
        Err(Error::InvalidData)
    } else {
        match dec_rcv_settle(s) {
            Err(e) => Err(e),
            Ok((v, r)) => Ok((Some(v), r)),
        }
    }
}

pub open spec fn dec_opt_durability(c: Option<u8>, s: Seq<u8>) -> Result<
    (Option<TerminusDurability>, Seq<u8>),
    Error,
> {
    if s.len() == 0 {
        Ok((None, s))
    } else if s[0] == 0x40 {
        Ok((None, s.skip(1)))
    } else if c is Some {
        Err(Error::InvalidData)
    } else {
        match dec_durability(s) {
            Err(e) => Err(e),
            Ok((v, r)) => Ok((Some(v), r)),
        }
    }
}

pub open spec fn dec_opt_expiry(c: Option<u8>, s: Seq<u8>) -> Result<
    (Option<ExpiryPolicy>, Seq<u8>),
    Error,
> {
    if s.len() == 0 {
        Ok((None, s))
    } else if s[0] == 0x40 {
        Ok((None, s.skip(1)))
    } else if c is Some {
        Err(Error::InvalidData)
    } else {
        match dec_expiry(s) {
            Err(e) => Err(e),
            Ok((v, r)) => Ok((Some(v), r)),
        }
    }
}

pub open spec fn dec_opt_distribution(c: Option<u8>, s: Seq<u8>) -> Result<
    (Option<DistributionMode>, Seq<u8>),
    Error,
> {
    if s.len() == 0 {
        Ok((None, s))
    } else if s[0] == 0x40 {
        Ok((None, s.skip(1)))
    } else if c is Some {
        Err(Error::InvalidData)
    } else {
        match dec_distribution(s) {
            Err(e) => Err(e),
            Ok((v, r)) => Ok((Some(v), r)),
        }
    }
}

pub open spec fn dec_opt_delivery_state(c: Option<u8>, s: Seq<u8>) -> Result<
    (Option<DeliveryState>, Seq<u8>),
    Error,
> {
    if s.len() == 0 {
        Ok((None, s))
    } else if s[0] == 0x40 {
        Ok((None, s.skip(1)))
    } else {
        match dec_delivery_state(c, s) {
            Err(e) => Err(e),
            Ok((v, r)) => Ok((Some(v), r)),
        }
    }
}

pub open spec fn dec_opt_outcome(c: Option<u8>, s: Seq<u8>) -> Result<
    (Option<Outcome>, Seq<u8>),
    Error,
> {
    if s.len() == 0 {
        Ok((None, s))
    } else if s[0] == 0x40 {
        Ok((None, s.skip(1)))
    } else {
        match dec_outcome(c, s) {
            Err(e) => Err(e),
            Ok((v, r)) => Ok((Some(v), r)),
        }
    }
}

pub fn parse_opt_snd_settle(d: &mut Deserializer) -> (r: Result<Option<SenderSettleMode>, Error>)
    requires
        old(d).wf(),
    ensures
        stepped(*old(d), *final(d)),
        match r {
            Ok(v) => dec_opt_snd_settle(old(d).constructor, old(d).remaining()) == Ok::<_, Error>((
                v,
                final(d).remaining(),
            )),
            Err(e) => dec_opt_snd_settle(old(d).constructor, old(d).remaining()) == Err::<
                (Option<SenderSettleMode>, Seq<u8>),
                Error,
            >(e),
        },
{
    if d.at_end() {
        return Ok(None);
    }
    let b = d.peek()?;
    if b == 0x40 {
        let _ = d.next()?;
        return Ok(None);
    }
    if d.constructor.is_some() {
        return Err(Error::InvalidData);
    }
    let i = d.parse_variant_index()?;
    if i == 0 {
        Ok(Some(SenderSettleMode::Unsettled))
    } else if i == 1 {
        Ok(Some(SenderSettleMode::Settled))
    } else if i == 2 {
        Ok(Some(SenderSettleMode::Mixed))
    } else {
        Err(Error::InvalidData)
    }
}

pub fn parse_opt_rcv_settle(d: &mut Deserializer) -> (r: Result<Option<ReceiverSettleMode>, Error>)
    requires
        old(d).wf(),
    ensures
        stepped(*old(d), *final(d)),
        match r {
            Ok(v) => dec_opt_rcv_settle(old(d).constructor, old(d).remaining()) == Ok::<_, Error>((
                v,
                final(d).remaining(),
            )),
            Err(e) => dec_opt_rcv_settle(old(d).constructor, old(d).remaining()) == Err::<
                (Option<ReceiverSettleMode>, Seq<u8>),
                Error,
            >(e),
        },
{
    if d.at_end() {
        return Ok(None);
    }
    let b = d.peek()?;
    if b == 0x40 {
        let _ = d.next()?;
        return Ok(None);
    }
    if d.constructor.is_some() {
        return Err(Error::InvalidData);
    }
    let i = d.parse_variant_index()?;
    if i == 0 {
        Ok(Some(ReceiverSettleMode::First))
    } else if i == 1 {
        Ok(Some(ReceiverSettleMode::Second))
    } else {
        Err(Error::InvalidData)
    }
}

pub fn parse_opt_durability(d: &mut Deserializer) -> (r: Result<Option<TerminusDurability>, Error>)
    requires
        old(d).wf(),
    ensures
        stepped(*old(d), *final(d)),
        match r {
            Ok(v) => dec_opt_durability(old(d).constructor, old(d).remaining()) == Ok::<_, Error>((
                v,
                final(d).remaining(),
            )),
            Err(e) => dec_opt_durability(old(d).constructor, old(d).remaining()) == Err::<
                (Option<TerminusDurability>, Seq<u8>),
                Error,
            >(e),
        },
{
    if d.at_end() {
        return Ok(None);
    }
    let b = d.peek()?;
    if b == 0x40 {
        let _ = d.next()?;
        return Ok(None);
    }
    if d.constructor.is_some() {
        return Err(Error::InvalidData);
    }
    let i = d.parse_variant_index()?;
    if i == 0 {
        Ok(Some(TerminusDurability::NoDurability))
    } else if i == 1 {
        Ok(Some(TerminusDurability::Configuration))
    } else if i == 2 {
        Ok(Some(TerminusDurability::UnsettledState))
    } else {
        Err(Error::InvalidData)
    }
}

pub fn parse_opt_expiry(d: &mut Deserializer) -> (r: Result<Option<ExpiryPolicy>, Error>)
    requires
        old(d).wf(),
    ensures
        stepped(*old(d), *final(d)),
        match r {
            Ok(v) => dec_opt_expiry(old(d).constructor, old(d).remaining()) == Ok::<_, Error>((
                v,
                final(d).remaining(),
            )),
            Err(e) => dec_opt_expiry(old(d).constructor, old(d).remaining()) == Err::<
                (Option<ExpiryPolicy>, Seq<u8>),
                Error,
            >(e),
        },
{
    if d.at_end() {
        return Ok(None);
    }
    let b = d.peek()?;
    if b == 0x40 {
        let _ = d.next()?;
        return Ok(None);
    }
    if d.constructor.is_some() {
        return Err(Error::InvalidData);
    }
    let n = d.parse_bytes()?;
    let a = sym_link_detach_arr();
    if bytes_eq(n.as_slice(), a.as_slice()) {
        return Ok(Some(ExpiryPolicy::LinkDetach));
    }
    let a = sym_session_end_arr();
    if bytes_eq(n.as_slice(), a.as_slice()) {
        return Ok(Some(ExpiryPolicy::SessionEnd));
    }
    let a = sym_connection_close_arr();
    if bytes_eq(n.as_slice(), a.as_slice()) {
        return Ok(Some(ExpiryPolicy::ConnectionClose));
    }
    let a = sym_never_arr();
    if bytes_eq(n.as_slice(), a.as_slice()) {
        return Ok(Some(ExpiryPolicy::Never));
    }
    Err(Error::InvalidData)
}

pub fn parse_opt_distribution(d: &mut Deserializer) -> (r: Result<Option<DistributionMode>, Error>)
    requires
        old(d).wf(),
    ensures
        stepped(*old(d), *final(d)),
        match r {
            Ok(v) => dec_opt_distribution(old(d).constructor, old(d).remaining()) == Ok::<
                _,
                Error,
            >((v, final(d).remaining())),
            Err(e) => dec_opt_distribution(old(d).constructor, old(d).remaining()) == Err::<
                (Option<DistributionMode>, Seq<u8>),
                Error,
            >(e),
        },
{
    if d.at_end() {
        return Ok(None);
    }
    let b = d.peek()?;
    if b == 0x40 {
        let _ = d.next()?;
        return Ok(None);
    }
    if d.constructor.is_some() {
        return Err(Error::InvalidData);
    }
    let n = d.parse_bytes()?;
    let a = sym_move_arr();
    if bytes_eq(n.as_slice(), a.as_slice()) {
        return Ok(Some(DistributionMode::Move));
    }
    let a = sym_copy_arr();
    if bytes_eq(n.as_slice(), a.as_slice()) {
        return Ok(Some(DistributionMode::Copy));
    }
    Err(Error::InvalidData)
}

pub fn parse_opt_delivery_state(d: &mut Deserializer) -> (r: Result<Option<DeliveryState>, Error>)
    requires
        old(d).wf(),
    ensures
        stepped(*old(d), *final(d)),
        match r {
            Ok(v) => dec_opt_delivery_state(old(d).constructor, old(d).remaining()) == Ok::<
                _,
                Error,
            >((v, final(d).remaining())),
            Err(e) => dec_opt_delivery_state(old(d).constructor, old(d).remaining()) == Err::<
                (Option<DeliveryState>, Seq<u8>),
                Error,
            >(e),
        },
{
    if d.at_end() {
        return Ok(None);
    }
    let b = d.peek()?;
    if b == 0x40 {
        let _ = d.next()?;
        return Ok(None);
    }
    match parse_delivery_state(d) {
        Ok(v) => Ok(Some(v)),
        Err(e) => Err(e),
    }
}

pub fn parse_opt_outcome(d: &mut Deserializer) -> (r: Result<Option<Outcome>, Error>)
    requires
        old(d).wf(),
    ensures
        stepped(*old(d), *final(d)),
        match r {
            Ok(v) => dec_opt_outcome(old(d).constructor, old(d).remaining()) == Ok::<_, Error>((
                v,
                final(d).remaining(),
            )),
            Err(e) => dec_opt_outcome(old(d).constructor, old(d).remaining()) == Err::<
                (Option<Outcome>, Seq<u8>),
                Error,
            >(e),
        },
{
    if d.at_end() {
        return Ok(None);
    }
    let b = d.peek()?;
    if b == 0x40 {
        let _ = d.next()?;
        return Ok(None);
    }
    match parse_outcome(d) {
        Ok(v) => Ok(Some(v)),
        Err(e) => Err(e),
    }
}

pub fn parse_outcome(d: &mut Deserializer) -> (r: Result<Outcome, Error>)
    requires
        old(d).wf(),
    ensures
        stepped(*old(d), *final(d)),
        match r {
            Ok(v) => dec_outcome(old(d).constructor, old(d).remaining()) == Ok::<_, Error>((
                v,
                final(d).remaining(),
            )),
            Err(e) => dec_outcome(old(d).constructor, old(d).remaining()) == Err::<
                (Outcome, Seq<u8>),
                Error,
            >(e),
        },
{
    if d.constructor.is_some() {
        return Err(Error::InvalidData);
    }
    let desc = d.parse_descriptor()?;
    skip_compound(d)?;
    let a = name_received_arr();
    if descriptor_matches(&desc, 0x23, a.as_slice()) {
        return Ok(Outcome::Received(Received {}));
    }
    let a = name_accepted_arr();
    if descriptor_matches(&desc, 0x24, a.as_slice()) {
        return Ok(Outcome::Accepted(Accepted {}));
    }
    let a = name_rejected_arr();
    if descriptor_matches(&desc, 0x25, a.as_slice()) {
        return Ok(Outcome::Rejected(Rejected {}));
    }
    let a = name_released_arr();
    if descriptor_matches(&desc, 0x26, a.as_slice()) {
        return Ok(Outcome::Released(Released {}));
    }
    let a = name_modified_arr();
    if descriptor_matches(&desc, 0x27, a.as_slice()) {
        return Ok(Outcome::Modified(Modified {}));
    }
    let a = name_declared_arr();
    if descriptor_matches(&desc, 0x33, a.as_slice()) {
        return Ok(Outcome::Declared(Declared {}));
    }
    Err(Error::InvalidData)
}

// ---------------------------------------------------------------------------
// Field helpers shared by the composites
// ---------------------------------------------------------------------------
pub open spec fn view_opt<T: View>(o: Option<T>) -> Option<T::V> {
    match o {
        Some(x) => Some(x@),
        None => None,
    }
}

pub fn encode_role(s: &mut Serializer, v: &Role)
    ensures
        final(s).bytes() == old(s).bytes() + enc_role(*v),
{
    s.serialize_bool(match v {
        Role::Sender => false,
        Role::Receiver => true,
    });
}

pub fn parse_role(d: &mut Deserializer) -> (r: Result<Role, Error>)
    requires
        old(d).wf(),
    ensures
        stepped(*old(d), *final(d)),
        match r {
            Ok(v) => dec_role(old(d).constructor, old(d).remaining()) == Ok::<_, Error>((
                v,
                final(d).remaining(),
            )),
            Err(e) => dec_role(old(d).constructor, old(d).remaining()) == Err::<
                (Role, Seq<u8>),
                Error,
            >(e),
        },
{
    let b = d.parse_bool()?;
    Ok(
        if b {
            Role::Receiver
        } else {
            Role::Sender
        },
    )
}

/// Writes a symbol known to fit the one-byte length form.
pub fn write_sym_short(s: &mut Serializer, v: &[u8])
    requires
        v@.len() < 256,
    ensures
        final(s).bytes() == old(s).bytes() + enc_sym(v@),
{
    match s.serialize_symbol(v) {
        Ok(()) => (),
        Err(_) => {
            proof {
                assert(false);
            }
        },
    }
}

pub open spec fn enc_opt_snd_settle(v: Option<SenderSettleMode>) -> Seq<u8> {
    match v {
        Some(x) => enc_snd_settle(x),
        None => enc_null(),
    }
}

pub fn encode_opt_snd_settle(s: &mut Serializer, v: &Option<SenderSettleMode>)
    ensures
        final(s).bytes() == old(s).bytes() + enc_opt_snd_settle(*v),
{
    match v {
        Some(x) => s.serialize_u8(match x {
            SenderSettleMode::Unsettled => 0,
            SenderSettleMode::Settled => 1,
            SenderSettleMode::Mixed => 2,
        }),
        None => s.serialize_unit(),
    }
}

pub open spec fn enc_opt_rcv_settle(v: Option<ReceiverSettleMode>) -> Seq<u8> {
    match v {
        Some(x) => enc_rcv_settle(x),
        None => enc_null(),
    }
}

pub fn encode_opt_rcv_settle(s: &mut Serializer, v: &Option<ReceiverSettleMode>)
    ensures
        final(s).bytes() == old(s).bytes() + enc_opt_rcv_settle(*v),
{
    match v {
        Some(x) => s.serialize_u8(match x {
            ReceiverSettleMode::First => 0,
            ReceiverSettleMode::Second => 1,
        }),
        None => s.serialize_unit(),
    }
}

pub open spec fn enc_opt_durability(v: Option<TerminusDurability>) -> Seq<u8> {
    match v {
        Some(x) => enc_durability(x),
        None => enc_null(),
    }
}

pub fn encode_opt_durability(s: &mut Serializer, v: &Option<TerminusDurability>)
    ensures
        final(s).bytes() == old(s).bytes() + enc_opt_durability(*v),
{
    match v {
        Some(x) => s.serialize_u32(match x {
            TerminusDurability::NoDurability => 0,
            TerminusDurability::Configuration => 1,
            TerminusDurability::UnsettledState => 2,
        }),
        None => s.serialize_unit(),
    }
}

pub open spec fn enc_opt_expiry(v: Option<ExpiryPolicy>) -> Seq<u8> {
    match v {
        Some(x) => enc_expiry(x),
        None => enc_null(),
    }
}

pub fn encode_opt_expiry(s: &mut Serializer, v: &Option<ExpiryPolicy>)
    ensures
        final(s).bytes() == old(s).bytes() + enc_opt_expiry(*v),
{
    match v {
        Some(ExpiryPolicy::LinkDetach) => {
            let a = sym_link_detach_arr();
            write_sym_short(s, a.as_slice());
        },
        Some(ExpiryPolicy::SessionEnd) => {
            let a = sym_session_end_arr();
            write_sym_short(s, a.as_slice());
        },
        Some(ExpiryPolicy::ConnectionClose) => {
            let a = sym_connection_close_arr();
            write_sym_short(s, a.as_slice());
        },
        Some(ExpiryPolicy::Never) => {
            let a = sym_never_arr();
            write_sym_short(s, a.as_slice());
        },
        None => s.serialize_unit(),
    }
}

pub open spec fn enc_opt_distribution(v: Option<DistributionMode>) -> Seq<u8> {
    match v {
        Some(x) => enc_distribution(x),
        None => enc_null(),
    }
}

pub fn encode_opt_distribution(s: &mut Serializer, v: &Option<DistributionMode>)
    ensures
        final(s).bytes() == old(s).bytes() + enc_opt_distribution(*v),
{
    match v {
        Some(DistributionMode::Move) => {
            let a = sym_move_arr();
            write_sym_short(s, a.as_slice());
        },
        Some(DistributionMode::Copy) => {
            let a = sym_copy_arr();
            write_sym_short(s, a.as_slice());
        },
        None => s.serialize_unit(),
    }
}

pub open spec fn enc_opt_delivery_state(v: Option<DeliveryState>) -> Seq<u8> {
    match v {
        Some(x) => enc_delivery_state(x),
        None => enc_null(),
    }
}

pub fn encode_opt_delivery_state(s: &mut Serializer, v: &Option<DeliveryState>)
    ensures
        final(s).bytes() == old(s).bytes() + enc_opt_delivery_state(*v),
{
    match v {
        Some(x) => encode_delivery_state(s, x),
        None => s.serialize_unit(),
    }
}

pub open spec fn enc_opt_outcome(v: Option<Outcome>) -> Seq<u8> {
    match v {
        Some(x) => enc_outcome(x),
        None => enc_null(),
    }
}

pub fn encode_opt_outcome(s: &mut Serializer, v: &Option<Outcome>)
    ensures
        final(s).bytes() == old(s).bytes() + enc_opt_outcome(*v),
{
    match v {
        Some(x) => encode_outcome(s, x),
        None => s.serialize_unit(),
    }
}

/// The error record carried on Close, Detach and Disposition.
#[derive(Clone, Debug, PartialEq, Eq)]
pub struct ErrorCondition {
    pub condition: Vec<u8>,
    pub description: Vec<u8>,
    pub info: Option<Vec<(Vec<u8>, Vec<u8>)>>,
}

pub struct ErrorConditionV {
    pub condition: Seq<u8>,
    pub description: Seq<u8>,
    pub info: Option<Seq<(Seq<u8>, Seq<u8>)>>,
}

impl View for ErrorCondition {
    type V = ErrorConditionV;

    open spec fn view(&self) -> ErrorConditionV {
        ErrorConditionV {
            condition: self.condition@,
            description: self.description@,
            info: view_opt_elems(self.info),
        }
    }
}

pub open spec fn enc_error_condition_fields(v: ErrorConditionV) -> Seq<u8> {
    enc_str(v.condition) + enc_str(v.description) + (enc_opt_elem_map::<(Vec<u8>, Vec<u8>)>(v.info))
}

pub open spec fn enc_error_condition_fields_ok(v: ErrorConditionV) -> bool {
    &&& enc_var_ok(v.condition)
    &&& enc_var_ok(v.description)
    &&& enc_opt_elem_map_ok::<(Vec<u8>, Vec<u8>)>(v.info)
}

pub open spec fn enc_error_condition(v: ErrorConditionV) -> Seq<u8> {
    enc_composite(0x1d, 3, enc_error_condition_fields(v))
}

pub open spec fn enc_error_condition_ok(v: ErrorConditionV) -> bool {
    enc_error_condition_fields_ok(v) && enc_compound_ok(enc_error_condition_fields(v))
}

#[verifier::opaque]
pub open spec fn dec_error_condition_fields(ctor: Option<u8>, w: Seq<u8>) -> Result<
    (ErrorConditionV, Seq<u8>),
    Error,
> {
    match dec_str(ctor, w) {
        Err(e) => Err(e),
        Ok((condition, w1)) =>
        match dec_str(ctor, w1) {
            Err(e) => Err(e),
            Ok((description, w2)) =>
            match dec_opt_elem_map::<(Vec<u8>, Vec<u8>)>(w2) {
                Err(e) => Err(e),
                Ok((info, w3)) =>
                Ok((ErrorConditionV {
                    condition,
                    description,
                    info,
                }, w3))
                ,
            }
            ,
        }
        ,
    }
}

pub open spec fn dec_error_condition_body(c: Option<u8>, s: Seq<u8>) -> Result<(ErrorConditionV, Seq<u8>), Error> {
    match dec_maybe_desc(c, s) {
        Err(e) => Err(e),
        Ok(s0) => match dec_compound(s0) {
            Err(e) => Err(e),
            Ok(((size, _count, ctor), s1)) => if s1.len() < size {
                Err(Error::UnexpectedEnd)
            } else {
                match dec_error_condition_fields(ctor, s1.take(size as int)) {
                    Err(e) => Err(e),
                    Ok((v, _leftover)) => Ok((v, s1.skip(size as int))),
                }
            },
        },
    }
}

impl ErrorCondition {
    #[verifier::rlimit(100)]
    #[verifier::spinoff_prover]
    pub fn encode(&self, s: &mut Serializer) -> (r: Result<(), Error>)
        ensures
            match r {
                Ok(()) => enc_error_condition_ok(self@) && final(s).bytes() == old(s).bytes()
                    + enc_error_condition(self@),
                Err(e) => !enc_error_condition_ok(self@) && e == Error::InvalidData && *final(s)
                    == *old(s),
            },
    {
        let mut f = Serializer::new();
        f.serialize_str(self.condition.as_slice())?;
        f.serialize_str(self.description.as_slice())?;
        encode_opt_elem_map::<(Vec<u8>, Vec<u8>)>(&mut f, &self.info)?;
        proof {
            assert(f.bytes() =~= enc_error_condition_fields(self@));
        }
        write_composite(s, 0x1d, 3, &f.output)
    }

    pub fn decode_fields(w: &mut Deserializer) -> (r: Result<ErrorCondition, Error>)
        requires
            old(w).wf(),
        ensures
            stepped(*old(w), *final(w)),
            match r {
                Ok(v) => dec_error_condition_fields(old(w).constructor, old(w).remaining()) == Ok::<
                    _,
                    Error,
                >((v@, final(w).remaining())),
                Err(e) => dec_error_condition_fields(old(w).constructor, old(w).remaining()) == Err::<
                    (ErrorConditionV, Seq<u8>),
                    Error,
                >(e),
            },
    {
        proof {
            reveal(dec_error_condition_fields);
        }
        let condition = w.parse_str()?;
        let description = w.parse_str()?;
        let info = parse_opt_elem_map::<(Vec<u8>, Vec<u8>)>(w)?;
        Ok(ErrorCondition {
            condition,
            description,
            info,
        })
    }

    pub fn decode_body(d: &mut Deserializer) -> (r: Result<ErrorCondition, Error>)
        requires
            old(d).wf(),
        ensures
            stepped(*old(d), *final(d)),
            match r {
                Ok(v) => dec_error_condition_body(old(d).constructor, old(d).remaining()) == Ok::<
                    _,
                    Error,
                >((v@, final(d).remaining())),
                Err(e) => dec_error_condition_body(old(d).constructor, old(d).remaining()) == Err::<
                    (ErrorConditionV, Seq<u8>),
                    Error,
                >(e),
            },
    {
        d.skip_redundant_descriptor()?;
        let (size, _count, ctor) = d.composite()?;
        let mut w = d.window(size, ctor)?;
        match ErrorCondition::decode_fields(&mut w) {
            Ok(v) => Ok(v),
            Err(e) => Err(e),
        }
    }
}

/// The source terminus of a link.
#[derive(Clone, Debug, PartialEq, Eq)]
pub struct Source {
    pub address: Option<Vec<u8>>,
    pub durable: Option<TerminusDurability>,
    pub expiry_policy: Option<ExpiryPolicy>,
    pub timeout: Option<u32>,
    pub dynamic: Option<bool>,
    pub dynamic_node_properties: Option<Vec<(Vec<u8>, Vec<u8>)>>,
    pub distribution_mode: Option<DistributionMode>,
    pub filter: Option<Vec<(Vec<u8>, Vec<u8>)>>,
    pub default_outcome: Option<Outcome>,
    pub outcomes: Option<Vec<Vec<u8>>>,
    pub capabilities: Option<Vec<Vec<u8>>>,
}

pub struct SourceV {
    pub address: Option<Seq<u8>>,
    pub durable: Option<TerminusDurability>,
    pub expiry_policy: Option<ExpiryPolicy>,
    pub timeout: Option<u32>,
    pub dynamic: Option<bool>,
    pub dynamic_node_properties: Option<Seq<(Seq<u8>, Seq<u8>)>>,
    pub distribution_mode: Option<DistributionMode>,
    pub filter: Option<Seq<(Seq<u8>, Seq<u8>)>>,
    pub default_outcome: Option<Outcome>,
    pub outcomes: Option<Seq<Seq<u8>>>,
    pub capabilities: Option<Seq<Seq<u8>>>,
}

impl View for Source {
    type V = SourceV;

    open spec fn view(&self) -> SourceV {
        SourceV {
            address: view_opt_bytes(self.address),
            durable: self.durable,
            expiry_policy: self.expiry_policy,
            timeout: self.timeout,
            dynamic: self.dynamic,
            dynamic_node_properties: view_opt_elems(self.dynamic_node_properties),
            distribution_mode: self.distribution_mode,
            filter: view_opt_elems(self.filter),
            default_outcome: self.default_outcome,
            outcomes: view_opt_elems(self.outcomes),
            capabilities: view_opt_elems(self.capabilities),
        }
    }
}

impl Default for Source {
    fn default() -> (r: Source)
        ensures
            r.address is None,
            r.durable is None,
            r.expiry_policy is None,
            r.timeout is None,
            r.dynamic is None,
            r.dynamic_node_properties is None,
            r.distribution_mode is None,
            r.filter is None,
            r.default_outcome is None,
            r.outcomes is None,
            r.capabilities is None,
    {
        Source {
            address: None,
            durable: None,
            expiry_policy: None,
            timeout: None,
            dynamic: None,
            dynamic_node_properties: None,
            distribution_mode: None,
            filter: None,
            default_outcome: None,
            outcomes: None,
            capabilities: None,
        }
    }
}

pub open spec fn enc_source_fields(v: SourceV) -> Seq<u8> {
    enc_opt_str(v.address) + enc_opt_durability(v.durable) + enc_opt_expiry(v.expiry_policy) + enc_opt_u32(v.timeout) + enc_opt_bool(v.dynamic) + enc_opt_elem_map::<(Vec<u8>, Vec<u8>)>(v.dynamic_node_properties) + enc_opt_distribution(v.distribution_mode) + enc_opt_elem_map::<(Vec<u8>, Vec<u8>)>(v.filter) + enc_opt_outcome(v.default_outcome) + enc_opt_elem_list::<Vec<u8>>(v.outcomes) + (enc_opt_elem_list::<Vec<u8>>(v.capabilities))
}

pub open spec fn enc_source_fields_ok(v: SourceV) -> bool {
    &&& enc_opt_str_ok(v.address)
    &&& enc_opt_elem_map_ok::<(Vec<u8>, Vec<u8>)>(v.dynamic_node_properties)
    &&& enc_opt_elem_map_ok::<(Vec<u8>, Vec<u8>)>(v.filter)
    &&& enc_opt_elem_list_ok::<Vec<u8>>(v.outcomes)
    &&& enc_opt_elem_list_ok::<Vec<u8>>(v.capabilities)
}

pub open spec fn enc_source(v: SourceV) -> Seq<u8> {
    enc_composite(0x28, 11, enc_source_fields(v))
}

pub open spec fn enc_source_ok(v: SourceV) -> bool {
    enc_source_fields_ok(v) && enc_compound_ok(enc_source_fields(v))
}

#[verifier::opaque]
pub open spec fn dec_source_fields(ctor: Option<u8>, w: Seq<u8>) -> Result<
    (SourceV, Seq<u8>),
    Error,
> {
    match dec_opt_str(ctor, w) {
        Err(e) => Err(e),
        Ok((address, w1)) =>
        match dec_opt_durability(ctor, w1) {
            Err(e) => Err(e),
            Ok((durable, w2)) =>
            match dec_opt_expiry(ctor, w2) {
                Err(e) => Err(e),
                Ok((expiry_policy, w3)) =>
                match dec_opt_u32(w3) {
                    Err(e) => Err(e),
                    Ok((timeout, w4)) =>
                    match dec_opt_bool(ctor, w4) {
                        Err(e) => Err(e),
                        Ok((dynamic, w5)) =>
                        match dec_opt_elem_map::<(Vec<u8>, Vec<u8>)>(w5) {
                            Err(e) => Err(e),
                            Ok((dynamic_node_properties, w6)) =>
                            match dec_opt_distribution(ctor, w6) {
                                Err(e) => Err(e),
                                Ok((distribution_mode, w7)) =>
                                match dec_opt_elem_map::<(Vec<u8>, Vec<u8>)>(w7) {
                                    Err(e) => Err(e),
                                    Ok((filter, w8)) =>
                                    match dec_opt_outcome(ctor, w8) {
                                        Err(e) => Err(e),
                                        Ok((default_outcome, w9)) =>
                                        match dec_opt_elem_list::<Vec<u8>>(ctor, w9) {
                                            Err(e) => Err(e),
                                            Ok((outcomes, w10)) =>
                                            match dec_opt_elem_list::<Vec<u8>>(ctor, w10) {
                                                Err(e) => Err(e),
                                                Ok((capabilities, w11)) =>
                                                Ok((SourceV {
                                                    address,
                                                    durable,
                                                    expiry_policy,
                                                    timeout,
                                                    dynamic,
                                                    dynamic_node_properties,
                                                    distribution_mode,
                                                    filter,
                                                    default_outcome,
                                                    outcomes,
                                                    capabilities,
                                                }, w11))
                                                ,
                                            }
                                            ,
                                        }
                                        ,
                                    }
                                    ,
                                }
                                ,
                            }
                            ,
                        }
                        ,
                    }
                    ,
                }
                ,
            }
            ,
        }
        ,
    }
}

pub open spec fn dec_source_body(c: Option<u8>, s: Seq<u8>) -> Result<(SourceV, Seq<u8>), Error> {
    match dec_maybe_desc(c, s) {
        Err(e) => Err(e),
        Ok(s0) => match dec_compound(s0) {
            Err(e) => Err(e),
            Ok(((size, _count, ctor), s1)) => if s1.len() < size {
                Err(Error::UnexpectedEnd)
            } else {
                match dec_source_fields(ctor, s1.take(size as int)) {
                    Err(e) => Err(e),
                    Ok((v, _leftover)) => Ok((v, s1.skip(size as int))),
                }
            },
        },
    }
}

impl Source {
    #[verifier::rlimit(100)]
    #[verifier::spinoff_prover]
    pub fn encode(&self, s: &mut Serializer) -> (r: Result<(), Error>)
        ensures
            match r {
                Ok(()) => enc_source_ok(self@) && final(s).bytes() == old(s).bytes()
                    + enc_source(self@),
                Err(e) => !enc_source_ok(self@) && e == Error::InvalidData && *final(s)
                    == *old(s),
            },
    {
        let mut f = Serializer::new();
        f.serialize_opt_str(&self.address)?;
        encode_opt_durability(&mut f, &self.durable);
        encode_opt_expiry(&mut f, &self.expiry_policy);
        f.serialize_opt_u32(&self.timeout);
        f.serialize_opt_bool(&self.dynamic);
        encode_opt_elem_map::<(Vec<u8>, Vec<u8>)>(&mut f, &self.dynamic_node_properties)?;
        encode_opt_distribution(&mut f, &self.distribution_mode);
        encode_opt_elem_map::<(Vec<u8>, Vec<u8>)>(&mut f, &self.filter)?;
        encode_opt_outcome(&mut f, &self.default_outcome);
        encode_opt_elem_list::<Vec<u8>>(&mut f, &self.outcomes)?;
        encode_opt_elem_list::<Vec<u8>>(&mut f, &self.capabilities)?;
        proof {
            assert(f.bytes() =~= enc_source_fields(self@));
        }
        write_composite(s, 0x28, 11, &f.output)
    }

    pub fn decode_fields(w: &mut Deserializer) -> (r: Result<Source, Error>)
        requires
            old(w).wf(),
        ensures
            stepped(*old(w), *final(w)),
            match r {
                Ok(v) => dec_source_fields(old(w).constructor, old(w).remaining()) == Ok::<
                    _,
                    Error,
                >((v@, final(w).remaining())),
                Err(e) => dec_source_fields(old(w).constructor, old(w).remaining()) == Err::<
                    (SourceV, Seq<u8>),
                    Error,
                >(e),
            },
    {
        proof {
            reveal(dec_source_fields);
        }
        let address = w.parse_opt_str()?;
        let durable = parse_opt_durability(w)?;
        let expiry_policy = parse_opt_expiry(w)?;
        let timeout = w.parse_opt_u32()?;
        let dynamic = w.parse_opt_bool()?;
        let dynamic_node_properties = parse_opt_elem_map::<(Vec<u8>, Vec<u8>)>(w)?;
        let distribution_mode = parse_opt_distribution(w)?;
        let filter = parse_opt_elem_map::<(Vec<u8>, Vec<u8>)>(w)?;
        let default_outcome = parse_opt_outcome(w)?;
        let outcomes = parse_opt_elem_list::<Vec<u8>>(w)?;
        let capabilities = parse_opt_elem_list::<Vec<u8>>(w)?;
        Ok(Source {
            address,
            durable,
            expiry_policy,
            timeout,
            dynamic,
            dynamic_node_properties,
            distribution_mode,
            filter,
            default_outcome,
            outcomes,
            capabilities,
        })
    }

    pub fn decode_body(d: &mut Deserializer) -> (r: Result<Source, Error>)
        requires
            old(d).wf(),
        ensures
            stepped(*old(d), *final(d)),
            match r {
                Ok(v) => dec_source_body(old(d).constructor, old(d).remaining()) == Ok::<
                    _,
                    Error,
                >((v@, final(d).remaining())),
                Err(e) => dec_source_body(old(d).constructor, old(d).remaining()) == Err::<
                    (SourceV, Seq<u8>),
                    Error,
                >(e),
            },
    {
        d.skip_redundant_descriptor()?;
        let (size, _count, ctor) = d.composite()?;
        let mut w = d.window(size, ctor)?;
        match Source::decode_fields(&mut w) {
            Ok(v) => Ok(v),
            Err(e) => Err(e),
        }
    }
}

/// The target terminus of a link.
#[derive(Clone, Debug, PartialEq, Eq)]
pub struct Target {
    pub address: Option<Vec<u8>>,
    pub durable: Option<u32>,
    pub expiry_policy: Option<ExpiryPolicy>,
    pub timeout: Option<u32>,
    pub dynamic: Option<bool>,
    pub dynamic_node_properties: Option<Vec<(Vec<u8>, Vec<u8>)>>,
    pub capabilities: Option<Vec<Vec<u8>>>,
}

pub struct TargetV {
    pub address: Option<Seq<u8>>,
    pub durable: Option<u32>,
    pub expiry_policy: Option<ExpiryPolicy>,
    pub timeout: Option<u32>,
    pub dynamic: Option<bool>,
    pub dynamic_node_properties: Option<Seq<(Seq<u8>, Seq<u8>)>>,
    pub capabilities: Option<Seq<Seq<u8>>>,
}

impl View for Target {
    type V = TargetV;

    open spec fn view(&self) -> TargetV {
        TargetV {
            address: view_opt_bytes(self.address),
            durable: self.durable,
            expiry_policy: self.expiry_policy,
            timeout: self.timeout,
            dynamic: self.dynamic,
            dynamic_node_properties: view_opt_elems(self.dynamic_node_properties),
            capabilities: view_opt_elems(self.capabilities),
        }
    }
}

impl Default for Target {
    fn default() -> (r: Target)
        ensures
            r.address is None,
            r.durable is None,
            r.expiry_policy is None,
            r.timeout is None,
            r.dynamic is None,
            r.dynamic_node_properties is None,
            r.capabilities is None,
    {
        Target {
            address: None,
            durable: None,
            expiry_policy: None,
            timeout: None,
            dynamic: None,
            dynamic_node_properties: None,
            capabilities: None,
        }
    }
}

pub open spec fn enc_target_fields(v: TargetV) -> Seq<u8> {
    enc_opt_str(v.address) + enc_opt_u32(v.durable) + enc_opt_expiry(v.expiry_policy) + enc_opt_u32(v.timeout) + enc_opt_bool(v.dynamic) + enc_opt_elem_map::<(Vec<u8>, Vec<u8>)>(v.dynamic_node_properties) + (enc_opt_elem_list::<Vec<u8>>(v.capabilities))
}

pub open spec fn enc_target_fields_ok(v: TargetV) -> bool {
    &&& enc_opt_str_ok(v.address)
    &&& enc_opt_elem_map_ok::<(Vec<u8>, Vec<u8>)>(v.dynamic_node_properties)
    &&& enc_opt_elem_list_ok::<Vec<u8>>(v.capabilities)
}

pub open spec fn enc_target(v: TargetV) -> Seq<u8> {
    enc_composite(0x29, 7, enc_target_fields(v))
}

pub open spec fn enc_target_ok(v: TargetV) -> bool {
    enc_target_fields_ok(v) && enc_compound_ok(enc_target_fields(v))
}

#[verifier::opaque]
pub open spec fn dec_target_fields(ctor: Option<u8>, w: Seq<u8>) -> Result<
    (TargetV, Seq<u8>),
    Error,
> {
    match dec_opt_str(ctor, w) {
        Err(e) => Err(e),
        Ok((address, w1)) =>
        match dec_opt_u32(w1) {
            Err(e) => Err(e),
            Ok((durable, w2)) =>
            match dec_opt_expiry(ctor, w2) {
                Err(e) => Err(e),
                Ok((expiry_policy, w3)) =>
                match dec_opt_u32(w3) {
                    Err(e) => Err(e),
                    Ok((timeout, w4)) =>
                    match dec_opt_bool(ctor, w4) {
                        Err(e) => Err(e),
                        Ok((dynamic, w5)) =>
                        match dec_opt_elem_map::<(Vec<u8>, Vec<u8>)>(w5) {
                            Err(e) => Err(e),
                            Ok((dynamic_node_properties, w6)) =>
                            match dec_opt_elem_list::<Vec<u8>>(ctor, w6) {
                                Err(e) => Err(e),
                                Ok((capabilities, w7)) =>
                                Ok((TargetV {
                                    address,
                                    durable,
                                    expiry_policy,
                                    timeout,
                                    dynamic,
                                    dynamic_node_properties,
                                    capabilities,
                                }, w7))
                                ,
                            }
                            ,
                        }
                        ,
                    }
                    ,
                }
                ,
            }
            ,
        }
        ,
    }
}

pub open spec fn dec_target_body(c: Option<u8>, s: Seq<u8>) -> Result<(TargetV, Seq<u8>), Error> {
    match dec_maybe_desc(c, s) {
        Err(e) => Err(e),
        Ok(s0) => match dec_compound(s0) {
            Err(e) => Err(e),
            Ok(((size, _count, ctor), s1)) => if s1.len() < size {
                Err(Error::UnexpectedEnd)
            } else {
                match dec_target_fields(ctor, s1.take(size as int)) {
                    Err(e) => Err(e),
                    Ok((v, _leftover)) => Ok((v, s1.skip(size as int))),
                }
            },
        },
    }
}

impl Target {
    #[verifier::rlimit(100)]
    #[verifier::spinoff_prover]
    pub fn encode(&self, s: &mut Serializer) -> (r: Result<(), Error>)
        ensures
            match r {
                Ok(()) => enc_target_ok(self@) && final(s).bytes() == old(s).bytes()
                    + enc_target(self@),
                Err(e) => !enc_target_ok(self@) && e == Error::InvalidData && *final(s)
                    == *old(s),
            },
    {
        let mut f = Serializer::new();
        f.serialize_opt_str(&self.address)?;
        f.serialize_opt_u32(&self.durable);
        encode_opt_expiry(&mut f, &self.expiry_policy);
        f.serialize_opt_u32(&self.timeout);
        f.serialize_opt_bool(&self.dynamic);
        encode_opt_elem_map::<(Vec<u8>, Vec<u8>)>(&mut f, &self.dynamic_node_properties)?;
        encode_opt_elem_list::<Vec<u8>>(&mut f, &self.capabilities)?;
        proof {
            assert(f.bytes() =~= enc_target_fields(self@));
        }
        write_composite(s, 0x29, 7, &f.output)
    }

    pub fn decode_fields(w: &mut Deserializer) -> (r: Result<Target, Error>)
        requires
            old(w).wf(),
        ensures
            stepped(*old(w), *final(w)),
            match r {
                Ok(v) => dec_target_fields(old(w).constructor, old(w).remaining()) == Ok::<
                    _,
                    Error,
                >((v@, final(w).remaining())),
                Err(e) => dec_target_fields(old(w).constructor, old(w).remaining()) == Err::<
                    (TargetV, Seq<u8>),
                    Error,
                >(e),
            },
    {
        proof {
            reveal(dec_target_fields);
        }
        let address = w.parse_opt_str()?;
        let durable = w.parse_opt_u32()?;
        let expiry_policy = parse_opt_expiry(w)?;
        let timeout = w.parse_opt_u32()?;
        let dynamic = w.parse_opt_bool()?;
        let dynamic_node_properties = parse_opt_elem_map::<(Vec<u8>, Vec<u8>)>(w)?;
        let capabilities = parse_opt_elem_list::<Vec<u8>>(w)?;
        Ok(Target {
            address,
            durable,
            expiry_policy,
            timeout,
            dynamic,
            dynamic_node_properties,
            capabilities,
        })
    }

    pub fn decode_body(d: &mut Deserializer) -> (r: Result<Target, Error>)
        requires
            old(d).wf(),
        ensures
            stepped(*old(d), *final(d)),
            match r {
                Ok(v) => dec_target_body(old(d).constructor, old(d).remaining()) == Ok::<
                    _,
                    Error,
                >((v@, final(d).remaining())),
                Err(e) => dec_target_body(old(d).constructor, old(d).remaining()) == Err::<
                    (TargetV, Seq<u8>),
                    Error,
                >(e),
            },
    {
        d.skip_redundant_descriptor()?;
        let (size, _count, ctor) = d.composite()?;
        let mut w = d.window(size, ctor)?;
        match Target::decode_fields(&mut w) {
            Ok(v) => Ok(v),
            Err(e) => Err(e),
        }
    }
}

pub open spec fn dec_error_condition(c: Option<u8>, s: Seq<u8>) -> Result<(ErrorConditionV, Seq<u8>), Error> {
    match dec_descriptor(c, s) {
        Err(e) => Err(e),
        Ok((dsc, s1)) => if desc_matches(dsc, 0x1d, name_error()) {
            dec_error_condition_body(c, s1)
        } else {
            Err(Error::InvalidData)
        },
    }
}

pub open spec fn dec_opt_error_condition(c: Option<u8>, s: Seq<u8>) -> Result<
    (Option<ErrorConditionV>, Seq<u8>),
    Error,
> {
    if s.len() == 0 {
        Ok((None, s))
    } else if s[0] == 0x40 {
        Ok((None, s.skip(1)))
    } else {
        match dec_error_condition(c, s) {
            Err(e) => Err(e),
            Ok((v, r)) => Ok((Some(v), r)),
        }
    }
}

pub open spec fn enc_opt_error_condition(v: Option<ErrorConditionV>) -> Seq<u8> {
    match v {
        Some(x) => enc_error_condition(x),
        None => enc_null(),
    }
}

pub open spec fn enc_opt_error_condition_ok(v: Option<ErrorConditionV>) -> bool {
    match v {
        Some(x) => enc_error_condition_ok(x),
        None => true,
    }
}

pub fn encode_opt_error_condition(s: &mut Serializer, v: &Option<ErrorCondition>) -> (r: Result<(), Error>)
    ensures
        match r {
            Ok(()) => enc_opt_error_condition_ok(view_opt(*v)) && final(s).bytes() == old(s).bytes()
                + enc_opt_error_condition(view_opt(*v)),
            Err(e) => !enc_opt_error_condition_ok(view_opt(*v)) && e == Error::InvalidData && *final(s)
                == *old(s),
        },
{
    match v {
        Some(x) => x.encode(s),
        None => {
            s.serialize_unit();
            Ok(())
        },
    }
}

pub fn parse_opt_error_condition(d: &mut Deserializer) -> (r: Result<Option<ErrorCondition>, Error>)
    requires
        old(d).wf(),
    ensures
        stepped(*old(d), *final(d)),
        match r {
            Ok(v) => dec_opt_error_condition(old(d).constructor, old(d).remaining()) == Ok::<_, Error>((
                view_opt(v),
                final(d).remaining(),
            )),
            Err(e) => dec_opt_error_condition(old(d).constructor, old(d).remaining()) == Err::<
                (Option<ErrorConditionV>, Seq<u8>),
                Error,
            >(e),
        },
{
    if d.at_end() {
        return Ok(None);
    }
    let b = d.peek()?;
    if b == 0x40 {
        let _ = d.next()?;
        return Ok(None);
    }
    let dsc = d.parse_descriptor()?;
    let a = name_error_arr();
    if !descriptor_matches(&dsc, 0x1d, a.as_slice()) {
        return Err(Error::InvalidData);
    }
    let v = ErrorCondition::decode_body(d)?;
    Ok(Some(v))
}

pub open spec fn dec_source(c: Option<u8>, s: Seq<u8>) -> Result<(SourceV, Seq<u8>), Error> {
    match dec_descriptor(c, s) {
        Err(e) => Err(e),
        Ok((dsc, s1)) => if desc_matches(dsc, 0x28, name_source()) {
            dec_source_body(c, s1)
        } else {
            Err(Error::InvalidData)
        },
    }
}

pub open spec fn dec_opt_source(c: Option<u8>, s: Seq<u8>) -> Result<
    (Option<SourceV>, Seq<u8>),
    Error,
> {
    if s.len() == 0 {
        Ok((None, s))
    } else if s[0] == 0x40 {
        Ok((None, s.skip(1)))
    } else {
        match dec_source(c, s) {
            Err(e) => Err(e),
            Ok((v, r)) => Ok((Some(v), r)),
        }
    }
}

pub open spec fn enc_opt_source(v: Option<SourceV>) -> Seq<u8> {
    match v {
        Some(x) => enc_source(x),
        None => enc_null(),
    }
}

pub open spec fn enc_opt_source_ok(v: Option<SourceV>) -> bool {
    match v {
        Some(x) => enc_source_ok(x),
        None => true,
    }
}

pub fn encode_opt_source(s: &mut Serializer, v: &Option<Source>) -> (r: Result<(), Error>)
    ensures
        match r {
            Ok(()) => enc_opt_source_ok(view_opt(*v)) && final(s).bytes() == old(s).bytes()
                + enc_opt_source(view_opt(*v)),
            Err(e) => !enc_opt_source_ok(view_opt(*v)) && e == Error::InvalidData && *final(s)
                == *old(s),
        },
{
    match v {
        Some(x) => x.encode(s),
        None => {
            s.serialize_unit();
            Ok(())
        },
    }
}

pub fn parse_opt_source(d: &mut Deserializer) -> (r: Result<Option<Source>, Error>)
    requires
        old(d).wf(),
    ensures
        stepped(*old(d), *final(d)),
        match r {
            Ok(v) => dec_opt_source(old(d).constructor, old(d).remaining()) == Ok::<_, Error>((
                view_opt(v),
                final(d).remaining(),
            )),
            Err(e) => dec_opt_source(old(d).constructor, old(d).remaining()) == Err::<
                (Option<SourceV>, Seq<u8>),
                Error,
            >(e),
        },
{
    if d.at_end() {
        return Ok(None);
    }
    let b = d.peek()?;
    if b == 0x40 {
        let _ = d.next()?;
        return Ok(None);
    }
    let dsc = d.parse_descriptor()?;
    let a = name_source_arr();
    if !descriptor_matches(&dsc, 0x28, a.as_slice()) {
        return Err(Error::InvalidData);
    }
    let v = Source::decode_body(d)?;
    Ok(Some(v))
}

pub open spec fn dec_target(c: Option<u8>, s: Seq<u8>) -> Result<(TargetV, Seq<u8>), Error> {
    match dec_descriptor(c, s) {
        Err(e) => Err(e),
        Ok((dsc, s1)) => if desc_matches(dsc, 0x29, name_target()) {
            dec_target_body(c, s1)
        } else {
            Err(Error::InvalidData)
        },
    }
}

pub open spec fn dec_opt_target(c: Option<u8>, s: Seq<u8>) -> Result<
    (Option<TargetV>, Seq<u8>),
    Error,
> {
    if s.len() == 0 {
        Ok((None, s))
    } else if s[0] == 0x40 {
        Ok((None, s.skip(1)))
    } else {
        match dec_target(c, s) {
            Err(e) => Err(e),
            Ok((v, r)) => Ok((Some(v), r)),
        }
    }
}

pub open spec fn enc_opt_target(v: Option<TargetV>) -> Seq<u8> {
    match v {
        Some(x) => enc_target(x),
        None => enc_null(),
    }
}

pub open spec fn enc_opt_target_ok(v: Option<TargetV>) -> bool {
    match v {
        Some(x) => enc_target_ok(x),
        None => true,
    }
}

pub fn encode_opt_target(s: &mut Serializer, v: &Option<Target>) -> (r: Result<(), Error>)
    ensures
        match r {
            Ok(()) => enc_opt_target_ok(view_opt(*v)) && final(s).bytes() == old(s).bytes()
                + enc_opt_target(view_opt(*v)),
            Err(e) => !enc_opt_target_ok(view_opt(*v)) && e == Error::InvalidData && *final(s)
                == *old(s),
        },
{
    match v {
        Some(x) => x.encode(s),
        None => {
            s.serialize_unit();
            Ok(())
        },
    }
}

pub fn parse_opt_target(d: &mut Deserializer) -> (r: Result<Option<Target>, Error>)
    requires
        old(d).wf(),
    ensures
        stepped(*old(d), *final(d)),
        match r {
            Ok(v) => dec_opt_target(old(d).constructor, old(d).remaining()) == Ok::<_, Error>((
                view_opt(v),
                final(d).remaining(),
            )),
            Err(e) => dec_opt_target(old(d).constructor, old(d).remaining()) == Err::<
                (Option<TargetV>, Seq<u8>),
                Error,
            >(e),
        },
{
    if d.at_end() {
        return Ok(None);
    }
    let b = d.peek()?;
    if b == 0x40 {
        let _ = d.next()?;
        return Ok(None);
    }
    let dsc = d.parse_descriptor()?;
    let a = name_target_arr();
    if !descriptor_matches(&dsc, 0x29, a.as_slice()) {
        return Err(Error::InvalidData);
    }
    let v = Target::decode_body(d)?;
    Ok(Some(v))
}

/// The connection Open performative.
#[derive(Clone, Debug, PartialEq, Eq)]
pub struct Open {
    pub container_id: Vec<u8>,
    pub hostname: Option<Vec<u8>>,
    pub max_frame_size: Option<u32>,
    pub channel_max: Option<u16>,
    pub idle_timeout: Option<u32>,
    pub outgoing_locales: Option<Vec<Vec<u8>>>,
    pub incoming_locales: Option<Vec<Vec<u8>>>,
    pub offered_capabilities: Option<Vec<Vec<u8>>>,
    pub properties: Option<Vec<(Vec<u8>, Vec<u8>)>>,
}

pub struct OpenV {
    pub container_id: Seq<u8>,
    pub hostname: Option<Seq<u8>>,
    pub max_frame_size: Option<u32>,
    pub channel_max: Option<u16>,
    pub idle_timeout: Option<u32>,
    pub outgoing_locales: Option<Seq<Seq<u8>>>,
    pub incoming_locales: Option<Seq<Seq<u8>>>,
    pub offered_capabilities: Option<Seq<Seq<u8>>>,
    pub properties: Option<Seq<(Seq<u8>, Seq<u8>)>>,
}

impl View for Open {
    type V = OpenV;

    open spec fn view(&self) -> OpenV {
        OpenV {
            container_id: self.container_id@,
            hostname: view_opt_bytes(self.hostname),
            max_frame_size: self.max_frame_size,
            channel_max: self.channel_max,
            idle_timeout: self.idle_timeout,
            outgoing_locales: view_opt_elems(self.outgoing_locales),
            incoming_locales: view_opt_elems(self.incoming_locales),
            offered_capabilities: view_opt_elems(self.offered_capabilities),
            properties: view_opt_elems(self.properties),
        }
    }
}

impl Default for Open {
    fn default() -> (r: Open)
        ensures
            r.container_id@ == Seq::<u8>::empty(),
            r.hostname is None,
            r.max_frame_size is None,
            r.channel_max is None,
            r.idle_timeout is None,
            r.outgoing_locales is None,
            r.incoming_locales is None,
            r.offered_capabilities is None,
            r.properties is None,
    {
        Open {
            container_id: Vec::new(),
            hostname: None,
            max_frame_size: None,
            channel_max: None,
            idle_timeout: None,
            outgoing_locales: None,
            incoming_locales: None,
            offered_capabilities: None,
            properties: None,
        }
    }
}

pub open spec fn enc_open_fields(v: OpenV) -> Seq<u8> {
    enc_str(v.container_id) + enc_opt_str(v.hostname) + enc_opt_u32(v.max_frame_size) + enc_opt_u16(v.channel_max) + enc_opt_u32(v.idle_timeout) + enc_opt_elem_list::<Vec<u8>>(v.outgoing_locales) + enc_opt_elem_list::<Vec<u8>>(v.incoming_locales) + enc_opt_elem_list::<Vec<u8>>(v.offered_capabilities) + (enc_opt_elem_map::<(Vec<u8>, Vec<u8>)>(v.properties))
}

pub open spec fn enc_open_fields_ok(v: OpenV) -> bool {
    &&& enc_var_ok(v.container_id)
    &&& enc_opt_str_ok(v.hostname)
    &&& enc_opt_elem_list_ok::<Vec<u8>>(v.outgoing_locales)
    &&& enc_opt_elem_list_ok::<Vec<u8>>(v.incoming_locales)
    &&& enc_opt_elem_list_ok::<Vec<u8>>(v.offered_capabilities)
    &&& enc_opt_elem_map_ok::<(Vec<u8>, Vec<u8>)>(v.properties)
}

pub open spec fn enc_open(v: OpenV) -> Seq<u8> {
    enc_composite(0x10, 9, enc_open_fields(v))
}

pub open spec fn enc_open_ok(v: OpenV) -> bool {
    enc_open_fields_ok(v) && enc_compound_ok(enc_open_fields(v))
}

#[verifier::opaque]
pub open spec fn dec_open_fields(ctor: Option<u8>, w: Seq<u8>) -> Result<
    (OpenV, Seq<u8>),
    Error,
> {
    match dec_str(ctor, w) {
        Err(e) => Err(e),
        Ok((container_id, w1)) =>
        match dec_opt_str(ctor, w1) {
            Err(e) => Err(e),
            Ok((hostname, w2)) =>
            match dec_opt_u32(w2) {
                Err(e) => Err(e),
                Ok((max_frame_size, w3)) =>
                match dec_opt_u16(w3) {
                    Err(e) => Err(e),
                    Ok((channel_max, w4)) =>
                    match dec_opt_u32(w4) {
                        Err(e) => Err(e),
                        Ok((idle_timeout, w5)) =>
                        match dec_opt_elem_list::<Vec<u8>>(ctor, w5) {
                            Err(e) => Err(e),
                            Ok((outgoing_locales, w6)) =>
                            match dec_opt_elem_list::<Vec<u8>>(ctor, w6) {
                                Err(e) => Err(e),
                                Ok((incoming_locales, w7)) =>
                                match dec_opt_elem_list::<Vec<u8>>(ctor, w7) {
                                    Err(e) => Err(e),
                                    Ok((offered_capabilities, w8)) =>
                                    match dec_opt_elem_map::<(Vec<u8>, Vec<u8>)>(w8) {
                                        Err(e) => Err(e),
                                        Ok((properties, w9)) =>
                                        Ok((OpenV {
                                            container_id,
                                            hostname,
                                            max_frame_size,
                                            channel_max,
                                            idle_timeout,
                                            outgoing_locales,
                                            incoming_locales,
                                            offered_capabilities,
                                            properties,
                                        }, w9))
                                        ,
                                    }
                                    ,
                                }
                                ,
                            }
                            ,
                        }
                        ,
                    }
                    ,
                }
                ,
            }
            ,
        }
        ,
    }
}

pub open spec fn dec_open_body(c: Option<u8>, s: Seq<u8>) -> Result<(OpenV, Seq<u8>), Error> {
    match dec_maybe_desc(c, s) {
        Err(e) => Err(e),
        Ok(s0) => match dec_compound(s0) {
            Err(e) => Err(e),
            Ok(((size, _count, ctor), s1)) => if s1.len() < size {
                Err(Error::UnexpectedEnd)
            } else {
                match dec_open_fields(ctor, s1.take(size as int)) {
                    Err(e) => Err(e),
                    Ok((v, _leftover)) => Ok((v, s1.skip(size as int))),
                }
            },
        },
    }
}

impl Open {
    #[verifier::rlimit(100)]
    #[verifier::spinoff_prover]
    pub fn encode(&self, s: &mut Serializer) -> (r: Result<(), Error>)
        ensures
            match r {
                Ok(()) => enc_open_ok(self@) && final(s).bytes() == old(s).bytes()
                    + enc_open(self@),
                Err(e) => !enc_open_ok(self@) && e == Error::InvalidData && *final(s)
                    == *old(s),
            },
    {
        let mut f = Serializer::new();
        f.serialize_str(self.container_id.as_slice())?;
        f.serialize_opt_str(&self.hostname)?;
        f.serialize_opt_u32(&self.max_frame_size);
        f.serialize_opt_u16(&self.channel_max);
        f.serialize_opt_u32(&self.idle_timeout);
        encode_opt_elem_list::<Vec<u8>>(&mut f, &self.outgoing_locales)?;
        encode_opt_elem_list::<Vec<u8>>(&mut f, &self.incoming_locales)?;
        encode_opt_elem_list::<Vec<u8>>(&mut f, &self.offered_capabilities)?;
        encode_opt_elem_map::<(Vec<u8>, Vec<u8>)>(&mut f, &self.properties)?;
        proof {
            assert(f.bytes() =~= enc_open_fields(self@));
        }
        write_composite(s, 0x10, 9, &f.output)
    }

    pub fn decode_fields(w: &mut Deserializer) -> (r: Result<Open, Error>)
        requires
            old(w).wf(),
        ensures
            stepped(*old(w), *final(w)),
            match r {
                Ok(v) => dec_open_fields(old(w).constructor, old(w).remaining()) == Ok::<
                    _,
                    Error,
                >((v@, final(w).remaining())),
                Err(e) => dec_open_fields(old(w).constructor, old(w).remaining()) == Err::<
                    (OpenV, Seq<u8>),
                    Error,
                >(e),
            },
    {
        proof {
            reveal(dec_open_fields);
        }
        let container_id = w.parse_str()?;
        let hostname = w.parse_opt_str()?;
        let max_frame_size = w.parse_opt_u32()?;
        let channel_max = w.parse_opt_u16()?;
        let idle_timeout = w.parse_opt_u32()?;
        let outgoing_locales = parse_opt_elem_list::<Vec<u8>>(w)?;
        let incoming_locales = parse_opt_elem_list::<Vec<u8>>(w)?;
        let offered_capabilities = parse_opt_elem_list::<Vec<u8>>(w)?;
        let properties = parse_opt_elem_map::<(Vec<u8>, Vec<u8>)>(w)?;
        Ok(Open {
            container_id,
            hostname,
            max_frame_size,
            channel_max,
            idle_timeout,
            outgoing_locales,
            incoming_locales,
            offered_capabilities,
            properties,
        })
    }

    pub fn decode_body(d: &mut Deserializer) -> (r: Result<Open, Error>)
        requires
            old(d).wf(),
        ensures
            stepped(*old(d), *final(d)),
            match r {
                Ok(v) => dec_open_body(old(d).constructor, old(d).remaining()) == Ok::<
                    _,
                    Error,
                >((v@, final(d).remaining())),
                Err(e) => dec_open_body(old(d).constructor, old(d).remaining()) == Err::<
                    (OpenV, Seq<u8>),
                    Error,
                >(e),
            },
    {
        d.skip_redundant_descriptor()?;
        let (size, _count, ctor) = d.composite()?;
        let mut w = d.window(size, ctor)?;
        match Open::decode_fields(&mut w) {
            Ok(v) => Ok(v),
            Err(e) => Err(e),
        }
    }
}

/// The session Begin performative.
#[derive(Clone, Debug, PartialEq, Eq)]
pub struct Begin {
    pub remote_channel: Option<u16>,
    pub next_outgoing_id: u32,
    pub incoming_window: u32,
    pub outgoing_window: u32,
    pub handle_max: Option<u32>,
    pub offered_capabilities: Option<Vec<Vec<u8>>>,
    pub desired_capabilities: Option<Vec<Vec<u8>>>,
    pub properties: Option<Vec<(Vec<u8>, Vec<u8>)>>,
}

pub struct BeginV {
    pub remote_channel: Option<u16>,
    pub next_outgoing_id: u32,
    pub incoming_window: u32,
    pub outgoing_window: u32,
    pub handle_max: Option<u32>,
    pub offered_capabilities: Option<Seq<Seq<u8>>>,
    pub desired_capabilities: Option<Seq<Seq<u8>>>,
    pub properties: Option<Seq<(Seq<u8>, Seq<u8>)>>,
}

impl View for Begin {
    type V = BeginV;

    open spec fn view(&self) -> BeginV {
        BeginV {
            remote_channel: self.remote_channel,
            next_outgoing_id: self.next_outgoing_id,
            incoming_window: self.incoming_window,
            outgoing_window: self.outgoing_window,
            handle_max: self.handle_max,
            offered_capabilities: view_opt_elems(self.offered_capabilities),
            desired_capabilities: view_opt_elems(self.desired_capabilities),
            properties: view_opt_elems(self.properties),
        }
    }
}

impl Default for Begin {
    fn default() -> (r: Begin)
        ensures
            r.remote_channel is None,
            r.next_outgoing_id == 0u32,
            r.incoming_window == 0u32,
            r.outgoing_window == 0u32,
            r.handle_max is None,
            r.offered_capabilities is None,
            r.desired_capabilities is None,
            r.properties is None,
    {
        Begin {
            remote_channel: None,
            next_outgoing_id: 0,
            incoming_window: 0,
            outgoing_window: 0,
            handle_max: None,
            offered_capabilities: None,
            desired_capabilities: None,
            properties: None,
        }
    }
}

pub open spec fn enc_begin_fields(v: BeginV) -> Seq<u8> {
    enc_opt_u16(v.remote_channel) + enc_u32(v.next_outgoing_id) + enc_u32(v.incoming_window) + enc_u32(v.outgoing_window) + enc_opt_u32(v.handle_max) + enc_opt_elem_list::<Vec<u8>>(v.offered_capabilities) + enc_opt_elem_list::<Vec<u8>>(v.desired_capabilities) + (enc_opt_elem_map::<(Vec<u8>, Vec<u8>)>(v.properties))
}

pub open spec fn enc_begin_fields_ok(v: BeginV) -> bool {
    &&& enc_opt_elem_list_ok::<Vec<u8>>(v.offered_capabilities)
    &&& enc_opt_elem_list_ok::<Vec<u8>>(v.desired_capabilities)
    &&& enc_opt_elem_map_ok::<(Vec<u8>, Vec<u8>)>(v.properties)
}

pub open spec fn enc_begin(v: BeginV) -> Seq<u8> {
    enc_composite(0x11, 8, enc_begin_fields(v))
}

pub open spec fn enc_begin_ok(v: BeginV) -> bool {
    enc_begin_fields_ok(v) && enc_compound_ok(enc_begin_fields(v))
}

#[verifier::opaque]
pub open spec fn dec_begin_fields(ctor: Option<u8>, w: Seq<u8>) -> Result<
    (BeginV, Seq<u8>),
    Error,
> {
    match dec_opt_u16(w) {
        Err(e) => Err(e),
        Ok((remote_channel, w1)) =>
        match dec_u32(w1) {
            Err(e) => Err(e),
            Ok((next_outgoing_id, w2)) =>
            match dec_u32(w2) {
                Err(e) => Err(e),
                Ok((incoming_window, w3)) =>
                match dec_u32(w3) {
                    Err(e) => Err(e),
                    Ok((outgoing_window, w4)) =>
                    match dec_opt_u32(w4) {
                        Err(e) => Err(e),
                        Ok((handle_max, w5)) =>
                        match dec_opt_elem_list::<Vec<u8>>(ctor, w5) {
                            Err(e) => Err(e),
                            Ok((offered_capabilities, w6)) =>
                            match dec_opt_elem_list::<Vec<u8>>(ctor, w6) {
                                Err(e) => Err(e),
                                Ok((desired_capabilities, w7)) =>
                                match dec_opt_elem_map::<(Vec<u8>, Vec<u8>)>(w7) {
                                    Err(e) => Err(e),
                                    Ok((properties, w8)) =>
                                    Ok((BeginV {
                                        remote_channel,
                                        next_outgoing_id,
                                        incoming_window,
                                        outgoing_window,
                                        handle_max,
                                        offered_capabilities,
                                        desired_capabilities,
                                        properties,
                                    }, w8))
                                    ,
                                }
                                ,
                            }
                            ,
                        }
                        ,
                    }
                    ,
                }
                ,
            }
            ,
        }
        ,
    }
}

pub open spec fn dec_begin_body(c: Option<u8>, s: Seq<u8>) -> Result<(BeginV, Seq<u8>), Error> {
    match dec_maybe_desc(c, s) {
        Err(e) => Err(e),
        Ok(s0) => match dec_compound(s0) {
            Err(e) => Err(e),
            Ok(((size, _count, ctor), s1)) => if s1.len() < size {
                Err(Error::UnexpectedEnd)
            } else {
                match dec_begin_fields(ctor, s1.take(size as int)) {
                    Err(e) => Err(e),
                    Ok((v, _leftover)) => Ok((v, s1.skip(size as int))),
                }
            },
        },
    }
}

impl Begin {
    #[verifier::rlimit(100)]
    #[verifier::spinoff_prover]
    pub fn encode(&self, s: &mut Serializer) -> (r: Result<(), Error>)
        ensures
            match r {
                Ok(()) => enc_begin_ok(self@) && final(s).bytes() == old(s).bytes()
                    + enc_begin(self@),
                Err(e) => !enc_begin_ok(self@) && e == Error::InvalidData && *final(s)
                    == *old(s),
            },
    {
        let mut f = Serializer::new();
        f.serialize_opt_u16(&self.remote_channel);
        f.serialize_u32(self.next_outgoing_id);
        f.serialize_u32(self.incoming_window);
        f.serialize_u32(self.outgoing_window);
        f.serialize_opt_u32(&self.handle_max);
        encode_opt_elem_list::<Vec<u8>>(&mut f, &self.offered_capabilities)?;
        encode_opt_elem_list::<Vec<u8>>(&mut f, &self.desired_capabilities)?;
        encode_opt_elem_map::<(Vec<u8>, Vec<u8>)>(&mut f, &self.properties)?;
        proof {
            assert(f.bytes() =~= enc_begin_fields(self@));
        }
        write_composite(s, 0x11, 8, &f.output)
    }

    pub fn decode_fields(w: &mut Deserializer) -> (r: Result<Begin, Error>)
        requires
            old(w).wf(),
        ensures
            stepped(*old(w), *final(w)),
            match r {
                Ok(v) => dec_begin_fields(old(w).constructor, old(w).remaining()) == Ok::<
                    _,
                    Error,
                >((v@, final(w).remaining())),
                Err(e) => dec_begin_fields(old(w).constructor, old(w).remaining()) == Err::<
                    (BeginV, Seq<u8>),
                    Error,
                >(e),
            },
    {
        proof {
            reveal(dec_begin_fields);
        }
        let remote_channel = w.parse_opt_u16()?;
        let next_outgoing_id = w.parse_u32()?;
        let incoming_window = w.parse_u32()?;
        let outgoing_window = w.parse_u32()?;
        let handle_max = w.parse_opt_u32()?;
        let offered_capabilities = parse_opt_elem_list::<Vec<u8>>(w)?;
        let desired_capabilities = parse_opt_elem_list::<Vec<u8>>(w)?;
        let properties = parse_opt_elem_map::<(Vec<u8>, Vec<u8>)>(w)?;
        Ok(Begin {
            remote_channel,
            next_outgoing_id,
            incoming_window,
            outgoing_window,
            handle_max,
            offered_capabilities,
            desired_capabilities,
            properties,
        })
    }

    pub fn decode_body(d: &mut Deserializer) -> (r: Result<Begin, Error>)
        requires
            old(d).wf(),
        ensures
            stepped(*old(d), *final(d)),
            match r {
                Ok(v) => dec_begin_body(old(d).constructor, old(d).remaining()) == Ok::<
                    _,
                    Error,
                >((v@, final(d).remaining())),
                Err(e) => dec_begin_body(old(d).constructor, old(d).remaining()) == Err::<
                    (BeginV, Seq<u8>),
                    Error,
                >(e),
            },
    {
        d.skip_redundant_descriptor()?;
        let (size, _count, ctor) = d.composite()?;
        let mut w = d.window(size, ctor)?;
        match Begin::decode_fields(&mut w) {
            Ok(v) => Ok(v),
            Err(e) => Err(e),
        }
    }
}

/// The link Attach performative.
#[derive(Clone, Debug, PartialEq, Eq)]
pub struct Attach {
    pub name: Vec<u8>,
    pub handle: u32,
    pub role: Role,
    pub snd_settle_mode: Option<SenderSettleMode>,
    pub rcv_settle_mode: Option<ReceiverSettleMode>,
    pub source: Option<Source>,
    pub target: Option<Target>,
    pub unsettled: Option<Vec<(Vec<u8>, Vec<u8>)>>,
    pub incomplete_unsettled: Option<bool>,
    pub initial_delivery_count: Option<u32>,
    pub max_message_size: Option<u64>,
    pub offered_capabilities: Option<Vec<Vec<u8>>>,
    pub desired_capabilities: Option<Vec<Vec<u8>>>,
    pub properties: Option<Vec<(Vec<u8>, Vec<u8>)>>,
}

pub struct AttachV {
    pub name: Seq<u8>,
    pub handle: u32,
    pub role: Role,
    pub snd_settle_mode: Option<SenderSettleMode>,
    pub rcv_settle_mode: Option<ReceiverSettleMode>,
    pub source: Option<SourceV>,
    pub target: Option<TargetV>,
    pub unsettled: Option<Seq<(Seq<u8>, Seq<u8>)>>,
    pub incomplete_unsettled: Option<bool>,
    pub initial_delivery_count: Option<u32>,
    pub max_message_size: Option<u64>,
    pub offered_capabilities: Option<Seq<Seq<u8>>>,
    pub desired_capabilities: Option<Seq<Seq<u8>>>,
    pub properties: Option<Seq<(Seq<u8>, Seq<u8>)>>,
}

impl View for Attach {
    type V = AttachV;

    open spec fn view(&self) -> AttachV {
        AttachV {
            name: self.name@,
            handle: self.handle,
            role: self.role,
            snd_settle_mode: self.snd_settle_mode,
            rcv_settle_mode: self.rcv_settle_mode,
            source: view_opt(self.source),
            target: view_opt(self.target),
            unsettled: view_opt_elems(self.unsettled),
            incomplete_unsettled: self.incomplete_unsettled,
            initial_delivery_count: self.initial_delivery_count,
            max_message_size: self.max_message_size,
            offered_capabilities: view_opt_elems(self.offered_capabilities),
            desired_capabilities: view_opt_elems(self.desired_capabilities),
            properties: view_opt_elems(self.properties),
        }
    }
}

pub open spec fn enc_attach_fields(v: AttachV) -> Seq<u8> {
    enc_str(v.name) + enc_u32(v.handle) + enc_role(v.role) + enc_opt_snd_settle(v.snd_settle_mode) + enc_opt_rcv_settle(v.rcv_settle_mode) + enc_opt_source(v.source) + enc_opt_target(v.target) + enc_opt_elem_map::<(Vec<u8>, Vec<u8>)>(v.unsettled) + enc_opt_bool(v.incomplete_unsettled) + enc_opt_u32(v.initial_delivery_count) + enc_opt_u64(v.max_message_size) + enc_opt_elem_list::<Vec<u8>>(v.offered_capabilities) + enc_opt_elem_list::<Vec<u8>>(v.desired_capabilities) + (enc_opt_elem_map::<(Vec<u8>, Vec<u8>)>(v.properties))
}

pub open spec fn enc_attach_fields_ok(v: AttachV) -> bool {
    &&& enc_var_ok(v.name)
    &&& enc_opt_source_ok(v.source)
    &&& enc_opt_target_ok(v.target)
    &&& enc_opt_elem_map_ok::<(Vec<u8>, Vec<u8>)>(v.unsettled)
    &&& enc_opt_elem_list_ok::<Vec<u8>>(v.offered_capabilities)
    &&& enc_opt_elem_list_ok::<Vec<u8>>(v.desired_capabilities)
    &&& enc_opt_elem_map_ok::<(Vec<u8>, Vec<u8>)>(v.properties)
}

pub open spec fn enc_attach(v: AttachV) -> Seq<u8> {
    enc_composite(0x12, 14, enc_attach_fields(v))
}

pub open spec fn enc_attach_ok(v: AttachV) -> bool {
    enc_attach_fields_ok(v) && enc_compound_ok(enc_attach_fields(v))
}

#[verifier::opaque]
pub open spec fn dec_attach_fields(ctor: Option<u8>, w: Seq<u8>) -> Result<
    (AttachV, Seq<u8>),
    Error,
> {
    match dec_str(ctor, w) {
        Err(e) => Err(e),
        Ok((name, w1)) =>
        match dec_u32(w1) {
            Err(e) => Err(e),
            Ok((handle, w2)) =>
            match dec_role(ctor, w2) {
                Err(e) => Err(e),
                Ok((role, w3)) =>
                match dec_opt_snd_settle(ctor, w3) {
                    Err(e) => Err(e),
                    Ok((snd_settle_mode, w4)) =>
                    match dec_opt_rcv_settle(ctor, w4) {
                        Err(e) => Err(e),
                        Ok((rcv_settle_mode, w5)) =>
                        match dec_opt_source(ctor, w5) {
                            Err(e) => Err(e),
                            Ok((source, w6)) =>
                            match dec_opt_target(ctor, w6) {
                                Err(e) => Err(e),
                                Ok((target, w7)) =>
                                match dec_opt_elem_map::<(Vec<u8>, Vec<u8>)>(w7) {
                                    Err(e) => Err(e),
                                    Ok((unsettled, w8)) =>
                                    match dec_opt_bool(ctor, w8) {
                                        Err(e) => Err(e),
                                        Ok((incomplete_unsettled, w9)) =>
                                        match dec_opt_u32(w9) {
                                            Err(e) => Err(e),
                                            Ok((initial_delivery_count, w10)) =>
                                            match dec_opt_u64(w10) {
                                                Err(e) => Err(e),
                                                Ok((max_message_size, w11)) =>
                                                match dec_opt_elem_list::<Vec<u8>>(ctor, w11) {
                                                    Err(e) => Err(e),
                                                    Ok((offered_capabilities, w12)) =>
                                                    match dec_opt_elem_list::<Vec<u8>>(ctor, w12) {
                                                        Err(e) => Err(e),
                                                        Ok((desired_capabilities, w13)) =>
                                                        match dec_opt_elem_map::<(Vec<u8>, Vec<u8>)>(w13) {
                                                            Err(e) => Err(e),
                                                            Ok((properties, w14)) =>
                                                            Ok((AttachV {
                                                                name,
                                                                handle,
                                                                role,
                                                                snd_settle_mode,
                                                                rcv_settle_mode,
                                                                source,
                                                                target,
                                                                unsettled,
                                                                incomplete_unsettled,
                                                                initial_delivery_count,
                                                                max_message_size,
                                                                offered_capabilities,
                                                                desired_capabilities,
                                                                properties,
                                                            }, w14))
                                                            ,
                                                        }
                                                        ,
                                                    }
                                                    ,
                                                }
                                                ,
                                            }
                                            ,
                                        }
                                        ,
                                    }
                                    ,
                                }
                                ,
                            }
                            ,
                        }
                        ,
                    }
                    ,
                }
                ,
            }
            ,
        }
        ,
    }
}

pub open spec fn dec_attach_body(c: Option<u8>, s: Seq<u8>) -> Result<(AttachV, Seq<u8>), Error> {
    match dec_maybe_desc(c, s) {
        Err(e) => Err(e),
        Ok(s0) => match dec_compound(s0) {
            Err(e) => Err(e),
            Ok(((size, _count, ctor), s1)) => if s1.len() < size {
                Err(Error::UnexpectedEnd)
            } else {
                match dec_attach_fields(ctor, s1.take(size as int)) {
                    Err(e) => Err(e),
                    Ok((v, _leftover)) => Ok((v, s1.skip(size as int))),
                }
            },
        },
    }
}

impl Attach {
    #[verifier::rlimit(100)]
    #[verifier::spinoff_prover]
    pub fn encode(&self, s: &mut Serializer) -> (r: Result<(), Error>)
        ensures
            match r {
                Ok(()) => enc_attach_ok(self@) && final(s).bytes() == old(s).bytes()
                    + enc_attach(self@),
                Err(e) => !enc_attach_ok(self@) && e == Error::InvalidData && *final(s)
                    == *old(s),
            },
    {
        let mut f = Serializer::new();
        f.serialize_str(self.name.as_slice())?;
        f.serialize_u32(self.handle);
        encode_role(&mut f, &self.role);
        encode_opt_snd_settle(&mut f, &self.snd_settle_mode);
        encode_opt_rcv_settle(&mut f, &self.rcv_settle_mode);
        encode_opt_source(&mut f, &self.source)?;
        encode_opt_target(&mut f, &self.target)?;
        encode_opt_elem_map::<(Vec<u8>, Vec<u8>)>(&mut f, &self.unsettled)?;
        f.serialize_opt_bool(&self.incomplete_unsettled);
        f.serialize_opt_u32(&self.initial_delivery_count);
        f.serialize_opt_u64(&self.max_message_size);
        encode_opt_elem_list::<Vec<u8>>(&mut f, &self.offered_capabilities)?;
        encode_opt_elem_list::<Vec<u8>>(&mut f, &self.desired_capabilities)?;
        encode_opt_elem_map::<(Vec<u8>, Vec<u8>)>(&mut f, &self.properties)?;
        proof {
            assert(f.bytes() =~= enc_attach_fields(self@));
        }
        write_composite(s, 0x12, 14, &f.output)
    }

    pub fn decode_fields(w: &mut Deserializer) -> (r: Result<Attach, Error>)
        requires
            old(w).wf(),
        ensures
            stepped(*old(w), *final(w)),
            match r {
                Ok(v) => dec_attach_fields(old(w).constructor, old(w).remaining()) == Ok::<
                    _,
                    Error,
                >((v@, final(w).remaining())),
                Err(e) => dec_attach_fields(old(w).constructor, old(w).remaining()) == Err::<
                    (AttachV, Seq<u8>),
                    Error,
                >(e),
            },
    {
        proof {
            reveal(dec_attach_fields);
        }
        let name = w.parse_str()?;
        let handle = w.parse_u32()?;
        let role = parse_role(w)?;
        let snd_settle_mode = parse_opt_snd_settle(w)?;
        let rcv_settle_mode = parse_opt_rcv_settle(w)?;
        let source = parse_opt_source(w)?;
        let target = parse_opt_target(w)?;
        let unsettled = parse_opt_elem_map::<(Vec<u8>, Vec<u8>)>(w)?;
        let incomplete_unsettled = w.parse_opt_bool()?;
        let initial_delivery_count = w.parse_opt_u32()?;
        let max_message_size = w.parse_opt_u64()?;
        let offered_capabilities = parse_opt_elem_list::<Vec<u8>>(w)?;
        let desired_capabilities = parse_opt_elem_list::<Vec<u8>>(w)?;
        let properties = parse_opt_elem_map::<(Vec<u8>, Vec<u8>)>(w)?;
        Ok(Attach {
            name,
            handle,
            role,
            snd_settle_mode,
            rcv_settle_mode,
            source,
            target,
            unsettled,
            incomplete_unsettled,
            initial_delivery_count,
            max_message_size,
            offered_capabilities,
            desired_capabilities,
            properties,
        })
    }

    pub fn decode_body(d: &mut Deserializer) -> (r: Result<Attach, Error>)
        requires
            old(d).wf(),
        ensures
            stepped(*old(d), *final(d)),
            match r {
                Ok(v) => dec_attach_body(old(d).constructor, old(d).remaining()) == Ok::<
                    _,
                    Error,
                >((v@, final(d).remaining())),
                Err(e) => dec_attach_body(old(d).constructor, old(d).remaining()) == Err::<
                    (AttachV, Seq<u8>),
                    Error,
                >(e),
            },
    {
        d.skip_redundant_descriptor()?;
        let (size, _count, ctor) = d.composite()?;
        let mut w = d.window(size, ctor)?;
        match Attach::decode_fields(&mut w) {
            Ok(v) => Ok(v),
            Err(e) => Err(e),
        }
    }
}

/// The Flow performative.
#[derive(Clone, Debug, PartialEq, Eq)]
pub struct Flow {
    pub next_incoming_id: Option<u32>,
    pub incoming_window: u32,
    pub next_outgoing_id: u32,
    pub outgoing_window: u32,
    pub handle: Option<u32>,
    pub delivery_count: Option<u32>,
    pub link_credit: Option<u32>,
    pub available: Option<u32>,
    pub drain: Option<bool>,
    pub echo: Option<bool>,
    pub properties: Option<Vec<(Vec<u8>, Vec<u8>)>>,
}

pub struct FlowV {
    pub next_incoming_id: Option<u32>,
    pub incoming_window: u32,
    pub next_outgoing_id: u32,
    pub outgoing_window: u32,
    pub handle: Option<u32>,
    pub delivery_count: Option<u32>,
    pub link_credit: Option<u32>,
    pub available: Option<u32>,
    pub drain: Option<bool>,
    pub echo: Option<bool>,
    pub properties: Option<Seq<(Seq<u8>, Seq<u8>)>>,
}

impl View for Flow {
    type V = FlowV;

    open spec fn view(&self) -> FlowV {
        FlowV {
            next_incoming_id: self.next_incoming_id,
            incoming_window: self.incoming_window,
            next_outgoing_id: self.next_outgoing_id,
            outgoing_window: self.outgoing_window,
            handle: self.handle,
            delivery_count: self.delivery_count,
            link_credit: self.link_credit,
            available: self.available,
            drain: self.drain,
            echo: self.echo,
            properties: view_opt_elems(self.properties),
        }
    }
}

pub open spec fn enc_flow_fields(v: FlowV) -> Seq<u8> {
    enc_opt_u32(v.next_incoming_id) + enc_u32(v.incoming_window) + enc_u32(v.next_outgoing_id) + enc_u32(v.outgoing_window) + enc_opt_u32(v.handle) + enc_opt_u32(v.delivery_count) + enc_opt_u32(v.link_credit) + enc_opt_u32(v.available) + enc_opt_bool(v.drain) + enc_opt_bool(v.echo) + (enc_opt_elem_map::<(Vec<u8>, Vec<u8>)>(v.properties))
}

pub open spec fn enc_flow_fields_ok(v: FlowV) -> bool {
    enc_opt_elem_map_ok::<(Vec<u8>, Vec<u8>)>(v.properties)
}

pub open spec fn enc_flow(v: FlowV) -> Seq<u8> {
    enc_composite(0x13, 11, enc_flow_fields(v))
}

pub open spec fn enc_flow_ok(v: FlowV) -> bool {
    enc_flow_fields_ok(v) && enc_compound_ok(enc_flow_fields(v))
}

#[verifier::opaque]
pub open spec fn dec_flow_fields(ctor: Option<u8>, w: Seq<u8>) -> Result<
    (FlowV, Seq<u8>),
    Error,
> {
    match dec_opt_u32(w) {
        Err(e) => Err(e),
        Ok((next_incoming_id, w1)) =>
        match dec_u32(w1) {
            Err(e) => Err(e),
            Ok((incoming_window, w2)) =>
            match dec_u32(w2) {
                Err(e) => Err(e),
                Ok((next_outgoing_id, w3)) =>
                match dec_u32(w3) {
                    Err(e) => Err(e),
                    Ok((outgoing_window, w4)) =>
                    match dec_opt_u32(w4) {
                        Err(e) => Err(e),
                        Ok((handle, w5)) =>
                        match dec_opt_u32(w5) {
                            Err(e) => Err(e),
                            Ok((delivery_count, w6)) =>
                            match dec_opt_u32(w6) {
                                Err(e) => Err(e),
                                Ok((link_credit, w7)) =>
                                match dec_opt_u32(w7) {
                                    Err(e) => Err(e),
                                    Ok((available, w8)) =>
                                    match dec_opt_bool(ctor, w8) {
                                        Err(e) => Err(e),
                                        Ok((drain, w9)) =>
                                        match dec_opt_bool(ctor, w9) {
                                            Err(e) => Err(e),
                                            Ok((echo, w10)) =>
                                            match dec_opt_elem_map::<(Vec<u8>, Vec<u8>)>(w10) {
                                                Err(e) => Err(e),
                                                Ok((properties, w11)) =>
                                                Ok((FlowV {
                                                    next_incoming_id,
                                                    incoming_window,
                                                    next_outgoing_id,
                                                    outgoing_window,
                                                    handle,
                                                    delivery_count,
                                                    link_credit,
                                                    available,
                                                    drain,
                                                    echo,
                                                    properties,
                                                }, w11))
                                                ,
                                            }
                                            ,
                                        }
                                        ,
                                    }
                                    ,
                                }
                                ,
                            }
                            ,
                        }
                        ,
                    }
                    ,
                }
                ,
            }
            ,
        }
        ,
    }
}

pub open spec fn dec_flow_body(c: Option<u8>, s: Seq<u8>) -> Result<(FlowV, Seq<u8>), Error> {
    match dec_maybe_desc(c, s) {
        Err(e) => Err(e),
        Ok(s0) => match dec_compound(s0) {
            Err(e) => Err(e),
            Ok(((size, _count, ctor), s1)) => if s1.len() < size {
                Err(Error::UnexpectedEnd)
            } else {
                match dec_flow_fields(ctor, s1.take(size as int)) {
                    Err(e) => Err(e),
                    Ok((v, _leftover)) => Ok((v, s1.skip(size as int))),
                }
            },
        },
    }
}

impl Flow {
    #[verifier::rlimit(100)]
    #[verifier::spinoff_prover]
    pub fn encode(&self, s: &mut Serializer) -> (r: Result<(), Error>)
        ensures
            match r {
                Ok(()) => enc_flow_ok(self@) && final(s).bytes() == old(s).bytes()
                    + enc_flow(self@),
                Err(e) => !enc_flow_ok(self@) && e == Error::InvalidData && *final(s)
                    == *old(s),
            },
    {
        let mut f = Serializer::new();
        f.serialize_opt_u32(&self.next_incoming_id);
        f.serialize_u32(self.incoming_window);
        f.serialize_u32(self.next_outgoing_id);
        f.serialize_u32(self.outgoing_window);
        f.serialize_opt_u32(&self.handle);
        f.serialize_opt_u32(&self.delivery_count);
        f.serialize_opt_u32(&self.link_credit);
        f.serialize_opt_u32(&self.available);
        f.serialize_opt_bool(&self.drain);
        f.serialize_opt_bool(&self.echo);
        encode_opt_elem_map::<(Vec<u8>, Vec<u8>)>(&mut f, &self.properties)?;
        proof {
            assert(f.bytes() =~= enc_flow_fields(self@));
        }
        write_composite(s, 0x13, 11, &f.output)
    }

    pub fn decode_fields(w: &mut Deserializer) -> (r: Result<Flow, Error>)
        requires
            old(w).wf(),
        ensures
            stepped(*old(w), *final(w)),
            match r {
                Ok(v) => dec_flow_fields(old(w).constructor, old(w).remaining()) == Ok::<
                    _,
                    Error,
                >((v@, final(w).remaining())),
                Err(e) => dec_flow_fields(old(w).constructor, old(w).remaining()) == Err::<
                    (FlowV, Seq<u8>),
                    Error,
                >(e),
            },
    {
        proof {
            reveal(dec_flow_fields);
        }
        let next_incoming_id = w.parse_opt_u32()?;
        let incoming_window = w.parse_u32()?;
        let next_outgoing_id = w.parse_u32()?;
        let outgoing_window = w.parse_u32()?;
        let handle = w.parse_opt_u32()?;
        let delivery_count = w.parse_opt_u32()?;
        let link_credit = w.parse_opt_u32()?;
        let available = w.parse_opt_u32()?;
        let drain = w.parse_opt_bool()?;
        let echo = w.parse_opt_bool()?;
        let properties = parse_opt_elem_map::<(Vec<u8>, Vec<u8>)>(w)?;
        Ok(Flow {
            next_incoming_id,
            incoming_window,
            next_outgoing_id,
            outgoing_window,
            handle,
            delivery_count,
            link_credit,
            available,
            drain,
            echo,
            properties,
        })
    }

    pub fn decode_body(d: &mut Deserializer) -> (r: Result<Flow, Error>)
        requires
            old(d).wf(),
        ensures
            stepped(*old(d), *final(d)),
            match r {
                Ok(v) => dec_flow_body(old(d).constructor, old(d).remaining()) == Ok::<
                    _,
                    Error,
                >((v@, final(d).remaining())),
                Err(e) => dec_flow_body(old(d).constructor, old(d).remaining()) == Err::<
                    (FlowV, Seq<u8>),
                    Error,
                >(e),
            },
    {
        d.skip_redundant_descriptor()?;
        let (size, _count, ctor) = d.composite()?;
        let mut w = d.window(size, ctor)?;
        match Flow::decode_fields(&mut w) {
            Ok(v) => Ok(v),
            Err(e) => Err(e),
        }
    }
}

/// The Transfer performative.
#[derive(Clone, Debug, PartialEq, Eq)]
pub struct Transfer {
    pub handle: u32,
    pub delivery_id: Option<u32>,
    pub delivery_tag: Option<Vec<u8>>,
    pub message_format: Option<u32>,
    pub settled: Option<bool>,
    pub more: Option<bool>,
    pub rcv_settle_mode: Option<ReceiverSettleMode>,
    pub state: Option<DeliveryState>,
    pub resume: Option<bool>,
    pub aborted: Option<bool>,
    pub batchable: Option<bool>,
}

pub struct TransferV {
    pub handle: u32,
    pub delivery_id: Option<u32>,
    pub delivery_tag: Option<Seq<u8>>,
    pub message_format: Option<u32>,
    pub settled: Option<bool>,
    pub more: Option<bool>,
    pub rcv_settle_mode: Option<ReceiverSettleMode>,
    pub state: Option<DeliveryState>,
    pub resume: Option<bool>,
    pub aborted: Option<bool>,
    pub batchable: Option<bool>,
}

impl View for Transfer {
    type V = TransferV;

    open spec fn view(&self) -> TransferV {
        TransferV {
            handle: self.handle,
            delivery_id: self.delivery_id,
            delivery_tag: view_opt_bytes(self.delivery_tag),
            message_format: self.message_format,
            settled: self.settled,
            more: self.more,
            rcv_settle_mode: self.rcv_settle_mode,
            state: self.state,
            resume: self.resume,
            aborted: self.aborted,
            batchable: self.batchable,
        }
    }
}

impl Default for Transfer {
    fn default() -> (r: Transfer)
        ensures
            r.handle == 0u32,
            r.delivery_id is None,
            r.delivery_tag is None,
            r.message_format is None,
            r.settled is None,
            r.more is None,
            r.rcv_settle_mode is None,
            r.state is None,
            r.resume is None,
            r.aborted is None,
            r.batchable is None,
    {
        Transfer {
            handle: 0,
            delivery_id: None,
            delivery_tag: None,
            message_format: None,
            settled: None,
            more: None,
            rcv_settle_mode: None,
            state: None,
            resume: None,
            aborted: None,
            batchable: None,
        }
    }
}

pub open spec fn enc_transfer_fields(v: TransferV) -> Seq<u8> {
    enc_u32(v.handle) + enc_opt_u32(v.delivery_id) + enc_opt_bin(v.delivery_tag) + enc_opt_u32(v.message_format) + enc_opt_bool(v.settled) + enc_opt_bool(v.more) + enc_opt_rcv_settle(v.rcv_settle_mode) + enc_opt_delivery_state(v.state) + enc_opt_bool(v.resume) + enc_opt_bool(v.aborted) + (enc_opt_bool(v.batchable))
}

pub open spec fn enc_transfer_fields_ok(v: TransferV) -> bool {
    enc_opt_bin_ok(v.delivery_tag)
}

pub open spec fn enc_transfer(v: TransferV) -> Seq<u8> {
    enc_composite(0x14, 11, enc_transfer_fields(v))
}

pub open spec fn enc_transfer_ok(v: TransferV) -> bool {
    enc_transfer_fields_ok(v) && enc_compound_ok(enc_transfer_fields(v))
}

#[verifier::opaque]
pub open spec fn dec_transfer_fields(ctor: Option<u8>, w: Seq<u8>) -> Result<
    (TransferV, Seq<u8>),
    Error,
> {
    match dec_u32(w) {
        Err(e) => Err(e),
        Ok((handle, w1)) =>
        match dec_opt_u32(w1) {
            Err(e) => Err(e),
            Ok((delivery_id, w2)) =>
            match dec_opt_bin(ctor, w2) {
                Err(e) => Err(e),
                Ok((delivery_tag, w3)) =>
                match dec_opt_u32(w3) {
                    Err(e) => Err(e),
                    Ok((message_format, w4)) =>
                    match dec_opt_bool(ctor, w4) {
                        Err(e) => Err(e),
                        Ok((settled, w5)) =>
                        match dec_opt_bool(ctor, w5) {
                            Err(e) => Err(e),
                            Ok((more, w6)) =>
                            match dec_opt_rcv_settle(ctor, w6) {
                                Err(e) => Err(e),
                                Ok((rcv_settle_mode, w7)) =>
                                match dec_opt_delivery_state(ctor, w7) {
                                    Err(e) => Err(e),
                                    Ok((state, w8)) =>
                                    match dec_opt_bool(ctor, w8) {
                                        Err(e) => Err(e),
                                        Ok((resume, w9)) =>
                                        match dec_opt_bool(ctor, w9) {
                                            Err(e) => Err(e),
                                            Ok((aborted, w10)) =>
                                            match dec_opt_bool(ctor, w10) {
                                                Err(e) => Err(e),
                                                Ok((batchable, w11)) =>
                                                Ok((TransferV {
                                                    handle,
                                                    delivery_id,
                                                    delivery_tag,
                                                    message_format,
                                                    settled,
                                                    more,
                                                    rcv_settle_mode,
                                                    state,
                                                    resume,
                                                    aborted,
                                                    batchable,
                                                }, w11))
                                                ,
                                            }
                                            ,
                                        }
                                        ,
                                    }
                                    ,
                                }
                                ,
                            }
                            ,
                        }
                        ,
                    }
                    ,
                }
                ,
            }
            ,
        }
        ,
    }
}

pub open spec fn dec_transfer_body(c: Option<u8>, s: Seq<u8>) -> Result<(TransferV, Seq<u8>), Error> {
    match dec_maybe_desc(c, s) {
        Err(e) => Err(e),
        Ok(s0) => match dec_compound(s0) {
            Err(e) => Err(e),
            Ok(((size, _count, ctor), s1)) => if s1.len() < size {
                Err(Error::UnexpectedEnd)
            } else {
                match dec_transfer_fields(ctor, s1.take(size as int)) {
                    Err(e) => Err(e),
                    Ok((v, _leftover)) => Ok((v, s1.skip(size as int))),
                }
            },
        },
    }
}

impl Transfer {
    #[verifier::rlimit(100)]
    #[verifier::spinoff_prover]
    pub fn encode(&self, s: &mut Serializer) -> (r: Result<(), Error>)
        ensures
            match r {
                Ok(()) => enc_transfer_ok(self@) && final(s).bytes() == old(s).bytes()
                    + enc_transfer(self@),
                Err(e) => !enc_transfer_ok(self@) && e == Error::InvalidData && *final(s)
                    == *old(s),
            },
    {
        let mut f = Serializer::new();
        f.serialize_u32(self.handle);
        f.serialize_opt_u32(&self.delivery_id);
        f.serialize_opt_bytes(&self.delivery_tag)?;
        f.serialize_opt_u32(&self.message_format);
        f.serialize_opt_bool(&self.settled);
        f.serialize_opt_bool(&self.more);
        encode_opt_rcv_settle(&mut f, &self.rcv_settle_mode);
        encode_opt_delivery_state(&mut f, &self.state);
        f.serialize_opt_bool(&self.resume);
        f.serialize_opt_bool(&self.aborted);
        f.serialize_opt_bool(&self.batchable);
        proof {
            assert(f.bytes() =~= enc_transfer_fields(self@));
        }
        write_composite(s, 0x14, 11, &f.output)
    }

    pub fn decode_fields(w: &mut Deserializer) -> (r: Result<Transfer, Error>)
        requires
            old(w).wf(),
        ensures
            stepped(*old(w), *final(w)),
            match r {
                Ok(v) => dec_transfer_fields(old(w).constructor, old(w).remaining()) == Ok::<
                    _,
                    Error,
                >((v@, final(w).remaining())),
                Err(e) => dec_transfer_fields(old(w).constructor, old(w).remaining()) == Err::<
                    (TransferV, Seq<u8>),
                    Error,
                >(e),
            },
    {
        proof {
            reveal(dec_transfer_fields);
        }
        let handle = w.parse_u32()?;
        let delivery_id = w.parse_opt_u32()?;
        let delivery_tag = w.parse_opt_bytes()?;
        let message_format = w.parse_opt_u32()?;
        let settled = w.parse_opt_bool()?;
        let more = w.parse_opt_bool()?;
        let rcv_settle_mode = parse_opt_rcv_settle(w)?;
        let state = parse_opt_delivery_state(w)?;
        let resume = w.parse_opt_bool()?;
        let aborted = w.parse_opt_bool()?;
        let batchable = w.parse_opt_bool()?;
        Ok(Transfer {
            handle,
            delivery_id,
            delivery_tag,
            message_format,
            settled,
            more,
            rcv_settle_mode,
            state,
            resume,
            aborted,
            batchable,
        })
    }

    pub fn decode_body(d: &mut Deserializer) -> (r: Result<Transfer, Error>)
        requires
            old(d).wf(),
        ensures
            stepped(*old(d), *final(d)),
            match r {
                Ok(v) => dec_transfer_body(old(d).constructor, old(d).remaining()) == Ok::<
                    _,
                    Error,
                >((v@, final(d).remaining())),
                Err(e) => dec_transfer_body(old(d).constructor, old(d).remaining()) == Err::<
                    (TransferV, Seq<u8>),
                    Error,
                >(e),
            },
    {
        d.skip_redundant_descriptor()?;
        let (size, _count, ctor) = d.composite()?;
        let mut w = d.window(size, ctor)?;
        match Transfer::decode_fields(&mut w) {
            Ok(v) => Ok(v),
            Err(e) => Err(e),
        }
    }
}

/// The Disposition performative.
#[derive(Clone, Debug, PartialEq, Eq)]
pub struct Disposition {
    pub role: Role,
    pub first: u32,
    pub last: Option<u32>,
    pub settled: Option<bool>,
    pub state: Option<DeliveryState>,
    pub batchable: Option<bool>,
}

pub struct DispositionV {
    pub role: Role,
    pub first: u32,
    pub last: Option<u32>,
    pub settled: Option<bool>,
    pub state: Option<DeliveryState>,
    pub batchable: Option<bool>,
}

impl View for Disposition {
    type V = DispositionV;

    open spec fn view(&self) -> DispositionV {
        DispositionV {
            role: self.role,
            first: self.first,
            last: self.last,
            settled: self.settled,
            state: self.state,
            batchable: self.batchable,
        }
    }
}

pub open spec fn enc_disposition_fields(v: DispositionV) -> Seq<u8> {
    enc_role(v.role) + enc_u32(v.first) + enc_opt_u32(v.last) + enc_opt_bool(v.settled) + enc_opt_delivery_state(v.state) + (enc_opt_bool(v.batchable))
}

pub open spec fn enc_disposition_fields_ok(v: DispositionV) -> bool {
    true
}

pub open spec fn enc_disposition(v: DispositionV) -> Seq<u8> {
    enc_composite(0x15, 6, enc_disposition_fields(v))
}

pub open spec fn enc_disposition_ok(v: DispositionV) -> bool {
    enc_disposition_fields_ok(v) && enc_compound_ok(enc_disposition_fields(v))
}

#[verifier::opaque]
pub open spec fn dec_disposition_fields(ctor: Option<u8>, w: Seq<u8>) -> Result<
    (DispositionV, Seq<u8>),
    Error,
> {
    match dec_role(ctor, w) {
        Err(e) => Err(e),
        Ok((role, w1)) =>
        match dec_u32(w1) {
            Err(e) => Err(e),
            Ok((first, w2)) =>
            match dec_opt_u32(w2) {
                Err(e) => Err(e),
                Ok((last, w3)) =>
                match dec_opt_bool(ctor, w3) {
                    Err(e) => Err(e),
                    Ok((settled, w4)) =>
                    match dec_opt_delivery_state(ctor, w4) {
                        Err(e) => Err(e),
                        Ok((state, w5)) =>
                        match dec_opt_bool(ctor, w5) {
                            Err(e) => Err(e),
                            Ok((batchable, w6)) =>
                            Ok((DispositionV {
                                role,
                                first,
                                last,
                                settled,
                                state,
                                batchable,
                            }, w6))
                            ,
                        }
                        ,
                    }
                    ,
                }
                ,
            }
            ,
        }
        ,
    }
}

pub open spec fn dec_disposition_body(c: Option<u8>, s: Seq<u8>) -> Result<(DispositionV, Seq<u8>), Error> {
    match dec_maybe_desc(c, s) {
        Err(e) => Err(e),
        Ok(s0) => match dec_compound(s0) {
            Err(e) => Err(e),
            Ok(((size, _count, ctor), s1)) => if s1.len() < size {
                Err(Error::UnexpectedEnd)
            } else {
                match dec_disposition_fields(ctor, s1.take(size as int)) {
                    Err(e) => Err(e),
                    Ok((v, _leftover)) => Ok((v, s1.skip(size as int))),
                }
            },
        },
    }
}

impl Disposition {
    #[verifier::rlimit(100)]
    #[verifier::spinoff_prover]
    pub fn encode(&self, s: &mut Serializer) -> (r: Result<(), Error>)
        ensures
            match r {
                Ok(()) => enc_disposition_ok(self@) && final(s).bytes() == old(s).bytes()
                    + enc_disposition(self@),
                Err(e) => !enc_disposition_ok(self@) && e == Error::InvalidData && *final(s)
                    == *old(s),
            },
    {
        let mut f = Serializer::new();
        encode_role(&mut f, &self.role);
        f.serialize_u32(self.first);
        f.serialize_opt_u32(&self.last);
        f.serialize_opt_bool(&self.settled);
        encode_opt_delivery_state(&mut f, &self.state);
        f.serialize_opt_bool(&self.batchable);
        proof {
            assert(f.bytes() =~= enc_disposition_fields(self@));
        }
        write_composite(s, 0x15, 6, &f.output)
    }

    pub fn decode_fields(w: &mut Deserializer) -> (r: Result<Disposition, Error>)
        requires
            old(w).wf(),
        ensures
            stepped(*old(w), *final(w)),
            match r {
                Ok(v) => dec_disposition_fields(old(w).constructor, old(w).remaining()) == Ok::<
                    _,
                    Error,
                >((v@, final(w).remaining())),
                Err(e) => dec_disposition_fields(old(w).constructor, old(w).remaining()) == Err::<
                    (DispositionV, Seq<u8>),
                    Error,
                >(e),
            },
    {
        proof {
            reveal(dec_disposition_fields);
        }
        let role = parse_role(w)?;
        let first = w.parse_u32()?;
        let last = w.parse_opt_u32()?;
        let settled = w.parse_opt_bool()?;
        let state = parse_opt_delivery_state(w)?;
        let batchable = w.parse_opt_bool()?;
        Ok(Disposition {
            role,
            first,
            last,
            settled,
            state,
            batchable,
        })
    }

    pub fn decode_body(d: &mut Deserializer) -> (r: Result<Disposition, Error>)
        requires
            old(d).wf(),
        ensures
            stepped(*old(d), *final(d)),
            match r {
                Ok(v) => dec_disposition_body(old(d).constructor, old(d).remaining()) == Ok::<
                    _,
                    Error,
                >((v@, final(d).remaining())),
                Err(e) => dec_disposition_body(old(d).constructor, old(d).remaining()) == Err::<
                    (DispositionV, Seq<u8>),
                    Error,
                >(e),
            },
    {
        d.skip_redundant_descriptor()?;
        let (size, _count, ctor) = d.composite()?;
        let mut w = d.window(size, ctor)?;
        match Disposition::decode_fields(&mut w) {
            Ok(v) => Ok(v),
            Err(e) => Err(e),
        }
    }
}

/// The link Detach performative.
#[derive(Clone, Debug, PartialEq, Eq)]
pub struct Detach {
    pub handle: u32,
    pub closed: Option<bool>,
    pub error: Option<ErrorCondition>,
}

pub struct DetachV {
    pub handle: u32,
    pub closed: Option<bool>,
    pub error: Option<ErrorConditionV>,
}

impl View for Detach {
    type V = DetachV;

    open spec fn view(&self) -> DetachV {
        DetachV {
            handle: self.handle,
            closed: self.closed,
            error: view_opt(self.error),
        }
    }
}

pub open spec fn enc_detach_fields(v: DetachV) -> Seq<u8> {
    enc_u32(v.handle) + enc_opt_bool(v.closed) + (enc_opt_error_condition(v.error))
}

pub open spec fn enc_detach_fields_ok(v: DetachV) -> bool {
    enc_opt_error_condition_ok(v.error)
}

pub open spec fn enc_detach(v: DetachV) -> Seq<u8> {
    enc_composite(0x16, 3, enc_detach_fields(v))
}

pub open spec fn enc_detach_ok(v: DetachV) -> bool {
    enc_detach_fields_ok(v) && enc_compound_ok(enc_detach_fields(v))
}

#[verifier::opaque]
pub open spec fn dec_detach_fields(ctor: Option<u8>, w: Seq<u8>) -> Result<
    (DetachV, Seq<u8>),
    Error,
> {
    match dec_u32(w) {
        Err(e) => Err(e),
        Ok((handle, w1)) =>
        match dec_opt_bool(ctor, w1) {
            Err(e) => Err(e),
            Ok((closed, w2)) =>
            match dec_opt_error_condition(ctor, w2) {
                Err(e) => Err(e),
                Ok((error, w3)) =>
                Ok((DetachV {
                    handle,
                    closed,
                    error,
                }, w3))
                ,
            }
            ,
        }
        ,
    }
}

pub open spec fn dec_detach_body(c: Option<u8>, s: Seq<u8>) -> Result<(DetachV, Seq<u8>), Error> {
    match dec_maybe_desc(c, s) {
        Err(e) => Err(e),
        Ok(s0) => match dec_compound(s0) {
            Err(e) => Err(e),
            Ok(((size, _count, ctor), s1)) => if s1.len() < size {
                Err(Error::UnexpectedEnd)
            } else {
                match dec_detach_fields(ctor, s1.take(size as int)) {
                    Err(e) => Err(e),
                    Ok((v, _leftover)) => Ok((v, s1.skip(size as int))),
                }
            },
        },
    }
}

impl Detach {
    #[verifier::rlimit(100)]
    #[verifier::spinoff_prover]
    pub fn encode(&self, s: &mut Serializer) -> (r: Result<(), Error>)
        ensures
            match r {
                Ok(()) => enc_detach_ok(self@) && final(s).bytes() == old(s).bytes()
                    + enc_detach(self@),
                Err(e) => !enc_detach_ok(self@) && e == Error::InvalidData && *final(s)
                    == *old(s),
            },
    {
        let mut f = Serializer::new();
        f.serialize_u32(self.handle);
        f.serialize_opt_bool(&self.closed);
        encode_opt_error_condition(&mut f, &self.error)?;
        proof {
            assert(f.bytes() =~= enc_detach_fields(self@));
        }
        write_composite(s, 0x16, 3, &f.output)
    }

    pub fn decode_fields(w: &mut Deserializer) -> (r: Result<Detach, Error>)
        requires
            old(w).wf(),
        ensures
            stepped(*old(w), *final(w)),
            match r {
                Ok(v) => dec_detach_fields(old(w).constructor, old(w).remaining()) == Ok::<
                    _,
                    Error,
                >((v@, final(w).remaining())),
                Err(e) => dec_detach_fields(old(w).constructor, old(w).remaining()) == Err::<
                    (DetachV, Seq<u8>),
                    Error,
                >(e),
            },
    {
        proof {
            reveal(dec_detach_fields);
        }
        let handle = w.parse_u32()?;
        let closed = w.parse_opt_bool()?;
        let error = parse_opt_error_condition(w)?;
        Ok(Detach {
            handle,
            closed,
            error,
        })
    }

    pub fn decode_body(d: &mut Deserializer) -> (r: Result<Detach, Error>)
        requires
            old(d).wf(),
        ensures
            stepped(*old(d), *final(d)),
            match r {
                Ok(v) => dec_detach_body(old(d).constructor, old(d).remaining()) == Ok::<
                    _,
                    Error,
                >((v@, final(d).remaining())),
                Err(e) => dec_detach_body(old(d).constructor, old(d).remaining()) == Err::<
                    (DetachV, Seq<u8>),
                    Error,
                >(e),
            },
    {
        d.skip_redundant_descriptor()?;
        let (size, _count, ctor) = d.composite()?;
        let mut w = d.window(size, ctor)?;
        match Detach::decode_fields(&mut w) {
            Ok(v) => Ok(v),
            Err(e) => Err(e),
        }
    }
}

/// The connection Close performative.
#[derive(Clone, Debug, PartialEq, Eq)]
pub struct Close {
    pub error: Option<ErrorCondition>,
}

pub struct CloseV {
    pub error: Option<ErrorConditionV>,
}

impl View for Close {
    type V = CloseV;

    open spec fn view(&self) -> CloseV {
        CloseV {
            error: view_opt(self.error),
        }
    }
}

pub open spec fn enc_close_fields(v: CloseV) -> Seq<u8> {
    enc_opt_error_condition(v.error)
}

pub open spec fn enc_close_fields_ok(v: CloseV) -> bool {
    enc_opt_error_condition_ok(v.error)
}

pub open spec fn enc_close(v: CloseV) -> Seq<u8> {
    enc_composite(0x18, 1, enc_close_fields(v))
}

pub open spec fn enc_close_ok(v: CloseV) -> bool {
    enc_close_fields_ok(v) && enc_compound_ok(enc_close_fields(v))
}

#[verifier::opaque]
pub open spec fn dec_close_fields(ctor: Option<u8>, w: Seq<u8>) -> Result<
    (CloseV, Seq<u8>),
    Error,
> {
    match dec_opt_error_condition(ctor, w) {
        Err(e) => Err(e),
        Ok((error, w1)) =>
        Ok((CloseV {
            error,
        }, w1))
        ,
    }
}

pub open spec fn dec_close_body(c: Option<u8>, s: Seq<u8>) -> Result<(CloseV, Seq<u8>), Error> {
    match dec_maybe_desc(c, s) {
        Err(e) => Err(e),
        Ok(s0) => match dec_compound(s0) {
            Err(e) => Err(e),
            Ok(((size, _count, ctor), s1)) => if s1.len() < size {
                Err(Error::UnexpectedEnd)
            } else {
                match dec_close_fields(ctor, s1.take(size as int)) {
                    Err(e) => Err(e),
                    Ok((v, _leftover)) => Ok((v, s1.skip(size as int))),
                }
            },
        },
    }
}

impl Close {
    #[verifier::rlimit(100)]
    #[verifier::spinoff_prover]
    pub fn encode(&self, s: &mut Serializer) -> (r: Result<(), Error>)
        ensures
            match r {
                Ok(()) => enc_close_ok(self@) && final(s).bytes() == old(s).bytes()
                    + enc_close(self@),
                Err(e) => !enc_close_ok(self@) && e == Error::InvalidData && *final(s)
                    == *old(s),
            },
    {
        let mut f = Serializer::new();
        encode_opt_error_condition(&mut f, &self.error)?;
        proof {
            assert(f.bytes() =~= enc_close_fields(self@));
        }
        write_composite(s, 0x18, 1, &f.output)
    }

    pub fn decode_fields(w: &mut Deserializer) -> (r: Result<Close, Error>)
        requires
            old(w).wf(),
        ensures
            stepped(*old(w), *final(w)),
            match r {
                Ok(v) => dec_close_fields(old(w).constructor, old(w).remaining()) == Ok::<
                    _,
                    Error,
                >((v@, final(w).remaining())),
                Err(e) => dec_close_fields(old(w).constructor, old(w).remaining()) == Err::<
                    (CloseV, Seq<u8>),
                    Error,
                >(e),
            },
    {
        proof {
            reveal(dec_close_fields);
        }
        let error = parse_opt_error_condition(w)?;
        Ok(Close {
            error,
        })
    }

    pub fn decode_body(d: &mut Deserializer) -> (r: Result<Close, Error>)
        requires
            old(d).wf(),
        ensures
            stepped(*old(d), *final(d)),
            match r {
                Ok(v) => dec_close_body(old(d).constructor, old(d).remaining()) == Ok::<
                    _,
                    Error,
                >((v@, final(d).remaining())),
                Err(e) => dec_close_body(old(d).constructor, old(d).remaining()) == Err::<
                    (CloseV, Seq<u8>),
                    Error,
                >(e),
            },
    {
        d.skip_redundant_descriptor()?;
        let (size, _count, ctor) = d.composite()?;
        let mut w = d.window(size, ctor)?;
        match Close::decode_fields(&mut w) {
            Ok(v) => Ok(v),
            Err(e) => Err(e),
        }
    }
}

/// The message Header section.
#[derive(Clone, Debug, PartialEq, Eq)]
pub struct Header {
    pub durable: Option<bool>,
    pub priority: Option<u8>,
    pub ttl: Option<u32>,
    pub first_acquirer: Option<bool>,
    pub delivery_count: Option<u32>,
}

pub struct HeaderV {
    pub durable: Option<bool>,
    pub priority: Option<u8>,
    pub ttl: Option<u32>,
    pub first_acquirer: Option<bool>,
    pub delivery_count: Option<u32>,
}

impl View for Header {
    type V = HeaderV;

    open spec fn view(&self) -> HeaderV {
        HeaderV {
            durable: self.durable,
            priority: self.priority,
            ttl: self.ttl,
            first_acquirer: self.first_acquirer,
            delivery_count: self.delivery_count,
        }
    }
}

impl Default for Header {
    fn default() -> (r: Header)
        ensures
            r.durable is None,
            r.priority is None,
            r.ttl is None,
            r.first_acquirer is None,
            r.delivery_count is None,
    {
        Header {
            durable: None,
            priority: None,
            ttl: None,
            first_acquirer: None,
            delivery_count: None,
        }
    }
}

pub open spec fn enc_header_fields(v: HeaderV) -> Seq<u8> {
    enc_opt_bool(v.durable) + enc_opt_u8(v.priority) + enc_opt_u32(v.ttl) + enc_opt_bool(v.first_acquirer) + (enc_opt_u32(v.delivery_count))
}

pub open spec fn enc_header_fields_ok(v: HeaderV) -> bool {
    true
}

pub open spec fn enc_header(v: HeaderV) -> Seq<u8> {
    enc_composite(0x70, 5, enc_header_fields(v))
}

pub open spec fn enc_header_ok(v: HeaderV) -> bool {
    enc_header_fields_ok(v) && enc_compound_ok(enc_header_fields(v))
}

#[verifier::opaque]
pub open spec fn dec_header_fields(ctor: Option<u8>, w: Seq<u8>) -> Result<
    (HeaderV, Seq<u8>),
    Error,
> {
    match dec_opt_bool(ctor, w) {
        Err(e) => Err(e),
        Ok((durable, w1)) =>
        match dec_opt_u8(w1) {
            Err(e) => Err(e),
            Ok((priority, w2)) =>
            match dec_opt_u32(w2) {
                Err(e) => Err(e),
                Ok((ttl, w3)) =>
                match dec_opt_bool(ctor, w3) {
                    Err(e) => Err(e),
                    Ok((first_acquirer, w4)) =>
                    match dec_opt_u32(w4) {
                        Err(e) => Err(e),
                        Ok((delivery_count, w5)) =>
                        Ok((HeaderV {
                            durable,
                            priority,
                            ttl,
                            first_acquirer,
                            delivery_count,
                        }, w5))
                        ,
                    }
                    ,
                }
                ,
            }
            ,
        }
        ,
    }
}

#[verifier::opaque]
pub open spec fn dec_header_body(c: Option<u8>, s: Seq<u8>) -> Result<(HeaderV, Seq<u8>), Error> {
    match dec_maybe_desc(c, s) {
        Err(e) => Err(e),
        Ok(s0) => match dec_compound(s0) {
            Err(e) => Err(e),
            Ok(((size, _count, ctor), s1)) => if s1.len() < size {
                Err(Error::UnexpectedEnd)
            } else {
                match dec_header_fields(ctor, s1.take(size as int)) {
                    Err(e) => Err(e),
                    Ok((v, _leftover)) => Ok((v, s1.skip(size as int))),
                }
            },
        },
    }
}

impl Header {
    #[verifier::rlimit(100)]
    #[verifier::spinoff_prover]
    pub fn encode(&self, s: &mut Serializer) -> (r: Result<(), Error>)
        ensures
            match r {
                Ok(()) => enc_header_ok(self@) && final(s).bytes() == old(s).bytes()
                    + enc_header(self@),
                Err(e) => !enc_header_ok(self@) && e == Error::InvalidData && *final(s)
                    == *old(s),
            },
    {
        let mut f = Serializer::new();
        f.serialize_opt_bool(&self.durable);
        f.serialize_opt_u8(&self.priority);
        f.serialize_opt_u32(&self.ttl);
        f.serialize_opt_bool(&self.first_acquirer);
        f.serialize_opt_u32(&self.delivery_count);
        proof {
            assert(f.bytes() =~= enc_header_fields(self@));
        }
        write_composite(s, 0x70, 5, &f.output)
    }

    pub fn decode_fields(w: &mut Deserializer) -> (r: Result<Header, Error>)
        requires
            old(w).wf(),
        ensures
            stepped(*old(w), *final(w)),
            match r {
                Ok(v) => dec_header_fields(old(w).constructor, old(w).remaining()) == Ok::<
                    _,
                    Error,
                >((v@, final(w).remaining())),
                Err(e) => dec_header_fields(old(w).constructor, old(w).remaining()) == Err::<
                    (HeaderV, Seq<u8>),
                    Error,
                >(e),
            },
    {
        proof {
            reveal(dec_header_fields);
        }
        let durable = w.parse_opt_bool()?;
        let priority = w.parse_opt_u8()?;
        let ttl = w.parse_opt_u32()?;
        let first_acquirer = w.parse_opt_bool()?;
        let delivery_count = w.parse_opt_u32()?;
        Ok(Header {
            durable,
            priority,
            ttl,
            first_acquirer,
            delivery_count,
        })
    }

    pub fn decode_body(d: &mut Deserializer) -> (r: Result<Header, Error>)
        requires
            old(d).wf(),
        ensures
            stepped(*old(d), *final(d)),
            match r {
                Ok(v) => dec_header_body(old(d).constructor, old(d).remaining()) == Ok::<
                    _,
                    Error,
                >((v@, final(d).remaining())),
                Err(e) => dec_header_body(old(d).constructor, old(d).remaining()) == Err::<
                    (HeaderV, Seq<u8>),
                    Error,
                >(e),
            },
    {
        proof {
            reveal(dec_header_body);
        }
        d.skip_redundant_descriptor()?;
        let (size, _count, ctor) = d.composite()?;
        let mut w = d.window(size, ctor)?;
        match Header::decode_fields(&mut w) {
            Ok(v) => Ok(v),
            Err(e) => Err(e),
        }
    }
}

/// The message Properties section.
#[derive(Clone, Debug, PartialEq, Eq)]
pub struct Properties {
    pub message_id: Option<Vec<u8>>,
    pub user_id: Option<Vec<u8>>,
    pub to: Option<Vec<u8>>,
    pub subject: Option<Vec<u8>>,
    pub reply_to: Option<Vec<u8>>,
    pub correlation_id: Option<Vec<u8>>,
    pub content_type: Option<Vec<u8>>,
    pub content_encoding: Option<Vec<u8>>,
    pub absolute_expiry_time: Option<i64>,
    pub creation_time: Option<i64>,
    pub group_id: Option<Vec<u8>>,
    pub group_sequence: Option<u32>,
    pub reply_to_group_id: Option<Vec<u8>>,
}

pub struct PropertiesV {
    pub message_id: Option<Seq<u8>>,
    pub user_id: Option<Seq<u8>>,
    pub to: Option<Seq<u8>>,
    pub subject: Option<Seq<u8>>,
    pub reply_to: Option<Seq<u8>>,
    pub correlation_id: Option<Seq<u8>>,
    pub content_type: Option<Seq<u8>>,
    pub content_encoding: Option<Seq<u8>>,
    pub absolute_expiry_time: Option<i64>,
    pub creation_time: Option<i64>,
    pub group_id: Option<Seq<u8>>,
    pub group_sequence: Option<u32>,
    pub reply_to_group_id: Option<Seq<u8>>,
}

impl View for Properties {
    type V = PropertiesV;

    open spec fn view(&self) -> PropertiesV {
        PropertiesV {
            message_id: view_opt_bytes(self.message_id),
            user_id: view_opt_bytes(self.user_id),
            to: view_opt_bytes(self.to),
            subject: view_opt_bytes(self.subject),
            reply_to: view_opt_bytes(self.reply_to),
            correlation_id: view_opt_bytes(self.correlation_id),
            content_type: view_opt_bytes(self.content_type),
            content_encoding: view_opt_bytes(self.content_encoding),
            absolute_expiry_time: self.absolute_expiry_time,
            creation_time: self.creation_time,
            group_id: view_opt_bytes(self.group_id),
            group_sequence: self.group_sequence,
            reply_to_group_id: view_opt_bytes(self.reply_to_group_id),
        }
    }
}

impl Default for Properties {
    fn default() -> (r: Properties)
        ensures
            r.message_id is None,
            r.user_id is None,
            r.to is None,
            r.subject is None,
            r.reply_to is None,
            r.correlation_id is None,
            r.content_type is None,
            r.content_encoding is None,
            r.absolute_expiry_time is None,
            r.creation_time is None,
            r.group_id is None,
            r.group_sequence is None,
            r.reply_to_group_id is None,
    {
        Properties {
            message_id: None,
            user_id: None,
            to: None,
            subject: None,
            reply_to: None,
            correlation_id: None,
            content_type: None,
            content_encoding: None,
            absolute_expiry_time: None,
            creation_time: None,
            group_id: None,
            group_sequence: None,
            reply_to_group_id: None,
        }
    }
}

pub open spec fn enc_properties_fields(v: PropertiesV) -> Seq<u8> {
    enc_opt_str(v.message_id) + enc_opt_bin(v.user_id) + enc_opt_str(v.to) + enc_opt_str(v.subject) + enc_opt_str(v.reply_to) + enc_opt_str(v.correlation_id) + enc_opt_str(v.content_type) + enc_opt_str(v.content_encoding) + enc_opt_i64(v.absolute_expiry_time) + enc_opt_i64(v.creation_time) + enc_opt_str(v.group_id) + enc_opt_u32(v.group_sequence) + (enc_opt_str(v.reply_to_group_id))
}

pub open spec fn enc_properties_fields_ok(v: PropertiesV) -> bool {
    &&& enc_opt_str_ok(v.message_id)
    &&& enc_opt_bin_ok(v.user_id)
    &&& enc_opt_str_ok(v.to)
    &&& enc_opt_str_ok(v.subject)
    &&& enc_opt_str_ok(v.reply_to)
    &&& enc_opt_str_ok(v.correlation_id)
    &&& enc_opt_str_ok(v.content_type)
    &&& enc_opt_str_ok(v.content_encoding)
    &&& enc_opt_str_ok(v.group_id)
    &&& enc_opt_str_ok(v.reply_to_group_id)
}

pub open spec fn enc_properties(v: PropertiesV) -> Seq<u8> {
    enc_composite(0x73, 13, enc_properties_fields(v))
}

pub open spec fn enc_properties_ok(v: PropertiesV) -> bool {
    enc_properties_fields_ok(v) && enc_compound_ok(enc_properties_fields(v))
}

#[verifier::opaque]
pub open spec fn dec_properties_fields(ctor: Option<u8>, w: Seq<u8>) -> Result<
    (PropertiesV, Seq<u8>),
    Error,
> {
    match dec_opt_str(ctor, w) {
        Err(e) => Err(e),
        Ok((message_id, w1)) =>
        match dec_opt_bin(ctor, w1) {
            Err(e) => Err(e),
            Ok((user_id, w2)) =>
            match dec_opt_str(ctor, w2) {
                Err(e) => Err(e),
                Ok((to, w3)) =>
                match dec_opt_str(ctor, w3) {
                    Err(e) => Err(e),
                    Ok((subject, w4)) =>
                    match dec_opt_str(ctor, w4) {
                        Err(e) => Err(e),
                        Ok((reply_to, w5)) =>
                        match dec_opt_str(ctor, w5) {
                            Err(e) => Err(e),
                            Ok((correlation_id, w6)) =>
                            match dec_opt_str(ctor, w6) {
                                Err(e) => Err(e),
                                Ok((content_type, w7)) =>
                                match dec_opt_str(ctor, w7) {
                                    Err(e) => Err(e),
                                    Ok((content_encoding, w8)) =>
                                    match dec_opt_i64(w8) {
                                        Err(e) => Err(e),
                                        Ok((absolute_expiry_time, w9)) =>
                                        match dec_opt_i64(w9) {
                                            Err(e) => Err(e),
                                            Ok((creation_time, w10)) =>
                                            match dec_opt_str(ctor, w10) {
                                                Err(e) => Err(e),
                                                Ok((group_id, w11)) =>
                                                match dec_opt_u32(w11) {
                                                    Err(e) => Err(e),
                                                    Ok((group_sequence, w12)) =>
                                                    match dec_opt_str(ctor, w12) {
                                                        Err(e) => Err(e),
                                                        Ok((reply_to_group_id, w13)) =>
                                                        Ok((PropertiesV {
                                                            message_id,
                                                            user_id,
                                                            to,
                                                            subject,
                                                            reply_to,
                                                            correlation_id,
                                                            content_type,
                                                            content_encoding,
                                                            absolute_expiry_time,
                                                            creation_time,
                                                            group_id,
                                                            group_sequence,
                                                            reply_to_group_id,
                                                        }, w13))
                                                        ,
                                                    }
                                                    ,
                                                }
                                                ,
                                            }
                                            ,
                                        }
                                        ,
                                    }
                                    ,
                                }
                                ,
                            }
                            ,
                        }
                        ,
                    }
                    ,
                }
                ,
            }
            ,
        }
        ,
    }
}

#[verifier::opaque]
pub open spec fn dec_properties_body(c: Option<u8>, s: Seq<u8>) -> Result<(PropertiesV, Seq<u8>), Error> {
    match dec_maybe_desc(c, s) {
        Err(e) => Err(e),
        Ok(s0) => match dec_compound(s0) {
            Err(e) => Err(e),
            Ok(((size, _count, ctor), s1)) => if s1.len() < size {
                Err(Error::UnexpectedEnd)
            } else {
                match dec_properties_fields(ctor, s1.take(size as int)) {
                    Err(e) => Err(e),
                    Ok((v, _leftover)) => Ok((v, s1.skip(size as int))),
                }
            },
        },
    }
}

impl Properties {
    #[verifier::rlimit(100)]
    #[verifier::spinoff_prover]
    pub fn encode(&self, s: &mut Serializer) -> (r: Result<(), Error>)
        ensures
            match r {
                Ok(()) => enc_properties_ok(self@) && final(s).bytes() == old(s).bytes()
                    + enc_properties(self@),
                Err(e) => !enc_properties_ok(self@) && e == Error::InvalidData && *final(s)
                    == *old(s),
            },
    {
        let mut f = Serializer::new();
        f.serialize_opt_str(&self.message_id)?;
        f.serialize_opt_bytes(&self.user_id)?;
        f.serialize_opt_str(&self.to)?;
        f.serialize_opt_str(&self.subject)?;
        f.serialize_opt_str(&self.reply_to)?;
        f.serialize_opt_str(&self.correlation_id)?;
        f.serialize_opt_str(&self.content_type)?;
        f.serialize_opt_str(&self.content_encoding)?;
        f.serialize_opt_i64(&self.absolute_expiry_time);
        f.serialize_opt_i64(&self.creation_time);
        f.serialize_opt_str(&self.group_id)?;
        f.serialize_opt_u32(&self.group_sequence);
        f.serialize_opt_str(&self.reply_to_group_id)?;
        proof {
            assert(f.bytes() =~= enc_properties_fields(self@));
        }
        write_composite(s, 0x73, 13, &f.output)
    }

    pub fn decode_fields(w: &mut Deserializer) -> (r: Result<Properties, Error>)
        requires
            old(w).wf(),
        ensures
            stepped(*old(w), *final(w)),
            match r {
                Ok(v) => dec_properties_fields(old(w).constructor, old(w).remaining()) == Ok::<
                    _,
                    Error,
                >((v@, final(w).remaining())),
                Err(e) => dec_properties_fields(old(w).constructor, old(w).remaining()) == Err::<
                    (PropertiesV, Seq<u8>),
                    Error,
                >(e),
            },
    {
        proof {
            reveal(dec_properties_fields);
        }
        let message_id = w.parse_opt_str()?;
        let user_id = w.parse_opt_bytes()?;
        let to = w.parse_opt_str()?;
        let subject = w.parse_opt_str()?;
        let reply_to = w.parse_opt_str()?;
        let correlation_id = w.parse_opt_str()?;
        let content_type = w.parse_opt_str()?;
        let content_encoding = w.parse_opt_str()?;
        let absolute_expiry_time = w.parse_opt_i64()?;
        let creation_time = w.parse_opt_i64()?;
        let group_id = w.parse_opt_str()?;
        let group_sequence = w.parse_opt_u32()?;
        let reply_to_group_id = w.parse_opt_str()?;
        Ok(Properties {
            message_id,
            user_id,
            to,
            subject,
            reply_to,
            correlation_id,
            content_type,
            content_encoding,
            absolute_expiry_time,
            creation_time,
            group_id,
            group_sequence,
            reply_to_group_id,
        })
    }

    pub fn decode_body(d: &mut Deserializer) -> (r: Result<Properties, Error>)
        requires
            old(d).wf(),
        ensures
            stepped(*old(d), *final(d)),
            match r {
                Ok(v) => dec_properties_body(old(d).constructor, old(d).remaining()) == Ok::<
                    _,
                    Error,
                >((v@, final(d).remaining())),
                Err(e) => dec_properties_body(old(d).constructor, old(d).remaining()) == Err::<
                    (PropertiesV, Seq<u8>),
                    Error,
                >(e),
            },
    {
        proof {
            reveal(dec_properties_body);
        }
        d.skip_redundant_descriptor()?;
        let (size, _count, ctor) = d.composite()?;
        let mut w = d.window(size, ctor)?;
        match Properties::decode_fields(&mut w) {
            Ok(v) => Ok(v),
            Err(e) => Err(e),
        }
    }
}

// ---------------------------------------------------------------------------
// Message sections and the body choice
// ---------------------------------------------------------------------------
/// Delivery annotations: a map of string keys to string values.
#[derive(Clone, Debug, PartialEq, Eq)]
pub struct DeliveryAnnotations(pub Vec<(Vec<u8>, Vec<u8>)>);

impl View for DeliveryAnnotations {
    type V = Seq<(Seq<u8>, Seq<u8>)>;

    open spec fn view(&self) -> Seq<(Seq<u8>, Seq<u8>)> {
        view_elems(self.0@)
    }
}

/// Message annotations: a map of string keys to dynamic values.
#[derive(Clone, Debug, PartialEq, Eq)]
pub struct MessageAnnotations(pub Vec<(Vec<u8>, Any)>);

impl View for MessageAnnotations {
    type V = Seq<(Seq<u8>, AnyV)>;

    open spec fn view(&self) -> Seq<(Seq<u8>, AnyV)> {
        view_elems(self.0@)
    }
}

/// Application properties: a map of string keys to dynamic values.
#[derive(Clone, Debug, PartialEq, Eq)]
pub struct ApplicationProperties(pub Vec<(Vec<u8>, Any)>);

impl View for ApplicationProperties {
    type V = Seq<(Seq<u8>, AnyV)>;

    open spec fn view(&self) -> Seq<(Seq<u8>, AnyV)> {
        view_elems(self.0@)
    }
}

/// The footer section: a map of string keys to string values.
#[derive(Clone, Debug, PartialEq, Eq)]
pub struct Footer(pub Vec<(Vec<u8>, Vec<u8>)>);

impl View for Footer {
    type V = Seq<(Seq<u8>, Seq<u8>)>;

    open spec fn view(&self) -> Seq<(Seq<u8>, Seq<u8>)> {
        view_elems(self.0@)
    }
}

/// An opaque binary body section.
#[derive(Clone, Debug, PartialEq, Eq, Default)]
pub struct Data(pub Vec<u8>);

impl View for Data {
    type V = Seq<u8>;

    open spec fn view(&self) -> Seq<u8> {
        self.0@
    }
}

/// An empty sequence body section.
#[derive(Clone, Copy, Debug, PartialEq, Eq, Structural, Default)]
pub struct Sequence {}

/// A single-value body section.
#[derive(Clone, Debug, PartialEq, Eq)]
pub struct Value(pub Any);

impl View for Value {
    type V = AnyV;

    open spec fn view(&self) -> AnyV {
        self.0@
    }
}

/// A map section: a descriptor followed directly by a map compound.
pub open spec fn enc_str_map_section(code: u64, v: Seq<(Seq<u8>, Seq<u8>)>) -> Seq<u8> {
    enc_desc_code(code) + enc_elem_map::<(Vec<u8>, Vec<u8>)>(v)
}

pub open spec fn enc_any_map_section(code: u64, v: Seq<(Seq<u8>, AnyV)>) -> Seq<u8> {
    enc_desc_code(code) + enc_elem_map::<(Vec<u8>, Any)>(v)
}

pub open spec fn enc_delivery_annotations(v: Seq<(Seq<u8>, Seq<u8>)>) -> Seq<u8> {
    enc_str_map_section(0x71, v)
}

pub open spec fn enc_message_annotations(v: Seq<(Seq<u8>, AnyV)>) -> Seq<u8> {
    enc_any_map_section(0x72, v)
}

pub open spec fn enc_application_properties(v: Seq<(Seq<u8>, AnyV)>) -> Seq<u8> {
    enc_any_map_section(0x74, v)
}

pub open spec fn enc_footer(v: Seq<(Seq<u8>, Seq<u8>)>) -> Seq<u8> {
    enc_str_map_section(0x78, v)
}

pub open spec fn enc_data(v: Seq<u8>) -> Seq<u8> {
    enc_desc_code(0x75) + enc_bin(v)
}

pub open spec fn enc_sequence() -> Seq<u8> {
    enc_empty_composite(0x76)
}

pub open spec fn enc_value(v: AnyV) -> Seq<u8> {
    enc_desc_code(0x77) + enc_any(v)
}

impl DeliveryAnnotations {
    #[verifier::rlimit(100)]
    #[verifier::spinoff_prover]
    pub fn encode(&self, s: &mut Serializer) -> (r: Result<(), Error>)
        ensures
            match r {
                Ok(()) => enc_elem_map_ok::<(Vec<u8>, Vec<u8>)>(self@) && final(s).bytes() == old(
                    s,
                ).bytes() + enc_delivery_annotations(self@),
                Err(e) => !enc_elem_map_ok::<(Vec<u8>, Vec<u8>)>(self@) && e == Error::InvalidData
                    && *final(s) == *old(s),
            },
    {
        let mut f = Serializer::new();
        encode_elem_map::<(Vec<u8>, Vec<u8>)>(&mut f, &self.0)?;
        s.serialize_descriptor_code(0x71);
        s.write_raw(f.output.as_slice());
        Ok(())
    }

    pub fn decode_body(d: &mut Deserializer) -> (r: Result<DeliveryAnnotations, Error>)
        requires
            old(d).wf(),
        ensures
            stepped(*old(d), *final(d)),
            match r {
                Ok(v) => dec_elem_map::<(Vec<u8>, Vec<u8>)>(old(d).remaining()) == Ok::<_, Error>(
                    (v@, final(d).remaining()),
                ),
                Err(e) => dec_elem_map::<(Vec<u8>, Vec<u8>)>(old(d).remaining()) == Err::<
                    (Seq<(Seq<u8>, Seq<u8>)>, Seq<u8>),
                    Error,
                >(e),
            },
    {
        let v = parse_elem_map::<(Vec<u8>, Vec<u8>)>(d)?;
        Ok(DeliveryAnnotations(v))
    }
}

impl MessageAnnotations {
    #[verifier::rlimit(100)]
    #[verifier::spinoff_prover]
    pub fn encode(&self, s: &mut Serializer) -> (r: Result<(), Error>)
        ensures
            match r {
                Ok(()) => enc_elem_map_ok::<(Vec<u8>, Any)>(self@) && final(s).bytes() == old(
                    s,
                ).bytes() + enc_message_annotations(self@),
                Err(e) => !enc_elem_map_ok::<(Vec<u8>, Any)>(self@) && e == Error::InvalidData
                    && *final(s) == *old(s),
            },
    {
        let mut f = Serializer::new();
        encode_elem_map::<(Vec<u8>, Any)>(&mut f, &self.0)?;
        s.serialize_descriptor_code(0x72);
        s.write_raw(f.output.as_slice());
        Ok(())
    }

    pub fn decode_body(d: &mut Deserializer) -> (r: Result<MessageAnnotations, Error>)
        requires
            old(d).wf(),
        ensures
            stepped(*old(d), *final(d)),
            match r {
                Ok(v) => dec_elem_map::<(Vec<u8>, Any)>(old(d).remaining()) == Ok::<_, Error>((
                    v@,
                    final(d).remaining(),
                )),
                Err(e) => dec_elem_map::<(Vec<u8>, Any)>(old(d).remaining()) == Err::<
                    (Seq<(Seq<u8>, AnyV)>, Seq<u8>),
                    Error,
                >(e),
            },
    {
        let v = parse_elem_map::<(Vec<u8>, Any)>(d)?;
        Ok(MessageAnnotations(v))
    }
}

impl ApplicationProperties {
    #[verifier::rlimit(100)]
    #[verifier::spinoff_prover]
    pub fn encode(&self, s: &mut Serializer) -> (r: Result<(), Error>)
        ensures
            match r {
                Ok(()) => enc_elem_map_ok::<(Vec<u8>, Any)>(self@) && final(s).bytes() == old(
                    s,
                ).bytes() + enc_application_properties(self@),
                Err(e) => !enc_elem_map_ok::<(Vec<u8>, Any)>(self@) && e == Error::InvalidData
                    && *final(s) == *old(s),
            },
    {
        let mut f = Serializer::new();
        encode_elem_map::<(Vec<u8>, Any)>(&mut f, &self.0)?;
        s.serialize_descriptor_code(0x74);
        s.write_raw(f.output.as_slice());
        Ok(())
    }

    pub fn decode_body(d: &mut Deserializer) -> (r: Result<ApplicationProperties, Error>)
        requires
            old(d).wf(),
        ensures
            stepped(*old(d), *final(d)),
            match r {
                Ok(v) => dec_elem_map::<(Vec<u8>, Any)>(old(d).remaining()) == Ok::<_, Error>((
                    v@,
                    final(d).remaining(),
                )),
                Err(e) => dec_elem_map::<(Vec<u8>, Any)>(old(d).remaining()) == Err::<
                    (Seq<(Seq<u8>, AnyV)>, Seq<u8>),
                    Error,
                >(e),
            },
    {
        let v = parse_elem_map::<(Vec<u8>, Any)>(d)?;
        Ok(ApplicationProperties(v))
    }
}

impl Footer {
    #[verifier::rlimit(100)]
    #[verifier::spinoff_prover]
    pub fn encode(&self, s: &mut Serializer) -> (r: Result<(), Error>)
        ensures
            match r {
                Ok(()) => enc_elem_map_ok::<(Vec<u8>, Vec<u8>)>(self@) && final(s).bytes() == old(
                    s,
                ).bytes() + enc_footer(self@),
                Err(e) => !enc_elem_map_ok::<(Vec<u8>, Vec<u8>)>(self@) && e == Error::InvalidData
                    && *final(s) == *old(s),
            },
    {
        let mut f = Serializer::new();
        encode_elem_map::<(Vec<u8>, Vec<u8>)>(&mut f, &self.0)?;
        s.serialize_descriptor_code(0x78);
        s.write_raw(f.output.as_slice());
        Ok(())
    }

    pub fn decode_body(d: &mut Deserializer) -> (r: Result<Footer, Error>)
        requires
            old(d).wf(),
        ensures
            stepped(*old(d), *final(d)),
            match r {
                Ok(v) => dec_elem_map::<(Vec<u8>, Vec<u8>)>(old(d).remaining()) == Ok::<_, Error>(
                    (v@, final(d).remaining()),
                ),
                Err(e) => dec_elem_map::<(Vec<u8>, Vec<u8>)>(old(d).remaining()) == Err::<
                    (Seq<(Seq<u8>, Seq<u8>)>, Seq<u8>),
                    Error,
                >(e),
            },
    {
        let v = parse_elem_map::<(Vec<u8>, Vec<u8>)>(d)?;
        Ok(Footer(v))
    }
}

/// The message body: a tagged choice over Data, Sequence and Value,
/// discriminated by the described code.
#[derive(Clone, Debug, PartialEq, Eq)]
pub enum Body {
    Data(Data),
    Sequence(Sequence),
    Value(Value),
}

pub enum BodyV {
    Data(Seq<u8>),
    Sequence,
    Value(AnyV),
}

impl View for Body {
    type V = BodyV;

    open spec fn view(&self) -> BodyV {
        match self {
            Body::Data(x) => BodyV::Data(x@),
            Body::Sequence(_) => BodyV::Sequence,
            Body::Value(x) => BodyV::Value(x@),
        }
    }
}

pub open spec fn enc_body(v: BodyV) -> Seq<u8> {
    match v {
        BodyV::Data(x) => enc_data(x),
        BodyV::Sequence => enc_sequence(),
        BodyV::Value(x) => enc_value(x),
    }
}

pub open spec fn enc_body_ok(v: BodyV) -> bool {
    match v {
        BodyV::Data(x) => enc_var_ok(x),
        BodyV::Sequence => true,
        BodyV::Value(x) => enc_any_ok(x),
    }
}

#[verifier::opaque]
pub open spec fn dec_body(s: Seq<u8>) -> Result<(BodyV, Seq<u8>), Error> {
    match dec_descriptor(None, s) {
        Err(e) => Err(e),
        Ok((dsc, s1)) => if desc_matches(dsc, 0x75, name_data()) {
            match dec_bin(None, s1) {
                Err(e) => Err(e),
                Ok((v, r)) => Ok((BodyV::Data(v), r)),
            }
        } else if desc_matches(dsc, 0x76, name_sequence()) {
            match dec_skip_compound(None, s1) {
                Err(e) => Err(e),
                Ok(r) => Ok((BodyV::Sequence, r)),
            }
        } else if desc_matches(dsc, 0x77, name_value()) {
            match dec_any(s1) {
                Err(e) => Err(e),
                Ok((v, r)) => Ok((BodyV::Value(v), r)),
            }
        } else {
            Err(Error::InvalidData)
        },
    }
}

impl Body {
    #[verifier::rlimit(100)]
    #[verifier::spinoff_prover]
    pub fn encode(&self, s: &mut Serializer) -> (r: Result<(), Error>)
        ensures
            match r {
                Ok(()) => enc_body_ok(self@) && final(s).bytes() == old(s).bytes() + enc_body(
                    self@,
                ),
                Err(e) => !enc_body_ok(self@) && e == Error::InvalidData && *final(s) == *old(s),
            },
    {
        match self {
            Body::Data(x) => {
                if x.0.len() > 0xFFFF_FFFEusize {
                    return Err(Error::InvalidData);
                }
                s.serialize_descriptor_code(0x75);
                match s.serialize_bytes(x.0.as_slice()) {
                    Ok(()) => Ok(()),
                    Err(e) => {
                        proof {
                            assert(false);
                        }
                        Err(e)
                    },
                }
            },
            Body::Sequence(_) => {
                encode_empty_composite(s, 0x76);
                Ok(())
            },
            Body::Value(x) => {
                if !any_fits(&x.0) {
                    return Err(Error::InvalidData);
                }
                s.serialize_descriptor_code(0x77);
                match x.0.encode(s) {
                    Ok(()) => Ok(()),
                    Err(e) => {
                        proof {
                            assert(false);
                        }
                        Err(e)
                    },
                }
            },
        }
    }

    pub fn decode(d: &mut Deserializer) -> (r: Result<Body, Error>)
        requires
            old(d).wf(),
            old(d).constructor == None::<u8>,
        ensures
            stepped(*old(d), *final(d)),
            match r {
                Ok(v) => dec_body(old(d).remaining()) == Ok::<_, Error>((
                    v@,
                    final(d).remaining(),
                )),
                Err(e) => dec_body(old(d).remaining()) == Err::<(BodyV, Seq<u8>), Error>(e),
            },
    {
        proof {
            reveal(dec_body);
        }
        let dsc = d.parse_descriptor()?;
        let a = name_data_arr();
        if descriptor_matches(&dsc, 0x75, a.as_slice()) {
            let v = d.parse_bytes()?;
            return Ok(Body::Data(Data(v)));
        }
        let a = name_sequence_arr();
        if descriptor_matches(&dsc, 0x76, a.as_slice()) {
            skip_compound(d)?;
            return Ok(Body::Sequence(Sequence {}));
        }
        let a = name_value_arr();
        if descriptor_matches(&dsc, 0x77, a.as_slice()) {
            let v = Any::decode(d)?;
            return Ok(Body::Value(Value(v)));
        }
        Err(Error::InvalidData)
    }
}

// ---------------------------------------------------------------------------
// The performative choice
// ---------------------------------------------------------------------------
/// One of the protocol verbs that drive connection, session and link state.
#[derive(Clone, Debug, PartialEq, Eq)]
pub enum Performative {
    Open(Open),
    Begin(Begin),
    Attach(Attach),
    Flow(Flow),
    Transfer(Transfer),
    Disposition(Disposition),
    Detach(Detach),
    Close(Close),
}

pub enum PerformativeV {
    Open(OpenV),
    Begin(BeginV),
    Attach(AttachV),
    Flow(FlowV),
    Transfer(TransferV),
    Disposition(DispositionV),
    Detach(DetachV),
    Close(CloseV),
}

impl View for Performative {
    type V = PerformativeV;

    open spec fn view(&self) -> PerformativeV {
        match self {
            Performative::Open(x) => PerformativeV::Open(x@),
            Performative::Begin(x) => PerformativeV::Begin(x@),
            Performative::Attach(x) => PerformativeV::Attach(x@),
            Performative::Flow(x) => PerformativeV::Flow(x@),
            Performative::Transfer(x) => PerformativeV::Transfer(x@),
            Performative::Disposition(x) => PerformativeV::Disposition(x@),
            Performative::Detach(x) => PerformativeV::Detach(x@),
            Performative::Close(x) => PerformativeV::Close(x@),
        }
    }
}

pub open spec fn enc_performative(v: PerformativeV) -> Seq<u8> {
    match v {
        PerformativeV::Open(x) => enc_open(x),
        PerformativeV::Begin(x) => enc_begin(x),
        PerformativeV::Attach(x) => enc_attach(x),
        PerformativeV::Flow(x) => enc_flow(x),
        PerformativeV::Transfer(x) => enc_transfer(x),
        PerformativeV::Disposition(x) => enc_disposition(x),
        PerformativeV::Detach(x) => enc_detach(x),
        PerformativeV::Close(x) => enc_close(x),
    }
}

pub open spec fn enc_performative_ok(v: PerformativeV) -> bool {
    match v {
        PerformativeV::Open(x) => enc_open_ok(x),
        PerformativeV::Begin(x) => enc_begin_ok(x),
        PerformativeV::Attach(x) => enc_attach_ok(x),
        PerformativeV::Flow(x) => enc_flow_ok(x),
        PerformativeV::Transfer(x) => enc_transfer_ok(x),
        PerformativeV::Disposition(x) => enc_disposition_ok(x),
        PerformativeV::Detach(x) => enc_detach_ok(x),
        PerformativeV::Close(x) => enc_close_ok(x),
    }
}

/// Polymorphic dispatch: one descriptor is read and compared with each
/// variant's code, numeric codes first, then names; unknown descriptors are
/// invalid data.
#[verifier::opaque]
pub open spec fn dec_performative(s: Seq<u8>) -> Result<(PerformativeV, Seq<u8>), Error> {
    match dec_descriptor(None, s) {
        Err(e) => Err(e),
        Ok((dsc, s1)) => if desc_matches(dsc, 0x10, name_open()) {
            match dec_open_body(None, s1) {
                Err(e) => Err(e),
                Ok((v, r)) => Ok((PerformativeV::Open(v), r)),
            }
        } else if desc_matches(dsc, 0x11, name_begin()) {
            match dec_begin_body(None, s1) {
                Err(e) => Err(e),
                Ok((v, r)) => Ok((PerformativeV::Begin(v), r)),
            }
        } else if desc_matches(dsc, 0x12, name_attach()) {
            match dec_attach_body(None, s1) {
                Err(e) => Err(e),
                Ok((v, r)) => Ok((PerformativeV::Attach(v), r)),
            }
        } else if desc_matches(dsc, 0x13, name_flow()) {
            match dec_flow_body(None, s1) {
                Err(e) => Err(e),
                Ok((v, r)) => Ok((PerformativeV::Flow(v), r)),
            }
        } else if desc_matches(dsc, 0x14, name_transfer()) {
            match dec_transfer_body(None, s1) {
                Err(e) => Err(e),
                Ok((v, r)) => Ok((PerformativeV::Transfer(v), r)),
            }
        } else if desc_matches(dsc, 0x15, name_disposition()) {
            match dec_disposition_body(None, s1) {
                Err(e) => Err(e),
                Ok((v, r)) => Ok((PerformativeV::Disposition(v), r)),
            }
        } else if desc_matches(dsc, 0x16, name_detach()) {
            match dec_detach_body(None, s1) {
                Err(e) => Err(e),
                Ok((v, r)) => Ok((PerformativeV::Detach(v), r)),
            }
        } else if desc_matches(dsc, 0x18, name_close()) {
            match dec_close_body(None, s1) {
                Err(e) => Err(e),
                Ok((v, r)) => Ok((PerformativeV::Close(v), r)),
            }
        } else {
            Err(Error::InvalidData)
        },
    }
}

impl Performative {
    #[verifier::rlimit(100)]
    #[verifier::spinoff_prover]
    pub fn encode(&self, s: &mut Serializer) -> (r: Result<(), Error>)
        ensures
            match r {
                Ok(()) => enc_performative_ok(self@) && final(s).bytes() == old(s).bytes()
                    + enc_performative(self@),
                Err(e) => !enc_performative_ok(self@) && e == Error::InvalidData && *final(s)
                    == *old(s),
            },
    {
        match self {
            Performative::Open(x) => x.encode(s),
            Performative::Begin(x) => x.encode(s),
            Performative::Attach(x) => x.encode(s),
            Performative::Flow(x) => x.encode(s),
            Performative::Transfer(x) => x.encode(s),
            Performative::Disposition(x) => x.encode(s),
            Performative::Detach(x) => x.encode(s),
            Performative::Close(x) => x.encode(s),
        }
    }

    #[verifier::rlimit(100)]
    #[verifier::spinoff_prover]
    pub fn decode(d: &mut Deserializer) -> (r: Result<Performative, Error>)
        requires
            old(d).wf(),
            old(d).constructor == None::<u8>,
        ensures
            stepped(*old(d), *final(d)),
            match r {
                Ok(v) => dec_performative(old(d).remaining()) == Ok::<_, Error>((
                    v@,
                    final(d).remaining(),
                )),
                Err(e) => dec_performative(old(d).remaining()) == Err::<
                    (PerformativeV, Seq<u8>),
                    Error,
                >(e),
            },
    {
        proof {
            reveal(dec_performative);
        }
        let dsc = d.parse_descriptor()?;
        let a = name_open_arr();
        if descriptor_matches(&dsc, 0x10, a.as_slice()) {
            let v = Open::decode_body(d)?;
            return Ok(Performative::Open(v));
        }
        let a = name_begin_arr();
        if descriptor_matches(&dsc, 0x11, a.as_slice()) {
            let v = Begin::decode_body(d)?;
            return Ok(Performative::Begin(v));
        }
        let a = name_attach_arr();
        if descriptor_matches(&dsc, 0x12, a.as_slice()) {
            let v = Attach::decode_body(d)?;
            return Ok(Performative::Attach(v));
        }
        let a = name_flow_arr();
        if descriptor_matches(&dsc, 0x13, a.as_slice()) {
            let v = Flow::decode_body(d)?;
            return Ok(Performative::Flow(v));
        }
        let a = name_transfer_arr();
        if descriptor_matches(&dsc, 0x14, a.as_slice()) {
            let v = Transfer::decode_body(d)?;
            return Ok(Performative::Transfer(v));
        }
        let a = name_disposition_arr();
        if descriptor_matches(&dsc, 0x15, a.as_slice()) {
            let v = Disposition::decode_body(d)?;
            return Ok(Performative::Disposition(v));
        }
        let a = name_detach_arr();
        if descriptor_matches(&dsc, 0x16, a.as_slice()) {
            let v = Detach::decode_body(d)?;
            return Ok(Performative::Detach(v));
        }
        let a = name_close_arr();
        if descriptor_matches(&dsc, 0x18, a.as_slice()) {
            let v = Close::decode_body(d)?;
            return Ok(Performative::Close(v));
        }
        Err(Error::InvalidData)
    }
}

// ---------------------------------------------------------------------------
// The message: an ordered run of optional described sections
// ---------------------------------------------------------------------------
/// An ordered concatenation of at most seven described sections; the order
/// is fixed and every section is optional.
#[derive(Clone, Debug, PartialEq, Eq)]
pub struct Message {
    pub header: Option<Header>,
    pub delivery_annotations: Option<DeliveryAnnotations>,
    pub message_annotations: Option<MessageAnnotations>,
    pub properties: Option<Properties>,
    pub application_properties: Option<ApplicationProperties>,
    pub body: Option<Body>,
    pub footer: Option<Footer>,
}

pub struct MessageV {
    pub header: Option<HeaderV>,
    pub delivery_annotations: Option<Seq<(Seq<u8>, Seq<u8>)>>,
    pub message_annotations: Option<Seq<(Seq<u8>, AnyV)>>,
    pub properties: Option<PropertiesV>,
    pub application_properties: Option<Seq<(Seq<u8>, AnyV)>>,
    pub body: Option<BodyV>,
    pub footer: Option<Seq<(Seq<u8>, Seq<u8>)>>,
}

impl View for Message {
    type V = MessageV;

    open spec fn view(&self) -> MessageV {
        MessageV {
            header: view_opt(self.header),
            delivery_annotations: view_opt(self.delivery_annotations),
            message_annotations: view_opt(self.message_annotations),
            properties: view_opt(self.properties),
            application_properties: view_opt(self.application_properties),
            body: view_opt(self.body),
            footer: view_opt(self.footer),
        }
    }
}

impl Default for Message {
    fn default() -> (r: Message)
        ensures
            r.header is None,
            r.delivery_annotations is None,
            r.message_annotations is None,
            r.properties is None,
            r.application_properties is None,
            r.body is None,
            r.footer is None,
    {
        Message {
            header: None,
            delivery_annotations: None,
            message_annotations: None,
            properties: None,
            application_properties: None,
            body: None,
            footer: None,
        }
    }
}

/// The sections present, encoded in their fixed order; an absent section
/// contributes no bytes.
pub open spec fn enc_message(v: MessageV) -> Seq<u8> {
    (match v.header {
        Some(x) => enc_header(x),
        None => Seq::empty(),
    }) + (match v.delivery_annotations {
        Some(x) => enc_delivery_annotations(x),
        None => Seq::empty(),
    }) + (match v.message_annotations {
        Some(x) => enc_message_annotations(x),
        None => Seq::empty(),
    }) + (match v.properties {
        Some(x) => enc_properties(x),
        None => Seq::empty(),
    }) + (match v.application_properties {
        Some(x) => enc_application_properties(x),
        None => Seq::empty(),
    }) + (match v.body {
        Some(x) => enc_body(x),
        None => Seq::empty(),
    }) + (match v.footer {
        Some(x) => enc_footer(x),
        None => Seq::empty(),
    })
}

pub open spec fn enc_message_ok(v: MessageV) -> bool {
    &&& match v.header {
        Some(x) => enc_header_ok(x),
        None => true,
    }
    &&& match v.delivery_annotations {
        Some(x) => enc_elem_map_ok::<(Vec<u8>, Vec<u8>)>(x),
        None => true,
    }
    &&& match v.message_annotations {
        Some(x) => enc_elem_map_ok::<(Vec<u8>, Any)>(x),
        None => true,
    }
    &&& match v.properties {
        Some(x) => enc_properties_ok(x),
        None => true,
    }
    &&& match v.application_properties {
        Some(x) => enc_elem_map_ok::<(Vec<u8>, Any)>(x),
        None => true,
    }
    &&& match v.body {
        Some(x) => enc_body_ok(x),
        None => true,
    }
    &&& match v.footer {
        Some(x) => enc_elem_map_ok::<(Vec<u8>, Vec<u8>)>(x),
        None => true,
    }
}

/// The descriptor ahead of the next section, or the previous one kept when
/// the input is exhausted.
pub open spec fn msg_next_desc(d: DescriptorV, s: Seq<u8>) -> Result<
    (DescriptorV, Seq<u8>),
    Error,
> {
    if s.len() == 0 {
        Ok((d, s))
    } else {
        dec_descriptor(None, s)
    }
}

/// Decoding a message walks the sections in their fixed order, matching the
/// pre-read descriptor against each section's code or name and skipping the
/// sections that are absent. The body is mandatory.
#[verifier::opaque]
pub open spec fn dec_message(s: Seq<u8>) -> Result<(MessageV, Seq<u8>), Error> {
    match dec_descriptor(None, s) {
        Err(e) => Err(e),
        Ok((d0, s0)) => match dec_msg_header(d0, s0) {
            Err(e) => Err(e),
            Ok((header, d1, s1)) => match dec_msg_da(d1, s1) {
                Err(e) => Err(e),
                Ok((delivery_annotations, d2, s2)) => match dec_msg_ma(d2, s2) {
                    Err(e) => Err(e),
                    Ok((message_annotations, d3, s3)) => match dec_msg_props(d3, s3) {
                        Err(e) => Err(e),
                        Ok((properties, d4, s4)) => match dec_msg_aps(d4, s4) {
                            Err(e) => Err(e),
                            Ok((application_properties, d5, s5)) => match dec_body(s5) {
                                Err(e) => Err(e),
                                Ok((body, s6)) => match msg_next_desc(d5, s6) {
                                    Err(e) => Err(e),
                                    Ok((d6, s7)) => match dec_msg_footer(d6, s7) {
                                        Err(e) => Err(e),
                                        Ok((footer, _d7, s8)) => Ok((
                                            MessageV {
                                                header,
                                                delivery_annotations,
                                                message_annotations,
                                                properties,
                                                application_properties,
                                                body: Some(body),
                                                footer,
                                            },
                                            s8,
                                        )),
                                    },
                                },
                            },
                        },
                    },
                },
            },
        },
    }
}

pub open spec fn dec_msg_header(d: DescriptorV, s: Seq<u8>) -> Result<
    (Option<HeaderV>, DescriptorV, Seq<u8>),
    Error,
> {
    if desc_matches(d, 0x70, name_header()) {
        match dec_header_body(None, s) {
            Err(e) => Err(e),
            Ok((v, s1)) => match msg_next_desc(d, s1) {
                Err(e) => Err(e),
                Ok((d2, s2)) => Ok((Some(v), d2, s2)),
            },
        }
    } else {
        Ok((None, d, s))
    }
}

pub open spec fn dec_msg_da(d: DescriptorV, s: Seq<u8>) -> Result<
    (Option<Seq<(Seq<u8>, Seq<u8>)>>, DescriptorV, Seq<u8>),
    Error,
> {
    if desc_matches(d, 0x71, name_delivery_annotations()) {
        match dec_elem_map::<(Vec<u8>, Vec<u8>)>(s) {
            Err(e) => Err(e),
            Ok((v, s1)) => match msg_next_desc(d, s1) {
                Err(e) => Err(e),
                Ok((d2, s2)) => Ok((Some(v), d2, s2)),
            },
        }
    } else {
        Ok((None, d, s))
    }
}

pub open spec fn dec_msg_ma(d: DescriptorV, s: Seq<u8>) -> Result<
    (Option<Seq<(Seq<u8>, AnyV)>>, DescriptorV, Seq<u8>),
    Error,
> {
    if desc_matches(d, 0x72, name_message_annotations()) {
        match dec_elem_map::<(Vec<u8>, Any)>(s) {
            Err(e) => Err(e),
            Ok((v, s1)) => match msg_next_desc(d, s1) {
                Err(e) => Err(e),
                Ok((d2, s2)) => Ok((Some(v), d2, s2)),
            },
        }
    } else {
        Ok((None, d, s))
    }
}

pub open spec fn dec_msg_props(d: DescriptorV, s: Seq<u8>) -> Result<
    (Option<PropertiesV>, DescriptorV, Seq<u8>),
    Error,
> {
    if desc_matches(d, 0x73, name_properties()) {
        match dec_properties_body(None, s) {
            Err(e) => Err(e),
            Ok((v, s1)) => match msg_next_desc(d, s1) {
                Err(e) => Err(e),
                Ok((d2, s2)) => Ok((Some(v), d2, s2)),
            },
        }
    } else {
        Ok((None, d, s))
    }
}

/// Application properties are read without pre-reading the next descriptor:
/// the body that follows reads its own.
pub open spec fn dec_msg_aps(d: DescriptorV, s: Seq<u8>) -> Result<
    (Option<Seq<(Seq<u8>, AnyV)>>, DescriptorV, Seq<u8>),
    Error,
> {
    if desc_matches(d, 0x74, name_application_properties()) {
        match dec_elem_map::<(Vec<u8>, Any)>(s) {
            Err(e) => Err(e),
            Ok((v, s1)) => Ok((Some(v), d, s1)),
        }
    } else {
        Ok((None, d, s))
    }
}

pub open spec fn dec_msg_footer(d: DescriptorV, s: Seq<u8>) -> Result<
    (Option<Seq<(Seq<u8>, Seq<u8>)>>, DescriptorV, Seq<u8>),
    Error,
> {
    if desc_matches(d, 0x78, name_footer()) {
        match dec_elem_map::<(Vec<u8>, Vec<u8>)>(s) {
            Err(e) => Err(e),
            Ok((v, s1)) => Ok((Some(v), d, s1)),
        }
    } else {
        Ok((None, d, s))
    }
}

/// Whether the pre-read descriptor in a section walk matches the given pair.
pub fn reader_matches(rd: &DescribedReader, code: u64, name: &[u8]) -> (r: bool)
    ensures
        r == (match rd@ {
            Some(dv) => desc_matches(dv, code, name@),
            None => false,
        }),
{
    match &rd.descriptor {
        Some(dsc) => descriptor_matches(dsc, code, name),
        None => false,
    }
}

impl Message {
    #[verifier::rlimit(100)]
    #[verifier::spinoff_prover]
    pub fn encode(&self, s: &mut Serializer) -> (r: Result<(), Error>)
        ensures
            match r {
                Ok(()) => enc_message_ok(self@) && final(s).bytes() == old(s).bytes()
                    + enc_message(self@),
                Err(e) => !enc_message_ok(self@) && e == Error::InvalidData && *final(s) == *old(
                    s,
                ),
            },
    {
        let mut f = Serializer::new();
        match &self.header {
            Some(x) => x.encode(&mut f)?,
            None => (),
        }
        match &self.delivery_annotations {
            Some(x) => x.encode(&mut f)?,
            None => (),
        }
        match &self.message_annotations {
            Some(x) => x.encode(&mut f)?,
            None => (),
        }
        match &self.properties {
            Some(x) => x.encode(&mut f)?,
            None => (),
        }
        match &self.application_properties {
            Some(x) => x.encode(&mut f)?,
            None => (),
        }
        match &self.body {
            Some(x) => x.encode(&mut f)?,
            None => (),
        }
        match &self.footer {
            Some(x) => x.encode(&mut f)?,
            None => (),
        }
        proof {
            assert(f.bytes() =~= enc_message(self@));
        }
        s.write_raw(f.output.as_slice());
        Ok(())
    }

    /// Reads the section run that follows a transfer performative; the
    /// leftover input, if any, is handed back untouched.
    pub fn decode(d: &mut Deserializer) -> (r: Result<Message, Error>)
        requires
            old(d).wf(),
            old(d).constructor == None::<u8>,
        ensures
            stepped(*old(d), *final(d)),
            match r {
                Ok(v) => dec_message(old(d).remaining()) == Ok::<_, Error>((
                    v@,
                    final(d).remaining(),
                )),
                Err(e) => dec_message(old(d).remaining()) == Err::<(MessageV, Seq<u8>), Error>(e),
            },
    {
        proof {
            reveal(dec_message);
        }
        let rd = d.reader()?;
        let cur = match rd.descriptor {
            Some(x) => x,
            None => {
                proof {
                    assert(false);
                }
                return Err(Error::InvalidData);
            },
        };
        let (header, cur) = msg_step_header(cur, d)?;
        let (delivery_annotations, cur) = msg_step_da(cur, d)?;
        let (message_annotations, cur) = msg_step_ma(cur, d)?;
        let (properties, cur) = msg_step_props(cur, d)?;
        let (application_properties, cur) = msg_step_aps(cur, d)?;
        let body = Body::decode(d)?;
        let cur = if d.at_end() {
            cur
        } else {
            d.parse_descriptor()?
        };
        let (footer, _last) = msg_step_footer(cur, d)?;
        Ok(Message {
            header,
            delivery_annotations,
            message_annotations,
            properties,
            application_properties,
            body: Some(body),
            footer,
        })
    }
}

/// One step of the section walk: the header section.
fn msg_step_header(cur: Descriptor, d: &mut Deserializer) -> (r: Result<
    (Option<Header>, Descriptor),
    Error,
>)
    requires
        old(d).wf(),
        old(d).constructor == None::<u8>,
    ensures
        stepped(*old(d), *final(d)),
        match r {
            Ok((v, nd)) => dec_msg_header(cur@, old(d).remaining()) == Ok::<_, Error>((
                view_opt(v),
                nd@,
                final(d).remaining(),
            )),
            Err(e) => dec_msg_header(cur@, old(d).remaining()) == Err::<
                (Option<HeaderV>, DescriptorV, Seq<u8>),
                Error,
            >(e),
        },
{
    let a = name_header_arr();
    if descriptor_matches(&cur, 0x70, a.as_slice()) {
        let v = Header::decode_body(d)?;
        if d.at_end() {
            Ok((Some(v), cur))
        } else {
            let nd = d.parse_descriptor()?;
            Ok((Some(v), nd))
        }
    } else {
        Ok((None, cur))
    }
}

/// One step of the section walk: delivery annotations.
fn msg_step_da(cur: Descriptor, d: &mut Deserializer) -> (r: Result<
    (Option<DeliveryAnnotations>, Descriptor),
    Error,
>)
    requires
        old(d).wf(),
        old(d).constructor == None::<u8>,
    ensures
        stepped(*old(d), *final(d)),
        match r {
            Ok((v, nd)) => dec_msg_da(cur@, old(d).remaining()) == Ok::<_, Error>((
                view_opt(v),
                nd@,
                final(d).remaining(),
            )),
            Err(e) => dec_msg_da(cur@, old(d).remaining()) == Err::<
                (Option<Seq<(Seq<u8>, Seq<u8>)>>, DescriptorV, Seq<u8>),
                Error,
            >(e),
        },
{
    let a = name_delivery_annotations_arr();
    if descriptor_matches(&cur, 0x71, a.as_slice()) {
        let v = DeliveryAnnotations::decode_body(d)?;
        if d.at_end() {
            Ok((Some(v), cur))
        } else {
            let nd = d.parse_descriptor()?;
            Ok((Some(v), nd))
        }
    } else {
        Ok((None, cur))
    }
}

/// One step of the section walk: message annotations.
fn msg_step_ma(cur: Descriptor, d: &mut Deserializer) -> (r: Result<
    (Option<MessageAnnotations>, Descriptor),
    Error,
>)
    requires
        old(d).wf(),
        old(d).constructor == None::<u8>,
    ensures
        stepped(*old(d), *final(d)),
        match r {
            Ok((v, nd)) => dec_msg_ma(cur@, old(d).remaining()) == Ok::<_, Error>((
                view_opt(v),
                nd@,
                final(d).remaining(),
            )),
            Err(e) => dec_msg_ma(cur@, old(d).remaining()) == Err::<
                (Option<Seq<(Seq<u8>, AnyV)>>, DescriptorV, Seq<u8>),
                Error,
            >(e),
        },
{
    let a = name_message_annotations_arr();
    if descriptor_matches(&cur, 0x72, a.as_slice()) {
        let v = MessageAnnotations::decode_body(d)?;
        if d.at_end() {
            Ok((Some(v), cur))
        } else {
            let nd = d.parse_descriptor()?;
            Ok((Some(v), nd))
        }
    } else {
        Ok((None, cur))
    }
}

/// One step of the section walk: the properties section.
fn msg_step_props(cur: Descriptor, d: &mut Deserializer) -> (r: Result<
    (Option<Properties>, Descriptor),
    Error,
>)
    requires
        old(d).wf(),
        old(d).constructor == None::<u8>,
    ensures
        stepped(*old(d), *final(d)),
        match r {
            Ok((v, nd)) => dec_msg_props(cur@, old(d).remaining()) == Ok::<_, Error>((
                view_opt(v),
                nd@,
                final(d).remaining(),
            )),
            Err(e) => dec_msg_props(cur@, old(d).remaining()) == Err::<
                (Option<PropertiesV>, DescriptorV, Seq<u8>),
                Error,
            >(e),
        },
{
    let a = name_properties_arr();
    if descriptor_matches(&cur, 0x73, a.as_slice()) {
        let v = Properties::decode_body(d)?;
        if d.at_end() {
            Ok((Some(v), cur))
        } else {
            let nd = d.parse_descriptor()?;
            Ok((Some(v), nd))
        }
    } else {
        Ok((None, cur))
    }
}

/// One step of the section walk: application properties, read without
/// pre-reading the next descriptor.
fn msg_step_aps(cur: Descriptor, d: &mut Deserializer) -> (r: Result<
    (Option<ApplicationProperties>, Descriptor),
    Error,
>)
    requires
        old(d).wf(),
        old(d).constructor == None::<u8>,
    ensures
        stepped(*old(d), *final(d)),
        match r {
            Ok((v, nd)) => dec_msg_aps(cur@, old(d).remaining()) == Ok::<_, Error>((
                view_opt(v),
                nd@,
                final(d).remaining(),
            )),
            Err(e) => dec_msg_aps(cur@, old(d).remaining()) == Err::<
                (Option<Seq<(Seq<u8>, AnyV)>>, DescriptorV, Seq<u8>),
                Error,
            >(e),
        },
{
    let a = name_application_properties_arr();
    if descriptor_matches(&cur, 0x74, a.as_slice()) {
        let v = ApplicationProperties::decode_body(d)?;
        Ok((Some(v), cur))
    } else {
        Ok((None, cur))
    }
}

/// One step of the section walk: the footer.
fn msg_step_footer(cur: Descriptor, d: &mut Deserializer) -> (r: Result<
    (Option<Footer>, Descriptor),
    Error,
>)
    requires
        old(d).wf(),
        old(d).constructor == None::<u8>,
    ensures
        stepped(*old(d), *final(d)),
        match r {
            Ok((v, nd)) => dec_msg_footer(cur@, old(d).remaining()) == Ok::<_, Error>((
                view_opt(v),
                nd@,
                final(d).remaining(),
            )),
            Err(e) => dec_msg_footer(cur@, old(d).remaining()) == Err::<
                (Option<Seq<(Seq<u8>, Seq<u8>)>>, DescriptorV, Seq<u8>),
                Error,
            >(e),
        },
{
    let a = name_footer_arr();
    if descriptor_matches(&cur, 0x78, a.as_slice()) {
        let v = Footer::decode_body(d)?;
        Ok((Some(v), cur))
    } else {
        Ok((None, cur))
    }
}

// ---------------------------------------------------------------------------
// The frame body: channel, extended header, performative, message
// ---------------------------------------------------------------------------
/// The body of an AMQP frame, after the length prefix, data offset and type
/// byte have been stripped.
#[derive(Clone, Debug, PartialEq, Eq)]
pub struct Frame {
    pub channel: u16,
    pub extended_header: Option<Vec<u8>>,
    pub performative: Performative,
    pub message: Option<Message>,
}

pub struct FrameV {
    pub channel: u16,
    pub extended_header: Option<Seq<u8>>,
    pub performative: PerformativeV,
    pub message: Option<MessageV>,
}

impl View for Frame {
    type V = FrameV;

    open spec fn view(&self) -> FrameV {
        FrameV {
            channel: self.channel,
            extended_header: view_opt_bytes(self.extended_header),
            performative: self.performative@,
            message: view_opt(self.message),
        }
    }
}

/// Decoding the frame body: two channel bytes, `doff - 2` bytes of
/// frame-type-specific extension, one performative, and — only if bytes
/// remain — the message sections.
#[verifier::opaque]
pub open spec fn dec_amqp_frame(doff: u8, s: Seq<u8>) -> Result<FrameV, Error> {
    if doff < 2 {
        Err(Error::InvalidData)
    } else {
        match dec_raw_u16(s) {
            Err(e) => Err(e),
            Ok((channel, s1)) => if s1.len() < doff - 2 {
                Err(Error::UnexpectedEnd)
            } else {
                let ext = s1.take((doff - 2) as int);
                let s2 = s1.skip((doff - 2) as int);
                match dec_performative(s2) {
                    Err(e) => Err(e),
                    Ok((performative, s3)) => if s3.len() == 0 {
                        Ok(
                            FrameV {
                                channel,
                                extended_header: if ext.len() > 0 {
                                    Some(ext)
                                } else {
                                    None
                                },
                                performative,
                                message: None,
                            },
                        )
                    } else {
                        match dec_message(s3) {
                            Err(e) => Err(e),
                            Ok((m, _rest)) => Ok(
                                FrameV {
                                    channel,
                                    extended_header: if ext.len() > 0 {
                                        Some(ext)
                                    } else {
                                        None
                                    },
                                    performative,
                                    message: Some(m),
                                },
                            ),
                        }
                    },
                }
            },
        }
    }
}

impl Frame {
    /// Decodes the body of an AMQP frame from the bytes after the length
    /// prefix and the two header bytes.
    pub fn decode(doff: u8, input: &[u8]) -> (r: Result<Frame, Error>)
        ensures
            match r {
                Ok(v) => dec_amqp_frame(doff, input@) == Ok::<FrameV, Error>(v@),
                Err(e) => dec_amqp_frame(doff, input@) == Err::<FrameV, Error>(e),
            },
    {
        proof {
            reveal(dec_amqp_frame);
        }
        if doff < 2 {
            return Err(Error::InvalidData);
        }
        let mut d = Deserializer::from_bytes(input);
        let channel = d.read_u16()?;
        let ext = d.read_bytes((doff - 2) as usize)?;
        let extended_header = if ext.len() > 0 {
            Some(ext)
        } else {
            None
        };
        let performative = Performative::decode(&mut d)?;
        let message = if d.at_end() {
            None
        } else {
            Some(Message::decode(&mut d)?)
        };
        Ok(Frame { channel, extended_header, performative, message })
    }

    /// Encodes the frame body: performative, then the message sections.
    pub fn encode_body(&self, s: &mut Serializer) -> (r: Result<(), Error>)
        ensures
            match r {
                Ok(()) => enc_performative_ok(self.performative@) && (match view_opt(
                    self.message,
                ) {
                    Some(m) => enc_message_ok(m),
                    None => true,
                }) && final(s).bytes() == old(s).bytes() + enc_performative(self.performative@)
                    + (match view_opt(self.message) {
                    Some(m) => enc_message(m),
                    None => Seq::empty(),
                }),
                Err(e) => e == Error::InvalidData && *final(s) == *old(s) && !(
                enc_performative_ok(self.performative@) && (match view_opt(self.message) {
                    Some(m) => enc_message_ok(m),
                    None => true,
                })),
            },
    {
        let mut f = Serializer::new();
        self.performative.encode(&mut f)?;
        match &self.message {
            Some(m) => m.encode(&mut f)?,
            None => (),
        }
        s.write_raw(f.output.as_slice());
        Ok(())
    }
}

} // verus!
