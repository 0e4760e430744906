//! Round-trip statements relating the serializer's `enc_*` byte sequences to
//! the deserializer's `dec_*` parsers: whatever the serializer produces, the
//! deserializer reads back as the same value, leaving the trailing bytes
//! untouched.
use vstd::prelude::*;

use crate::de::{
    dec_bin, dec_bool, dec_compound, dec_descriptor, dec_i16, dec_i32, dec_i64, dec_i8, dec_str,
    dec_u16, dec_u32, dec_u64, dec_u8, DescriptorV,
};
use crate::ser::{
    enc_bin, enc_bool, enc_compound_ok, enc_desc_code, enc_desc_name, enc_i16, enc_i32, enc_i64,
    enc_i8, enc_list_compound, enc_map_compound, enc_str, enc_sym, enc_u16, enc_u32, enc_u64,
    enc_u8, enc_var_ok,
};
use crate::wire::{
    be16, be32, be64, lemma_be16_roundtrip, lemma_be32_roundtrip, lemma_be64_roundtrip, sq_be16,
    sq_be32, sq_be64,
};
use crate::Error;

verus! {

/// A boolean decodes back to the value it was encoded from.
pub proof fn lemma_bool_roundtrip(v: bool, rest: Seq<u8>)
    ensures
        dec_bool(None, enc_bool(v) + rest) == Ok::<_, Error>((v, rest)),
{
    let s = enc_bool(v) + rest;
    assert(s.skip(1) =~= rest);
}

/// A `u8` decodes back to the value it was encoded from.
pub proof fn lemma_u8_roundtrip(v: u8, rest: Seq<u8>)
    ensures
        dec_u8(enc_u8(v) + rest) == Ok::<_, Error>((v, rest)),
{
    let s = enc_u8(v) + rest;
    assert(s.skip(1)[0] == v);
    assert(s.skip(1).skip(1) =~= rest);
}

/// A `u16` decodes back to the value it was encoded from.
pub proof fn lemma_u16_roundtrip(v: u16, rest: Seq<u8>)
    ensures
        dec_u16(enc_u16(v) + rest) == Ok::<_, Error>((v, rest)),
{
    let s = enc_u16(v) + rest;
    let s1 = s.skip(1);
    assert(s1 =~= be16(v) + rest);
    assert(sq_be16(s1) == sq_be16(be16(v)));
    lemma_be16_roundtrip(v);
    assert(s1.skip(2) =~= rest);
}

/// A `u32` decodes back to the value it was encoded from, whichever of the
/// three width forms the encoder chose.
pub proof fn lemma_u32_roundtrip(v: u32, rest: Seq<u8>)
    ensures
        dec_u32(enc_u32(v) + rest) == Ok::<_, Error>((v, rest)),
{
    let s = enc_u32(v) + rest;
    if v == 0 {
        assert(s.skip(1) =~= rest);
    } else if v < 256 {
        assert(s.skip(1)[0] == v as u8);
        assert(s.skip(1).skip(1) =~= rest);
        assert(((v as u8) as u32) == v) by (bit_vector)
            requires
                v < 256u32,
        ;
    } else {
        let s1 = s.skip(1);
        assert(s1 =~= be32(v) + rest);
        assert(sq_be32(s1) == sq_be32(be32(v)));
        lemma_be32_roundtrip(v);
        assert(s1.skip(4) =~= rest);
    }
}

/// A `u64` decodes back to the value it was encoded from.
pub proof fn lemma_u64_roundtrip(v: u64, rest: Seq<u8>)
    ensures
        dec_u64(enc_u64(v) + rest) == Ok::<_, Error>((v, rest)),
{
    let s = enc_u64(v) + rest;
    if v == 0 {
        assert(s.skip(1) =~= rest);
    } else if v < 256 {
        assert(s.skip(1)[0] == v as u8);
        assert(s.skip(1).skip(1) =~= rest);
        assert(((v as u8) as u64) == v) by (bit_vector)
            requires
                v < 256u64,
        ;
    } else {
        let s1 = s.skip(1);
        assert(s1 =~= be64(v) + rest);
        assert(sq_be64(s1) == sq_be64(be64(v)));
        lemma_be64_roundtrip(v);
        assert(s1.skip(8) =~= rest);
    }
}

/// An `i8` decodes back to the value it was encoded from.
pub proof fn lemma_i8_roundtrip(v: i8, rest: Seq<u8>)
    ensures
        dec_i8(enc_i8(v) + rest) == Ok::<_, Error>((v, rest)),
{
    let s = enc_i8(v) + rest;
    assert(s.skip(1)[0] == v as u8);
    assert(s.skip(1).skip(1) =~= rest);
    assert(((v as u8) as i8) == v) by (bit_vector);
}

/// An `i16` decodes back to the value it was encoded from.
pub proof fn lemma_i16_roundtrip(v: i16, rest: Seq<u8>)
    ensures
        dec_i16(enc_i16(v) + rest) == Ok::<_, Error>((v, rest)),
{
    let s = enc_i16(v) + rest;
    let s1 = s.skip(1);
    assert(s1 =~= be16(v as u16) + rest);
    assert(sq_be16(s1) == sq_be16(be16(v as u16)));
    lemma_be16_roundtrip(v as u16);
    assert(((v as u16) as i16) == v) by (bit_vector);
    assert(s1.skip(2) =~= rest);
}

/// An `i32` decodes back to the value it was encoded from: the one-byte form
/// is used only for `[0, 256)`, where zero-extension is the identity.
pub proof fn lemma_i32_roundtrip(v: i32, rest: Seq<u8>)
    ensures
        dec_i32(enc_i32(v) + rest) == Ok::<_, Error>((v, rest)),
{
    let s = enc_i32(v) + rest;
    if 0 <= v && v < 256 {
        assert(s.skip(1)[0] == v as u8);
        assert(s.skip(1).skip(1) =~= rest);
        assert(((v as u8) as i32) == v) by (bit_vector)
            requires
                0 <= v && v < 256i32,
        ;
    } else {
        let s1 = s.skip(1);
        assert(s1 =~= be32(v as u32) + rest);
        assert(sq_be32(s1) == sq_be32(be32(v as u32)));
        lemma_be32_roundtrip(v as u32);
        assert(((v as u32) as i32) == v) by (bit_vector);
        assert(s1.skip(4) =~= rest);
    }
}

/// An `i64` decodes back to the value it was encoded from.
pub proof fn lemma_i64_roundtrip(v: i64, rest: Seq<u8>)
    ensures
        dec_i64(enc_i64(v) + rest) == Ok::<_, Error>((v, rest)),
{
    let s = enc_i64(v) + rest;
    if 0 <= v && v < 256 {
        assert(s.skip(1)[0] == v as u8);
        assert(s.skip(1).skip(1) =~= rest);
        assert(((v as u8) as i64) == v) by (bit_vector)
            requires
                0 <= v && v < 256i64,
        ;
    } else {
        let s1 = s.skip(1);
        assert(s1 =~= be64(v as u64) + rest);
        assert(sq_be64(s1) == sq_be64(be64(v as u64)));
        lemma_be64_roundtrip(v as u64);
        assert(((v as u64) as i64) == v) by (bit_vector);
        assert(s1.skip(8) =~= rest);
    }
}

/// Encoding chooses the minimum-width representation: an `i32` in `[0, 256)`
/// encodes in exactly 2 bytes, the `0x54` code and the value byte.
pub proof fn lemma_i32_minimal(v: i32)
    requires
        0 <= v < 256,
    ensures
        enc_i32(v).len() == 2,
        enc_i32(v)[0] == 0x54,
        enc_i32(v)[1] == v as u8,
{
}

/// Shared argument for the three variable-width classes: `s1 s2 l1 l2` is
/// the accepted code set, `small`/`large` the codes the encoder emits.
proof fn lemma_var_roundtrip(
    v: Seq<u8>,
    rest: Seq<u8>,
    s1: u8,
    s2: u8,
    l1: u8,
    l2: u8,
    exp: crate::Expected,
    small: u8,
    large: u8,
)
    requires
        enc_var_ok(v),
        small == s1 || small == s2,
        large == l1 || large == l2,
        large != s1 && large != s2,
    ensures
        v.len() < 256 ==> crate::de::dec_var(
            None,
            s1,
            s2,
            l1,
            l2,
            exp,
            (seq![small, v.len() as u8] + v) + rest,
        ) == Ok::<_, Error>((v, rest)),
        v.len() >= 256 ==> crate::de::dec_var(
            None,
            s1,
            s2,
            l1,
            l2,
            exp,
            (seq![large] + be32(v.len() as u32) + v) + rest,
        ) == Ok::<_, Error>((v, rest)),
{
    if v.len() < 256 {
        let s = (seq![small, v.len() as u8] + v) + rest;
        let s2 = s.skip(2);
        assert(s2 =~= v + rest);
        let n = v.len() as u8;
        assert(s.skip(1)[0] == n);
        assert(s.skip(1).skip(1) =~= s2);
        assert((n as usize) as int == v.len());
        assert(s2.take(n as int) =~= v);
        assert(s2.skip(n as int) =~= rest);
    } else {
        let s = (seq![large] + be32(v.len() as u32) + v) + rest;
        let s1 = s.skip(1);
        assert(s1 =~= be32(v.len() as u32) + (v + rest));
        assert(sq_be32(s1) == sq_be32(be32(v.len() as u32)));
        lemma_be32_roundtrip(v.len() as u32);
        let n = v.len() as u32;
        assert(n as int == v.len());
        let s2 = s1.skip(4);
        assert(s2 =~= v + rest);
        assert(s2.take(n as int) =~= v);
        assert(s2.skip(n as int) =~= rest);
    }
}

/// A string decodes back to the bytes it was encoded from.
pub proof fn lemma_str_roundtrip(v: Seq<u8>, rest: Seq<u8>)
    requires
        enc_var_ok(v),
    ensures
        dec_str(None, enc_str(v) + rest) == Ok::<_, Error>((v, rest)),
{
    lemma_var_roundtrip(v, rest, 0xa1, 0xa3, 0xb1, 0xb3, crate::Expected::Str, 0xa1, 0xb1);
}

/// A symbol decodes back to the bytes it was encoded from, through the
/// string reader as well as through the binary reader.
pub proof fn lemma_sym_roundtrip(v: Seq<u8>, rest: Seq<u8>)
    requires
        enc_var_ok(v),
    ensures
        dec_bin(None, enc_sym(v) + rest) == Ok::<_, Error>((v, rest)),
        dec_str(None, enc_sym(v) + rest) == Ok::<_, Error>((v, rest)),
{
    lemma_var_roundtrip(v, rest, 0xa0, 0xa3, 0xb0, 0xb3, crate::Expected::Bytes, 0xa3, 0xb3);
    lemma_var_roundtrip(v, rest, 0xa1, 0xa3, 0xb1, 0xb3, crate::Expected::Str, 0xa3, 0xb3);
}

/// A binary decodes back to the bytes it was encoded from.
pub proof fn lemma_bin_roundtrip(v: Seq<u8>, rest: Seq<u8>)
    requires
        enc_var_ok(v),
    ensures
        dec_bin(None, enc_bin(v) + rest) == Ok::<_, Error>((v, rest)),
{
    lemma_var_roundtrip(v, rest, 0xa0, 0xa3, 0xb0, 0xb3, crate::Expected::Bytes, 0xa0, 0xb0);
}

/// A numeric descriptor decodes back to its code.
pub proof fn lemma_desc_code_roundtrip(code: u64, rest: Seq<u8>)
    ensures
        dec_descriptor(None, enc_desc_code(code) + rest) == Ok::<_, Error>((
            DescriptorV::Numeric(code),
            rest,
        )),
{
    let s = enc_desc_code(code) + rest;
    let s1 = s.skip(1);
    assert(s1 =~= enc_u64(code) + rest);
    assert(s1[0] == 0x44 || s1[0] == 0x53 || s1[0] == 0x80);
    lemma_u64_roundtrip(code, rest);
}

/// A symbolic descriptor decodes back to its name.
pub proof fn lemma_desc_name_roundtrip(name: Seq<u8>, rest: Seq<u8>)
    requires
        enc_var_ok(name),
    ensures
        dec_descriptor(None, enc_desc_name(name) + rest) == Ok::<_, Error>((
            DescriptorV::Symbol(name),
            rest,
        )),
{
    let s = enc_desc_name(name) + rest;
    let s1 = s.skip(1);
    assert(s1 =~= enc_sym(name) + rest);
    assert(s1[0] == 0xa3 || s1[0] == 0xb3);
    lemma_sym_roundtrip(name, rest);
}

/// A list compound header decodes back to its payload size and count.
pub proof fn lemma_list_compound_roundtrip(count: u32, payload: Seq<u8>, rest: Seq<u8>)
    requires
        enc_compound_ok(payload),
    ensures
        dec_compound(enc_list_compound(count, payload) + rest) == Ok::<_, Error>((
            (payload.len() as u32, count, None::<u8>),
            payload + rest,
        )),
{
    lemma_compound_roundtrip_common(0xd0, count, payload, rest);
}

/// A map compound header decodes back to its payload size and count.
pub proof fn lemma_map_compound_roundtrip(count: u32, payload: Seq<u8>, rest: Seq<u8>)
    requires
        enc_compound_ok(payload),
    ensures
        dec_compound(enc_map_compound(count, payload) + rest) == Ok::<_, Error>((
            (payload.len() as u32, count, None::<u8>),
            payload + rest,
        )),
{
    lemma_compound_roundtrip_common(0xd1, count, payload, rest);
}

proof fn lemma_compound_roundtrip_common(t: u8, count: u32, payload: Seq<u8>, rest: Seq<u8>)
    requires
        t == 0xd0 || t == 0xd1,
        enc_compound_ok(payload),
    ensures
        dec_compound((seq![t] + be32((payload.len() + 4) as u32) + be32(count) + payload) + rest)
            == Ok::<_, Error>(((payload.len() as u32, count, None::<u8>), payload + rest)),
{
    let size = (payload.len() + 4) as u32;
    let s = (seq![t] + be32(size) + be32(count) + payload) + rest;
    let s1 = s.skip(1);
    assert(s1 =~= be32(size) + (be32(count) + (payload + rest)));
    assert(sq_be32(s1) == sq_be32(be32(size)));
    lemma_be32_roundtrip(size);
    let s2 = s1.skip(4);
    assert(s2 =~= be32(count) + (payload + rest));
    assert(sq_be32(s2) == sq_be32(be32(count)));
    lemma_be32_roundtrip(count);
    let s3 = s2.skip(4);
    assert(s3 =~= payload + rest);
    assert(size >= 4);
    assert((size - 4) as u32 == payload.len() as u32);
}

// ---------------------------------------------------------------------------
// Optional fields
// ---------------------------------------------------------------------------
/// An optional field encoded as null or as its value decodes back to the
/// same option; a present value never opens with the null byte.
pub proof fn lemma_opt_bool_roundtrip(o: Option<bool>, rest: Seq<u8>)
    ensures
        crate::de::dec_opt_bool(None, crate::ser::enc_opt_bool(o) + rest) == Ok::<_, Error>((
            o,
            rest,
        )),
{
    match o {
        None => {
            assert((crate::ser::enc_opt_bool(o) + rest).skip(1) =~= rest);
        },
        Some(x) => {
            lemma_bool_roundtrip(x, rest);
        },
    }
}

pub proof fn lemma_opt_u8_roundtrip(o: Option<u8>, rest: Seq<u8>)
    ensures
        crate::de::dec_opt_u8(crate::ser::enc_opt_u8(o) + rest) == Ok::<_, Error>((o, rest)),
{
    match o {
        None => {
            assert((crate::ser::enc_opt_u8(o) + rest).skip(1) =~= rest);
        },
        Some(x) => {
            lemma_u8_roundtrip(x, rest);
        },
    }
}

pub proof fn lemma_opt_u16_roundtrip(o: Option<u16>, rest: Seq<u8>)
    ensures
        crate::de::dec_opt_u16(crate::ser::enc_opt_u16(o) + rest) == Ok::<_, Error>((o, rest)),
{
    match o {
        None => {
            assert((crate::ser::enc_opt_u16(o) + rest).skip(1) =~= rest);
        },
        Some(x) => {
            lemma_u16_roundtrip(x, rest);
        },
    }
}

pub proof fn lemma_opt_u32_roundtrip(o: Option<u32>, rest: Seq<u8>)
    ensures
        crate::de::dec_opt_u32(crate::ser::enc_opt_u32(o) + rest) == Ok::<_, Error>((o, rest)),
{
    match o {
        None => {
            assert((crate::ser::enc_opt_u32(o) + rest).skip(1) =~= rest);
        },
        Some(x) => {
            lemma_u32_roundtrip(x, rest);
        },
    }
}

pub proof fn lemma_opt_u64_roundtrip(o: Option<u64>, rest: Seq<u8>)
    ensures
        crate::de::dec_opt_u64(crate::ser::enc_opt_u64(o) + rest) == Ok::<_, Error>((o, rest)),
{
    match o {
        None => {
            assert((crate::ser::enc_opt_u64(o) + rest).skip(1) =~= rest);
        },
        Some(x) => {
            lemma_u64_roundtrip(x, rest);
        },
    }
}

pub proof fn lemma_opt_i64_roundtrip(o: Option<i64>, rest: Seq<u8>)
    ensures
        crate::de::dec_opt_i64(crate::ser::enc_opt_i64(o) + rest) == Ok::<_, Error>((o, rest)),
{
    match o {
        None => {
            assert((crate::ser::enc_opt_i64(o) + rest).skip(1) =~= rest);
        },
        Some(x) => {
            lemma_i64_roundtrip(x, rest);
        },
    }
}

pub proof fn lemma_opt_str_roundtrip(o: Option<Seq<u8>>, rest: Seq<u8>)
    requires
        crate::ser::enc_opt_str_ok(o),
    ensures
        crate::de::dec_opt_str(None, crate::ser::enc_opt_str(o) + rest) == Ok::<_, Error>((
            o,
            rest,
        )),
{
    reveal(crate::de::dec_opt_str);
    match o {
        None => {
            assert((crate::ser::enc_opt_str(o) + rest).skip(1) =~= rest);
        },
        Some(x) => {
            lemma_str_roundtrip(x, rest);
        },
    }
}

pub proof fn lemma_opt_bin_roundtrip(o: Option<Seq<u8>>, rest: Seq<u8>)
    requires
        crate::ser::enc_opt_bin_ok(o),
    ensures
        crate::de::dec_opt_bin(None, crate::ser::enc_opt_bin(o) + rest) == Ok::<_, Error>((
            o,
            rest,
        )),
{
    reveal(crate::de::dec_opt_bin);
    match o {
        None => {
            assert((crate::ser::enc_opt_bin(o) + rest).skip(1) =~= rest);
        },
        Some(x) => {
            lemma_bin_roundtrip(x, rest);
        },
    }
}

pub proof fn lemma_opt_sym_roundtrip(o: Option<Seq<u8>>, rest: Seq<u8>)
    requires
        crate::types::enc_opt_sym_ok(o),
    ensures
        crate::types::dec_opt_sym(None, crate::types::enc_opt_sym(o) + rest) == Ok::<_, Error>((
            o,
            rest,
        )),
{
    match o {
        None => {
            assert((crate::types::enc_opt_sym(o) + rest).skip(1) =~= rest);
        },
        Some(x) => {
            lemma_sym_roundtrip(x, rest);
        },
    }
}

// ---------------------------------------------------------------------------
// Scalar enumerations
// ---------------------------------------------------------------------------
pub proof fn lemma_role_roundtrip(v: crate::amqp::Role, rest: Seq<u8>)
    ensures
        crate::amqp::dec_role(None, crate::amqp::enc_role(v) + rest) == Ok::<_, Error>((v, rest)),
{
    lemma_bool_roundtrip(v == crate::amqp::Role::Receiver, rest);
}

pub proof fn lemma_opt_snd_settle_roundtrip(o: Option<crate::amqp::SenderSettleMode>, rest: Seq<u8>)
    ensures
        crate::amqp::dec_opt_snd_settle(None, crate::amqp::enc_opt_snd_settle(o) + rest) == Ok::<
            _,
            Error,
        >((o, rest)),
{
    match o {
        None => {
            assert((crate::amqp::enc_opt_snd_settle(o) + rest).skip(1) =~= rest);
        },
        Some(x) => {
            lemma_u8_roundtrip(crate::amqp::snd_settle_index(x), rest);
        },
    }
}

pub proof fn lemma_opt_rcv_settle_roundtrip(
    o: Option<crate::amqp::ReceiverSettleMode>,
    rest: Seq<u8>,
)
    ensures
        crate::amqp::dec_opt_rcv_settle(None, crate::amqp::enc_opt_rcv_settle(o) + rest) == Ok::<
            _,
            Error,
        >((o, rest)),
{
    match o {
        None => {
            assert((crate::amqp::enc_opt_rcv_settle(o) + rest).skip(1) =~= rest);
        },
        Some(x) => {
            lemma_u8_roundtrip(crate::amqp::rcv_settle_index(x), rest);
        },
    }
}

pub proof fn lemma_opt_durability_roundtrip(
    o: Option<crate::amqp::TerminusDurability>,
    rest: Seq<u8>,
)
    ensures
        crate::amqp::dec_opt_durability(None, crate::amqp::enc_opt_durability(o) + rest) == Ok::<
            _,
            Error,
        >((o, rest)),
{
    match o {
        None => {
            assert((crate::amqp::enc_opt_durability(o) + rest).skip(1) =~= rest);
        },
        Some(x) => {
            lemma_u32_roundtrip(crate::amqp::durability_index(x), rest);
        },
    }
}

pub proof fn lemma_opt_expiry_roundtrip(o: Option<crate::amqp::ExpiryPolicy>, rest: Seq<u8>)
    ensures
        crate::amqp::dec_opt_expiry(None, crate::amqp::enc_opt_expiry(o) + rest) == Ok::<_, Error>(
            (o, rest),
        ),
{
    match o {
        None => {
            assert((crate::amqp::enc_opt_expiry(o) + rest).skip(1) =~= rest);
        },
        Some(x) => {
            lemma_sym_roundtrip(crate::amqp::expiry_name(x), rest);
            assert(crate::amqp::sym_link_detach()[0] == 0x6c
                && crate::amqp::sym_session_end()[0] == 0x73);
        },
    }
}

pub proof fn lemma_opt_distribution_roundtrip(
    o: Option<crate::amqp::DistributionMode>,
    rest: Seq<u8>,
)
    ensures
        crate::amqp::dec_opt_distribution(None, crate::amqp::enc_opt_distribution(o) + rest)
            == Ok::<_, Error>((o, rest)),
{
    match o {
        None => {
            assert((crate::amqp::enc_opt_distribution(o) + rest).skip(1) =~= rest);
        },
        Some(x) => {
            lemma_sym_roundtrip(crate::amqp::distribution_name(x), rest);
            assert(crate::amqp::sym_move()[0] == 0x6d && crate::amqp::sym_copy()[0] == 0x63);
        },
    }
}

// ---------------------------------------------------------------------------
// Empty composites and their choices
// ---------------------------------------------------------------------------
/// The empty compound that closes an empty composite skips cleanly.
pub proof fn lemma_skip_empty_compound(rest: Seq<u8>)
    ensures
        crate::amqp::dec_skip_compound(
            None,
            crate::ser::enc_list_compound(0, Seq::empty()) + rest,
        ) == Ok::<Seq<u8>, Error>(rest),
{
    let payload = Seq::<u8>::empty();
    lemma_list_compound_roundtrip(0, payload, rest);
    let s1 = payload + rest;
    assert(s1 =~= rest);
    assert(s1.skip(0) =~= rest);
}

/// A whole empty composite decodes back through the delivery-state choice.
pub proof fn lemma_delivery_state_roundtrip(v: crate::amqp::DeliveryState, rest: Seq<u8>)
    ensures
        crate::amqp::dec_delivery_state(None, crate::amqp::enc_delivery_state(v) + rest) == Ok::<
            _,
            Error,
        >((v, rest)),
{
    let code = crate::amqp::delivery_state_code(v);
    let tail = crate::ser::enc_list_compound(0, Seq::empty()) + rest;
    assert(crate::amqp::enc_delivery_state(v) + rest =~= crate::ser::enc_desc_code(code) + tail);
    lemma_desc_code_roundtrip(code, tail);
    lemma_skip_empty_compound(rest);
}

pub proof fn lemma_outcome_roundtrip(v: crate::amqp::Outcome, rest: Seq<u8>)
    ensures
        crate::amqp::dec_outcome(None, crate::amqp::enc_outcome(v) + rest) == Ok::<_, Error>((
            v,
            rest,
        )),
{
    let code = crate::amqp::outcome_code(v);
    let tail = crate::ser::enc_list_compound(0, Seq::empty()) + rest;
    assert(crate::amqp::enc_outcome(v) + rest =~= crate::ser::enc_desc_code(code) + tail);
    lemma_desc_code_roundtrip(code, tail);
    lemma_skip_empty_compound(rest);
}

pub proof fn lemma_opt_delivery_state_roundtrip(
    o: Option<crate::amqp::DeliveryState>,
    rest: Seq<u8>,
)
    ensures
        crate::amqp::dec_opt_delivery_state(
            None,
            crate::amqp::enc_opt_delivery_state(o) + rest,
        ) == Ok::<_, Error>((o, rest)),
{
    match o {
        None => {
            assert((crate::amqp::enc_opt_delivery_state(o) + rest).skip(1) =~= rest);
        },
        Some(x) => {
            lemma_delivery_state_roundtrip(x, rest);
        },
    }
}

pub proof fn lemma_opt_outcome_roundtrip(o: Option<crate::amqp::Outcome>, rest: Seq<u8>)
    ensures
        crate::amqp::dec_opt_outcome(None, crate::amqp::enc_opt_outcome(o) + rest) == Ok::<
            _,
            Error,
        >((o, rest)),
{
    match o {
        None => {
            assert((crate::amqp::enc_opt_outcome(o) + rest).skip(1) =~= rest);
        },
        Some(x) => {
            lemma_outcome_roundtrip(x, rest);
        },
    }
}

pub proof fn lemma_opt_transforms_roundtrip(
    o: Option<crate::types::TransformsSchema>,
    rest: Seq<u8>,
)
    ensures
        crate::types::dec_opt_transforms(None, crate::types::enc_opt_transforms(o) + rest) == Ok::<
            _,
            Error,
        >((o, rest)),
{
    match o {
        None => {
            assert((crate::types::enc_opt_transforms(o) + rest).skip(1) =~= rest);
        },
        Some(x) => {
            let tail = crate::ser::enc_list_compound(0, Seq::empty()) + rest;
            assert(crate::types::enc_opt_transforms(o) + rest =~= crate::ser::enc_desc_code(
                0xc562_0000_0000_0009,
            ) + tail);
            lemma_desc_code_roundtrip(0xc562_0000_0000_0009, tail);
            lemma_skip_empty_compound(rest);
        },
    }
}

// ---------------------------------------------------------------------------
// Generic lists and maps
// ---------------------------------------------------------------------------
/// Elements encoded one after another decode back to the same sequence,
/// provided each member on its own round-trips.
pub proof fn lemma_enc_elems_roundtrip<T: crate::Codec>(l: Seq<T::V>, rest: Seq<u8>)
    requires
        forall|i: int, r: Seq<u8>|
            0 <= i < l.len() ==> #[trigger] T::dec(None, T::enc(l[i]) + r) == Ok::<_, Error>((
                l[i],
                r,
            )),
    ensures
        crate::amqp::dec_elems::<T>(l.len() as nat, None, crate::amqp::enc_elems::<T>(l) + rest)
            == Ok::<_, Error>((l, rest)),
    decreases l.len(),
{
    if l.len() == 0 {
        assert(crate::amqp::enc_elems::<T>(l) + rest =~= rest);
        assert(l =~= Seq::<T::V>::empty());
    } else {
        let tail = l.skip(1);
        let tail_bytes = crate::amqp::enc_elems::<T>(tail) + rest;
        assert(crate::amqp::enc_elems::<T>(l) + rest =~= T::enc(l[0]) + tail_bytes);
        assert(T::dec(None, T::enc(l[0]) + tail_bytes) == Ok::<_, Error>((l[0], tail_bytes)));
        assert forall|i: int, r: Seq<u8>|
            0 <= i < tail.len() implies #[trigger] T::dec(None, T::enc(tail[i]) + r) == Ok::<
            _,
            Error,
        >((tail[i], r)) by {
            assert(tail[i] == l[i + 1]);
        }
        lemma_enc_elems_roundtrip::<T>(tail, rest);
        assert(seq![l[0]] + tail =~= l);
    }
}

/// A list of codec values decodes back to the same sequence.
#[verifier::rlimit(100)]
#[verifier::spinoff_prover]
pub proof fn lemma_elem_list_roundtrip<T: crate::Codec>(l: Seq<T::V>, rest: Seq<u8>)
    requires
        crate::amqp::enc_elem_list_ok::<T>(l),
        forall|i: int, r: Seq<u8>|
            0 <= i < l.len() ==> #[trigger] T::dec(None, T::enc(l[i]) + r) == Ok::<_, Error>((
                l[i],
                r,
            )),
    ensures
        crate::amqp::dec_elem_list::<T>(None, crate::amqp::enc_elem_list::<T>(l) + rest) == Ok::<
            _,
            Error,
        >((l, rest)),
{
    reveal(crate::amqp::dec_elem_list);
    let payload = crate::amqp::enc_elems::<T>(l);
    let count = l.len() as u32;
    let s = crate::ser::enc_list_compound(count, payload) + rest;
    assert(s[0] == 0xd0);
    lemma_list_compound_roundtrip(count, payload, rest);
    let s1 = payload + rest;
    assert(s1.take(payload.len() as int) =~= payload);
    assert(s1.skip(payload.len() as int) =~= rest);
    assert(payload + Seq::<u8>::empty() =~= payload);
    lemma_enc_elems_roundtrip::<T>(l, Seq::empty());
    assert(count as nat == l.len());
}

/// A map of codec entries decodes back to the same sequence; the count the
/// serializer wrote is twice the entry count, so always even.
#[verifier::rlimit(100)]
#[verifier::spinoff_prover]
pub proof fn lemma_elem_map_roundtrip<T: crate::Codec>(l: Seq<T::V>, rest: Seq<u8>)
    requires
        crate::amqp::enc_elem_map_ok::<T>(l),
        forall|i: int, r: Seq<u8>|
            0 <= i < l.len() ==> #[trigger] T::dec(None, T::enc(l[i]) + r) == Ok::<_, Error>((
                l[i],
                r,
            )),
    ensures
        crate::amqp::dec_elem_map::<T>(crate::amqp::enc_elem_map::<T>(l) + rest) == Ok::<
            _,
            Error,
        >((l, rest)),
{
    reveal(crate::amqp::dec_elem_map);
    let payload = crate::amqp::enc_elems::<T>(l);
    let count = (l.len() * 2) as u32;
    let s = crate::ser::enc_map_compound(count, payload) + rest;
    lemma_map_compound_roundtrip(count, payload, rest);
    assert(count == l.len() * 2);
    assert(count % 2 == 0);
    assert((count / 2) as nat == l.len());
    let s1 = payload + rest;
    assert(s1.take(payload.len() as int) =~= payload);
    assert(s1.skip(payload.len() as int) =~= rest);
    assert(payload + Seq::<u8>::empty() =~= payload);
    lemma_enc_elems_roundtrip::<T>(l, Seq::empty());
}

/// Every map the serializer emits carries an even count: the count field of
/// an encoded map compound reads back as twice the number of entries.
pub proof fn lemma_map_count_even<T: crate::Codec>(l: Seq<T::V>, rest: Seq<u8>)
    requires
        crate::amqp::enc_elem_map_ok::<T>(l),
    ensures
        ({
            let r = dec_compound(crate::amqp::enc_elem_map::<T>(l) + rest);
            &&& r matches Ok(((_, count, _), _))
            &&& (match r {
                Ok(((_size, count, _ctor), _rest2)) => count == l.len() * 2 && count % 2 == 0,
                Err(_) => false,
            })
        }),
{
    let payload = crate::amqp::enc_elems::<T>(l);
    let count = (l.len() * 2) as u32;
    lemma_map_compound_roundtrip(count, payload, rest);
    assert(count == l.len() * 2);
}

/// The compound count of an encoded composite equals the declared field
/// count that was passed in — never more.
pub proof fn lemma_composite_count(code: u64, count: u32, payload: Seq<u8>, rest: Seq<u8>)
    requires
        enc_compound_ok(payload),
    ensures
        ({
            let s = crate::ser::enc_composite(code, count, payload) + rest;
            match dec_descriptor(None, s) {
                Ok((_, s1)) => dec_compound(s1) == Ok::<_, Error>((
                    (payload.len() as u32, count, None::<u8>),
                    payload + rest,
                )),
                Err(_) => false,
            }
        }),
{
    let tail = crate::ser::enc_list_compound(count, payload) + rest;
    assert(crate::ser::enc_composite(code, count, payload) + rest =~= enc_desc_code(code) + tail);
    lemma_desc_code_roundtrip(code, tail);
    lemma_list_compound_roundtrip(count, payload, rest);
}

/// The first 4 bytes of any non-header encoded frame are the big-endian
/// form of the frame's full length.
pub proof fn lemma_frame_length_prefix(v: crate::proto::FrameV)
    requires
        !(v is Header),
        crate::proto::enc_frame(v).len() <= 0xFFFF_FFFF,
    ensures
        crate::proto::enc_frame(v).take(4) == crate::wire::be32(
            crate::proto::enc_frame(v).len() as u32,
        ),
{
    match v {
        crate::proto::FrameV::Amqp(f) => {
            let body = crate::amqp::enc_performative(f.performative) + (match f.message {
                Some(m) => crate::amqp::enc_message(m),
                None => Seq::empty(),
            });
            assert(crate::proto::enc_frame(v).len() == 8 + body.len());
            assert(crate::proto::enc_frame(v).take(4) =~= crate::wire::be32(
                (8 + body.len()) as u32,
            ));
        },
        crate::proto::FrameV::Sasl(f) => {
            let body = crate::sasl::enc_sasl_frame(f);
            assert(crate::proto::enc_frame(v).len() == 8 + body.len());
            assert(crate::proto::enc_frame(v).take(4) =~= crate::wire::be32(
                (8 + body.len()) as u32,
            ));
        },
        crate::proto::FrameV::Header(_) => {},
    }
}

// ---------------------------------------------------------------------------
// List and map elements
// ---------------------------------------------------------------------------
/// A string-pair entry decodes back through the pair codec.
pub proof fn lemma_pair_elem_roundtrip(x: (Seq<u8>, Seq<u8>), rest: Seq<u8>)
    requires
        enc_var_ok(x.0),
        enc_var_ok(x.1),
    ensures
        <(Vec<u8>, Vec<u8>) as crate::Codec>::dec(
            None,
            <(Vec<u8>, Vec<u8>) as crate::Codec>::enc(x) + rest,
        ) == Ok::<_, Error>((x, rest)),
{
    let tail = enc_str(x.1) + rest;
    assert(<(Vec<u8>, Vec<u8>) as crate::Codec>::enc(x) + rest =~= enc_str(x.0) + tail);
    lemma_str_roundtrip(x.0, tail);
    lemma_str_roundtrip(x.1, rest);
}

/// A string list decodes back to the same strings.
pub proof fn lemma_str_list_roundtrip(l: Seq<Seq<u8>>, rest: Seq<u8>)
    requires
        crate::amqp::enc_elem_list_ok::<Vec<u8>>(l),
    ensures
        crate::amqp::dec_elem_list::<Vec<u8>>(
            None,
            crate::amqp::enc_elem_list::<Vec<u8>>(l) + rest,
        ) == Ok::<_, Error>((l, rest)),
{
    assert forall|i: int, r: Seq<u8>|
        0 <= i < l.len() implies #[trigger] <Vec<u8> as crate::Codec>::dec(
        None,
        <Vec<u8> as crate::Codec>::enc(l[i]) + r,
    ) == Ok::<_, Error>((l[i], r)) by {
        assert(enc_var_ok(l[i]));
        lemma_str_roundtrip(l[i], r);
    }
    lemma_elem_list_roundtrip::<Vec<u8>>(l, rest);
}

/// A string-pair map decodes back to the same entries.
pub proof fn lemma_pair_map_roundtrip(l: Seq<(Seq<u8>, Seq<u8>)>, rest: Seq<u8>)
    requires
        crate::amqp::enc_elem_map_ok::<(Vec<u8>, Vec<u8>)>(l),
    ensures
        crate::amqp::dec_elem_map::<(Vec<u8>, Vec<u8>)>(
            crate::amqp::enc_elem_map::<(Vec<u8>, Vec<u8>)>(l) + rest,
        ) == Ok::<_, Error>((l, rest)),
{
    assert forall|i: int, r: Seq<u8>|
        0 <= i < l.len() implies #[trigger] <(Vec<u8>, Vec<u8>) as crate::Codec>::dec(
        None,
        <(Vec<u8>, Vec<u8>) as crate::Codec>::enc(l[i]) + r,
    ) == Ok::<_, Error>((l[i], r)) by {
        assert(<(Vec<u8>, Vec<u8>) as crate::Codec>::enc_ok(l[i]));
        lemma_pair_elem_roundtrip(l[i], r);
    }
    lemma_elem_map_roundtrip::<(Vec<u8>, Vec<u8>)>(l, rest);
}

pub proof fn lemma_opt_str_list_roundtrip(o: Option<Seq<Seq<u8>>>, rest: Seq<u8>)
    requires
        crate::amqp::enc_opt_elem_list_ok::<Vec<u8>>(o),
    ensures
        crate::amqp::dec_opt_elem_list::<Vec<u8>>(
            None,
            crate::amqp::enc_opt_elem_list::<Vec<u8>>(o) + rest,
        ) == Ok::<_, Error>((o, rest)),
{
    reveal(crate::amqp::dec_opt_elem_list);
    match o {
        None => {
            assert((crate::amqp::enc_opt_elem_list::<Vec<u8>>(o) + rest).skip(1) =~= rest);
        },
        Some(l) => {
            lemma_str_list_roundtrip(l, rest);
        },
    }
}

pub proof fn lemma_opt_pair_map_roundtrip(o: Option<Seq<(Seq<u8>, Seq<u8>)>>, rest: Seq<u8>)
    requires
        crate::amqp::enc_opt_elem_map_ok::<(Vec<u8>, Vec<u8>)>(o),
    ensures
        crate::amqp::dec_opt_elem_map::<(Vec<u8>, Vec<u8>)>(
            crate::amqp::enc_opt_elem_map::<(Vec<u8>, Vec<u8>)>(o) + rest,
        ) == Ok::<_, Error>((o, rest)),
{
    reveal(crate::amqp::dec_opt_elem_map);
    match o {
        None => {
            assert((crate::amqp::enc_opt_elem_map::<(Vec<u8>, Vec<u8>)>(o) + rest).skip(1)
                =~= rest);
        },
        Some(l) => {
            lemma_pair_map_roundtrip(l, rest);
        },
    }
}

/// Concatenation is associative.
pub proof fn lemma_seq_assoc(a: Seq<u8>, b: Seq<u8>, c: Seq<u8>)
    ensures
        (a + b) + c == a + (b + c),
{
    assert((a + b) + c =~= a + (b + c));
}

/// The empty sequence is a right unit of concatenation.
pub proof fn lemma_seq_add_empty(a: Seq<u8>)
    ensures
        a + Seq::<u8>::empty() == a,
{
    assert(a + Seq::<u8>::empty() =~= a);
}

/// Composes known field parses into the whole Open field run.
#[verifier::rlimit(100)]
#[verifier::spinoff_prover]
proof fn lemma_open_fields_compose(
    v: crate::amqp::OpenV,
    t0: Seq<u8>,
    t1: Seq<u8>,
    t2: Seq<u8>,
    t3: Seq<u8>,
    t4: Seq<u8>,
    t5: Seq<u8>,
    t6: Seq<u8>,
    t7: Seq<u8>,
    t8: Seq<u8>,
    t9: Seq<u8>,
)
    requires
        crate::de::dec_str(None, t0) == Ok::<_, Error>((v.container_id, t1)),
        crate::de::dec_opt_str(None, t1) == Ok::<_, Error>((v.hostname, t2)),
        crate::de::dec_opt_u32(t2) == Ok::<_, Error>((v.max_frame_size, t3)),
        crate::de::dec_opt_u16(t3) == Ok::<_, Error>((v.channel_max, t4)),
        crate::de::dec_opt_u32(t4) == Ok::<_, Error>((v.idle_timeout, t5)),
        crate::amqp::dec_opt_elem_list::<Vec<u8>>(None, t5) == Ok::<_, Error>((v.outgoing_locales, t6)),
        crate::amqp::dec_opt_elem_list::<Vec<u8>>(None, t6) == Ok::<_, Error>((v.incoming_locales, t7)),
        crate::amqp::dec_opt_elem_list::<Vec<u8>>(None, t7) == Ok::<_, Error>((v.offered_capabilities, t8)),
        crate::amqp::dec_opt_elem_map::<(Vec<u8>, Vec<u8>)>(t8) == Ok::<_, Error>((v.properties, t9)),
    ensures
        crate::amqp::dec_open_fields(None, t0) == Ok::<_, Error>((v, t9)),
{
    reveal(crate::amqp::dec_open_fields);
}

/// A Open body decodes back to the value it was encoded from.
#[verifier::rlimit(100)]
#[verifier::spinoff_prover]
pub proof fn lemma_open_body_roundtrip(v: crate::amqp::OpenV, rest: Seq<u8>)
    requires
        crate::amqp::enc_open_fields_ok(v),
        enc_compound_ok(crate::amqp::enc_open_fields(v)),
    ensures
        crate::amqp::dec_open_body(
            None,
            enc_list_compound(9, crate::amqp::enc_open_fields(v)) + rest,
        ) == Ok::<_, Error>((v, rest)),
{
    let fields = crate::amqp::enc_open_fields(v);
    let s = enc_list_compound(9, fields) + rest;
    assert(s[0] == 0xd0);
    lemma_list_compound_roundtrip(9, fields, rest);
    let s1 = fields + rest;
    assert(s1.take(fields.len() as int) =~= fields);
    assert(s1.skip(fields.len() as int) =~= rest);
    let e1 = enc_str(v.container_id);
    let e2 = crate::ser::enc_opt_str(v.hostname);
    let e3 = crate::ser::enc_opt_u32(v.max_frame_size);
    let e4 = crate::ser::enc_opt_u16(v.channel_max);
    let e5 = crate::ser::enc_opt_u32(v.idle_timeout);
    let e6 = crate::amqp::enc_opt_elem_list::<Vec<u8>>(v.outgoing_locales);
    let e7 = crate::amqp::enc_opt_elem_list::<Vec<u8>>(v.incoming_locales);
    let e8 = crate::amqp::enc_opt_elem_list::<Vec<u8>>(v.offered_capabilities);
    let e9 = crate::amqp::enc_opt_elem_map::<(Vec<u8>, Vec<u8>)>(v.properties);
    let l2 = e1 + e2;
    let l3 = l2 + e3;
    let l4 = l3 + e4;
    let l5 = l4 + e5;
    let l6 = l5 + e6;
    let l7 = l6 + e7;
    let l8 = l7 + e8;
    let l9 = l8 + e9;
    let t9: Seq<u8> = Seq::empty();
    let t8 = e9 + t9;
    let t7 = e8 + t8;
    let t6 = e7 + t7;
    let t5 = e6 + t6;
    let t4 = e5 + t5;
    let t3 = e4 + t4;
    let t2 = e3 + t3;
    let t1 = e2 + t2;
    let t0 = e1 + t1;
    assert(fields == l9);
    lemma_seq_add_empty(l9);
    assert(fields == l9 + t9);
    lemma_seq_assoc(l8, e9, t9);
    assert(fields == l8 + t8);
    lemma_seq_assoc(l7, e8, t8);
    assert(fields == l7 + t7);
    lemma_seq_assoc(l6, e7, t7);
    assert(fields == l6 + t6);
    lemma_seq_assoc(l5, e6, t6);
    assert(fields == l5 + t5);
    lemma_seq_assoc(l4, e5, t5);
    assert(fields == l4 + t4);
    lemma_seq_assoc(l3, e4, t4);
    assert(fields == l3 + t3);
    lemma_seq_assoc(l2, e3, t3);
    assert(fields == l2 + t2);
    lemma_seq_assoc(e1, e2, t2);
    assert(fields == t0);
    lemma_str_roundtrip(v.container_id, t1);
    lemma_opt_str_roundtrip(v.hostname, t2);
    lemma_opt_u32_roundtrip(v.max_frame_size, t3);
    lemma_opt_u16_roundtrip(v.channel_max, t4);
    lemma_opt_u32_roundtrip(v.idle_timeout, t5);
    lemma_opt_str_list_roundtrip(v.outgoing_locales, t6);
    lemma_opt_str_list_roundtrip(v.incoming_locales, t7);
    lemma_opt_str_list_roundtrip(v.offered_capabilities, t8);
    lemma_opt_pair_map_roundtrip(v.properties, t9);
    lemma_open_fields_compose(v, t0, t1, t2, t3, t4, t5, t6, t7, t8, t9);
}

/// Composes known field parses into the whole Begin field run.
#[verifier::rlimit(100)]
#[verifier::spinoff_prover]
proof fn lemma_begin_fields_compose(
    v: crate::amqp::BeginV,
    t0: Seq<u8>,
    t1: Seq<u8>,
    t2: Seq<u8>,
    t3: Seq<u8>,
    t4: Seq<u8>,
    t5: Seq<u8>,
    t6: Seq<u8>,
    t7: Seq<u8>,
    t8: Seq<u8>,
)
    requires
        crate::de::dec_opt_u16(t0) == Ok::<_, Error>((v.remote_channel, t1)),
        crate::de::dec_u32(t1) == Ok::<_, Error>((v.next_outgoing_id, t2)),
        crate::de::dec_u32(t2) == Ok::<_, Error>((v.incoming_window, t3)),
        crate::de::dec_u32(t3) == Ok::<_, Error>((v.outgoing_window, t4)),
        crate::de::dec_opt_u32(t4) == Ok::<_, Error>((v.handle_max, t5)),
        crate::amqp::dec_opt_elem_list::<Vec<u8>>(None, t5) == Ok::<_, Error>((v.offered_capabilities, t6)),
        crate::amqp::dec_opt_elem_list::<Vec<u8>>(None, t6) == Ok::<_, Error>((v.desired_capabilities, t7)),
        crate::amqp::dec_opt_elem_map::<(Vec<u8>, Vec<u8>)>(t7) == Ok::<_, Error>((v.properties, t8)),
    ensures
        crate::amqp::dec_begin_fields(None, t0) == Ok::<_, Error>((v, t8)),
{
    reveal(crate::amqp::dec_begin_fields);
}

/// A Begin body decodes back to the value it was encoded from.
#[verifier::rlimit(100)]
#[verifier::spinoff_prover]
pub proof fn lemma_begin_body_roundtrip(v: crate::amqp::BeginV, rest: Seq<u8>)
    requires
        crate::amqp::enc_begin_fields_ok(v),
        enc_compound_ok(crate::amqp::enc_begin_fields(v)),
    ensures
        crate::amqp::dec_begin_body(
            None,
            enc_list_compound(8, crate::amqp::enc_begin_fields(v)) + rest,
        ) == Ok::<_, Error>((v, rest)),
{
    let fields = crate::amqp::enc_begin_fields(v);
    let s = enc_list_compound(8, fields) + rest;
    assert(s[0] == 0xd0);
    lemma_list_compound_roundtrip(8, fields, rest);
    let s1 = fields + rest;
    assert(s1.take(fields.len() as int) =~= fields);
    assert(s1.skip(fields.len() as int) =~= rest);
    let e1 = crate::ser::enc_opt_u16(v.remote_channel);
    let e2 = enc_u32(v.next_outgoing_id);
    let e3 = enc_u32(v.incoming_window);
    let e4 = enc_u32(v.outgoing_window);
    let e5 = crate::ser::enc_opt_u32(v.handle_max);
    let e6 = crate::amqp::enc_opt_elem_list::<Vec<u8>>(v.offered_capabilities);
    let e7 = crate::amqp::enc_opt_elem_list::<Vec<u8>>(v.desired_capabilities);
    let e8 = crate::amqp::enc_opt_elem_map::<(Vec<u8>, Vec<u8>)>(v.properties);
    let l2 = e1 + e2;
    let l3 = l2 + e3;
    let l4 = l3 + e4;
    let l5 = l4 + e5;
    let l6 = l5 + e6;
    let l7 = l6 + e7;
    let l8 = l7 + e8;
    let t8: Seq<u8> = Seq::empty();
    let t7 = e8 + t8;
    let t6 = e7 + t7;
    let t5 = e6 + t6;
    let t4 = e5 + t5;
    let t3 = e4 + t4;
    let t2 = e3 + t3;
    let t1 = e2 + t2;
    let t0 = e1 + t1;
    assert(fields == l8);
    lemma_seq_add_empty(l8);
    assert(fields == l8 + t8);
    lemma_seq_assoc(l7, e8, t8);
    assert(fields == l7 + t7);
    lemma_seq_assoc(l6, e7, t7);
    assert(fields == l6 + t6);
    lemma_seq_assoc(l5, e6, t6);
    assert(fields == l5 + t5);
    lemma_seq_assoc(l4, e5, t5);
    assert(fields == l4 + t4);
    lemma_seq_assoc(l3, e4, t4);
    assert(fields == l3 + t3);
    lemma_seq_assoc(l2, e3, t3);
    assert(fields == l2 + t2);
    lemma_seq_assoc(e1, e2, t2);
    assert(fields == t0);
    lemma_opt_u16_roundtrip(v.remote_channel, t1);
    lemma_u32_roundtrip(v.next_outgoing_id, t2);
    lemma_u32_roundtrip(v.incoming_window, t3);
    lemma_u32_roundtrip(v.outgoing_window, t4);
    lemma_opt_u32_roundtrip(v.handle_max, t5);
    lemma_opt_str_list_roundtrip(v.offered_capabilities, t6);
    lemma_opt_str_list_roundtrip(v.desired_capabilities, t7);
    lemma_opt_pair_map_roundtrip(v.properties, t8);
    lemma_begin_fields_compose(v, t0, t1, t2, t3, t4, t5, t6, t7, t8);
}

/// Composes known field parses into the whole Attach field run.
#[verifier::rlimit(100)]
#[verifier::spinoff_prover]
proof fn lemma_attach_fields_compose(
    v: crate::amqp::AttachV,
    t0: Seq<u8>,
    t1: Seq<u8>,
    t2: Seq<u8>,
    t3: Seq<u8>,
    t4: Seq<u8>,
    t5: Seq<u8>,
    t6: Seq<u8>,
    t7: Seq<u8>,
    t8: Seq<u8>,
    t9: Seq<u8>,
    t10: Seq<u8>,
    t11: Seq<u8>,
    t12: Seq<u8>,
    t13: Seq<u8>,
    t14: Seq<u8>,
)
    requires
        crate::de::dec_str(None, t0) == Ok::<_, Error>((v.name, t1)),
        crate::de::dec_u32(t1) == Ok::<_, Error>((v.handle, t2)),
        crate::amqp::dec_role(None, t2) == Ok::<_, Error>((v.role, t3)),
        crate::amqp::dec_opt_snd_settle(None, t3) == Ok::<_, Error>((v.snd_settle_mode, t4)),
        crate::amqp::dec_opt_rcv_settle(None, t4) == Ok::<_, Error>((v.rcv_settle_mode, t5)),
        crate::amqp::dec_opt_source(None, t5) == Ok::<_, Error>((v.source, t6)),
        crate::amqp::dec_opt_target(None, t6) == Ok::<_, Error>((v.target, t7)),
        crate::amqp::dec_opt_elem_map::<(Vec<u8>, Vec<u8>)>(t7) == Ok::<_, Error>((v.unsettled, t8)),
        crate::de::dec_opt_bool(None, t8) == Ok::<_, Error>((v.incomplete_unsettled, t9)),
        crate::de::dec_opt_u32(t9) == Ok::<_, Error>((v.initial_delivery_count, t10)),
        crate::de::dec_opt_u64(t10) == Ok::<_, Error>((v.max_message_size, t11)),
        crate::amqp::dec_opt_elem_list::<Vec<u8>>(None, t11) == Ok::<_, Error>((v.offered_capabilities, t12)),
        crate::amqp::dec_opt_elem_list::<Vec<u8>>(None, t12) == Ok::<_, Error>((v.desired_capabilities, t13)),
        crate::amqp::dec_opt_elem_map::<(Vec<u8>, Vec<u8>)>(t13) == Ok::<_, Error>((v.properties, t14)),
    ensures
        crate::amqp::dec_attach_fields(None, t0) == Ok::<_, Error>((v, t14)),
{
    reveal(crate::amqp::dec_attach_fields);
}

/// A Attach body decodes back to the value it was encoded from.
#[verifier::rlimit(100)]
#[verifier::spinoff_prover]
pub proof fn lemma_attach_body_roundtrip(v: crate::amqp::AttachV, rest: Seq<u8>)
    requires
        crate::amqp::enc_attach_fields_ok(v),
        enc_compound_ok(crate::amqp::enc_attach_fields(v)),
    ensures
        crate::amqp::dec_attach_body(
            None,
            enc_list_compound(14, crate::amqp::enc_attach_fields(v)) + rest,
        ) == Ok::<_, Error>((v, rest)),
{
    let fields = crate::amqp::enc_attach_fields(v);
    let s = enc_list_compound(14, fields) + rest;
    assert(s[0] == 0xd0);
    lemma_list_compound_roundtrip(14, fields, rest);
    let s1 = fields + rest;
    assert(s1.take(fields.len() as int) =~= fields);
    assert(s1.skip(fields.len() as int) =~= rest);
    let e1 = enc_str(v.name);
    let e2 = enc_u32(v.handle);
    let e3 = crate::amqp::enc_role(v.role);
    let e4 = crate::amqp::enc_opt_snd_settle(v.snd_settle_mode);
    let e5 = crate::amqp::enc_opt_rcv_settle(v.rcv_settle_mode);
    let e6 = crate::amqp::enc_opt_source(v.source);
    let e7 = crate::amqp::enc_opt_target(v.target);
    let e8 = crate::amqp::enc_opt_elem_map::<(Vec<u8>, Vec<u8>)>(v.unsettled);
    let e9 = crate::ser::enc_opt_bool(v.incomplete_unsettled);
    let e10 = crate::ser::enc_opt_u32(v.initial_delivery_count);
    let e11 = crate::ser::enc_opt_u64(v.max_message_size);
    let e12 = crate::amqp::enc_opt_elem_list::<Vec<u8>>(v.offered_capabilities);
    let e13 = crate::amqp::enc_opt_elem_list::<Vec<u8>>(v.desired_capabilities);
    let e14 = crate::amqp::enc_opt_elem_map::<(Vec<u8>, Vec<u8>)>(v.properties);
    let l2 = e1 + e2;
    let l3 = l2 + e3;
    let l4 = l3 + e4;
    let l5 = l4 + e5;
    let l6 = l5 + e6;
    let l7 = l6 + e7;
    let l8 = l7 + e8;
    let l9 = l8 + e9;
    let l10 = l9 + e10;
    let l11 = l10 + e11;
    let l12 = l11 + e12;
    let l13 = l12 + e13;
    let l14 = l13 + e14;
    let t14: Seq<u8> = Seq::empty();
    let t13 = e14 + t14;
    let t12 = e13 + t13;
    let t11 = e12 + t12;
    let t10 = e11 + t11;
    let t9 = e10 + t10;
    let t8 = e9 + t9;
    let t7 = e8 + t8;
    let t6 = e7 + t7;
    let t5 = e6 + t6;
    let t4 = e5 + t5;
    let t3 = e4 + t4;
    let t2 = e3 + t3;
    let t1 = e2 + t2;
    let t0 = e1 + t1;
    assert(fields == l14);
    lemma_seq_add_empty(l14);
    assert(fields == l14 + t14);
    lemma_seq_assoc(l13, e14, t14);
    assert(fields == l13 + t13);
    lemma_seq_assoc(l12, e13, t13);
    assert(fields == l12 + t12);
    lemma_seq_assoc(l11, e12, t12);
    assert(fields == l11 + t11);
    lemma_seq_assoc(l10, e11, t11);
    assert(fields == l10 + t10);
    lemma_seq_assoc(l9, e10, t10);
    assert(fields == l9 + t9);
    lemma_seq_assoc(l8, e9, t9);
    assert(fields == l8 + t8);
    lemma_seq_assoc(l7, e8, t8);
    assert(fields == l7 + t7);
    lemma_seq_assoc(l6, e7, t7);
    assert(fields == l6 + t6);
    lemma_seq_assoc(l5, e6, t6);
    assert(fields == l5 + t5);
    lemma_seq_assoc(l4, e5, t5);
    assert(fields == l4 + t4);
    lemma_seq_assoc(l3, e4, t4);
    assert(fields == l3 + t3);
    lemma_seq_assoc(l2, e3, t3);
    assert(fields == l2 + t2);
    lemma_seq_assoc(e1, e2, t2);
    assert(fields == t0);
    lemma_str_roundtrip(v.name, t1);
    lemma_u32_roundtrip(v.handle, t2);
    lemma_role_roundtrip(v.role, t3);
    lemma_opt_snd_settle_roundtrip(v.snd_settle_mode, t4);
    lemma_opt_rcv_settle_roundtrip(v.rcv_settle_mode, t5);
    lemma_opt_source_roundtrip(v.source, t6);
    lemma_opt_target_roundtrip(v.target, t7);
    lemma_opt_pair_map_roundtrip(v.unsettled, t8);
    lemma_opt_bool_roundtrip(v.incomplete_unsettled, t9);
    lemma_opt_u32_roundtrip(v.initial_delivery_count, t10);
    lemma_opt_u64_roundtrip(v.max_message_size, t11);
    lemma_opt_str_list_roundtrip(v.offered_capabilities, t12);
    lemma_opt_str_list_roundtrip(v.desired_capabilities, t13);
    lemma_opt_pair_map_roundtrip(v.properties, t14);
    lemma_attach_fields_compose(v, t0, t1, t2, t3, t4, t5, t6, t7, t8, t9, t10, t11, t12, t13, t14);
}

/// Composes known field parses into the whole Flow field run.
#[verifier::rlimit(100)]
#[verifier::spinoff_prover]
proof fn lemma_flow_fields_compose(
    v: crate::amqp::FlowV,
    t0: Seq<u8>,
    t1: Seq<u8>,
    t2: Seq<u8>,
    t3: Seq<u8>,
    t4: Seq<u8>,
    t5: Seq<u8>,
    t6: Seq<u8>,
    t7: Seq<u8>,
    t8: Seq<u8>,
    t9: Seq<u8>,
    t10: Seq<u8>,
    t11: Seq<u8>,
)
    requires
        crate::de::dec_opt_u32(t0) == Ok::<_, Error>((v.next_incoming_id, t1)),
        crate::de::dec_u32(t1) == Ok::<_, Error>((v.incoming_window, t2)),
        crate::de::dec_u32(t2) == Ok::<_, Error>((v.next_outgoing_id, t3)),
        crate::de::dec_u32(t3) == Ok::<_, Error>((v.outgoing_window, t4)),
        crate::de::dec_opt_u32(t4) == Ok::<_, Error>((v.handle, t5)),
        crate::de::dec_opt_u32(t5) == Ok::<_, Error>((v.delivery_count, t6)),
        crate::de::dec_opt_u32(t6) == Ok::<_, Error>((v.link_credit, t7)),
        crate::de::dec_opt_u32(t7) == Ok::<_, Error>((v.available, t8)),
        crate::de::dec_opt_bool(None, t8) == Ok::<_, Error>((v.drain, t9)),
        crate::de::dec_opt_bool(None, t9) == Ok::<_, Error>((v.echo, t10)),
        crate::amqp::dec_opt_elem_map::<(Vec<u8>, Vec<u8>)>(t10) == Ok::<_, Error>((v.properties, t11)),
    ensures
        crate::amqp::dec_flow_fields(None, t0) == Ok::<_, Error>((v, t11)),
{
    reveal(crate::amqp::dec_flow_fields);
}

/// A Flow body decodes back to the value it was encoded from.
#[verifier::rlimit(100)]
#[verifier::spinoff_prover]
pub proof fn lemma_flow_body_roundtrip(v: crate::amqp::FlowV, rest: Seq<u8>)
    requires
        crate::amqp::enc_flow_fields_ok(v),
        enc_compound_ok(crate::amqp::enc_flow_fields(v)),
    ensures
        crate::amqp::dec_flow_body(
            None,
            enc_list_compound(11, crate::amqp::enc_flow_fields(v)) + rest,
        ) == Ok::<_, Error>((v, rest)),
{
    let fields = crate::amqp::enc_flow_fields(v);
    let s = enc_list_compound(11, fields) + rest;
    assert(s[0] == 0xd0);
    lemma_list_compound_roundtrip(11, fields, rest);
    let s1 = fields + rest;
    assert(s1.take(fields.len() as int) =~= fields);
    assert(s1.skip(fields.len() as int) =~= rest);
    let e1 = crate::ser::enc_opt_u32(v.next_incoming_id);
    let e2 = enc_u32(v.incoming_window);
    let e3 = enc_u32(v.next_outgoing_id);
    let e4 = enc_u32(v.outgoing_window);
    let e5 = crate::ser::enc_opt_u32(v.handle);
    let e6 = crate::ser::enc_opt_u32(v.delivery_count);
    let e7 = crate::ser::enc_opt_u32(v.link_credit);
    let e8 = crate::ser::enc_opt_u32(v.available);
    let e9 = crate::ser::enc_opt_bool(v.drain);
    let e10 = crate::ser::enc_opt_bool(v.echo);
    let e11 = crate::amqp::enc_opt_elem_map::<(Vec<u8>, Vec<u8>)>(v.properties);
    let l2 = e1 + e2;
    let l3 = l2 + e3;
    let l4 = l3 + e4;
    let l5 = l4 + e5;
    let l6 = l5 + e6;
    let l7 = l6 + e7;
    let l8 = l7 + e8;
    let l9 = l8 + e9;
    let l10 = l9 + e10;
    let l11 = l10 + e11;
    let t11: Seq<u8> = Seq::empty();
    let t10 = e11 + t11;
    let t9 = e10 + t10;
    let t8 = e9 + t9;
    let t7 = e8 + t8;
    let t6 = e7 + t7;
    let t5 = e6 + t6;
    let t4 = e5 + t5;
    let t3 = e4 + t4;
    let t2 = e3 + t3;
    let t1 = e2 + t2;
    let t0 = e1 + t1;
    assert(fields == l11);
    lemma_seq_add_empty(l11);
    assert(fields == l11 + t11);
    lemma_seq_assoc(l10, e11, t11);
    assert(fields == l10 + t10);
    lemma_seq_assoc(l9, e10, t10);
    assert(fields == l9 + t9);
    lemma_seq_assoc(l8, e9, t9);
    assert(fields == l8 + t8);
    lemma_seq_assoc(l7, e8, t8);
    assert(fields == l7 + t7);
    lemma_seq_assoc(l6, e7, t7);
    assert(fields == l6 + t6);
    lemma_seq_assoc(l5, e6, t6);
    assert(fields == l5 + t5);
    lemma_seq_assoc(l4, e5, t5);
    assert(fields == l4 + t4);
    lemma_seq_assoc(l3, e4, t4);
    assert(fields == l3 + t3);
    lemma_seq_assoc(l2, e3, t3);
    assert(fields == l2 + t2);
    lemma_seq_assoc(e1, e2, t2);
    assert(fields == t0);
    lemma_opt_u32_roundtrip(v.next_incoming_id, t1);
    lemma_u32_roundtrip(v.incoming_window, t2);
    lemma_u32_roundtrip(v.next_outgoing_id, t3);
    lemma_u32_roundtrip(v.outgoing_window, t4);
    lemma_opt_u32_roundtrip(v.handle, t5);
    lemma_opt_u32_roundtrip(v.delivery_count, t6);
    lemma_opt_u32_roundtrip(v.link_credit, t7);
    lemma_opt_u32_roundtrip(v.available, t8);
    lemma_opt_bool_roundtrip(v.drain, t9);
    lemma_opt_bool_roundtrip(v.echo, t10);
    lemma_opt_pair_map_roundtrip(v.properties, t11);
    lemma_flow_fields_compose(v, t0, t1, t2, t3, t4, t5, t6, t7, t8, t9, t10, t11);
}

/// Composes known field parses into the whole Transfer field run.
#[verifier::rlimit(100)]
#[verifier::spinoff_prover]
proof fn lemma_transfer_fields_compose(
    v: crate::amqp::TransferV,
    t0: Seq<u8>,
    t1: Seq<u8>,
    t2: Seq<u8>,
    t3: Seq<u8>,
    t4: Seq<u8>,
    t5: Seq<u8>,
    t6: Seq<u8>,
    t7: Seq<u8>,
    t8: Seq<u8>,
    t9: Seq<u8>,
    t10: Seq<u8>,
    t11: Seq<u8>,
)
    requires
        crate::de::dec_u32(t0) == Ok::<_, Error>((v.handle, t1)),
        crate::de::dec_opt_u32(t1) == Ok::<_, Error>((v.delivery_id, t2)),
        crate::de::dec_opt_bin(None, t2) == Ok::<_, Error>((v.delivery_tag, t3)),
        crate::de::dec_opt_u32(t3) == Ok::<_, Error>((v.message_format, t4)),
        crate::de::dec_opt_bool(None, t4) == Ok::<_, Error>((v.settled, t5)),
        crate::de::dec_opt_bool(None, t5) == Ok::<_, Error>((v.more, t6)),
        crate::amqp::dec_opt_rcv_settle(None, t6) == Ok::<_, Error>((v.rcv_settle_mode, t7)),
        crate::amqp::dec_opt_delivery_state(None, t7) == Ok::<_, Error>((v.state, t8)),
        crate::de::dec_opt_bool(None, t8) == Ok::<_, Error>((v.resume, t9)),
        crate::de::dec_opt_bool(None, t9) == Ok::<_, Error>((v.aborted, t10)),
        crate::de::dec_opt_bool(None, t10) == Ok::<_, Error>((v.batchable, t11)),
    ensures
        crate::amqp::dec_transfer_fields(None, t0) == Ok::<_, Error>((v, t11)),
{
    reveal(crate::amqp::dec_transfer_fields);
}

/// A Transfer body decodes back to the value it was encoded from.
#[verifier::rlimit(100)]
#[verifier::spinoff_prover]
pub proof fn lemma_transfer_body_roundtrip(v: crate::amqp::TransferV, rest: Seq<u8>)
    requires
        crate::amqp::enc_transfer_fields_ok(v),
        enc_compound_ok(crate::amqp::enc_transfer_fields(v)),
    ensures
        crate::amqp::dec_transfer_body(
            None,
            enc_list_compound(11, crate::amqp::enc_transfer_fields(v)) + rest,
        ) == Ok::<_, Error>((v, rest)),
{
    let fields = crate::amqp::enc_transfer_fields(v);
    let s = enc_list_compound(11, fields) + rest;
    assert(s[0] == 0xd0);
    lemma_list_compound_roundtrip(11, fields, rest);
    let s1 = fields + rest;
    assert(s1.take(fields.len() as int) =~= fields);
    assert(s1.skip(fields.len() as int) =~= rest);
    let e1 = enc_u32(v.handle);
    let e2 = crate::ser::enc_opt_u32(v.delivery_id);
    let e3 = crate::ser::enc_opt_bin(v.delivery_tag);
    let e4 = crate::ser::enc_opt_u32(v.message_format);
    let e5 = crate::ser::enc_opt_bool(v.settled);
    let e6 = crate::ser::enc_opt_bool(v.more);
    let e7 = crate::amqp::enc_opt_rcv_settle(v.rcv_settle_mode);
    let e8 = crate::amqp::enc_opt_delivery_state(v.state);
    let e9 = crate::ser::enc_opt_bool(v.resume);
    let e10 = crate::ser::enc_opt_bool(v.aborted);
    let e11 = crate::ser::enc_opt_bool(v.batchable);
    let l2 = e1 + e2;
    let l3 = l2 + e3;
    let l4 = l3 + e4;
    let l5 = l4 + e5;
    let l6 = l5 + e6;
    let l7 = l6 + e7;
    let l8 = l7 + e8;
    let l9 = l8 + e9;
    let l10 = l9 + e10;
    let l11 = l10 + e11;
    let t11: Seq<u8> = Seq::empty();
    let t10 = e11 + t11;
    let t9 = e10 + t10;
    let t8 = e9 + t9;
    let t7 = e8 + t8;
    let t6 = e7 + t7;
    let t5 = e6 + t6;
    let t4 = e5 + t5;
    let t3 = e4 + t4;
    let t2 = e3 + t3;
    let t1 = e2 + t2;
    let t0 = e1 + t1;
    assert(fields == l11);
    lemma_seq_add_empty(l11);
    assert(fields == l11 + t11);
    lemma_seq_assoc(l10, e11, t11);
    assert(fields == l10 + t10);
    lemma_seq_assoc(l9, e10, t10);
    assert(fields == l9 + t9);
    lemma_seq_assoc(l8, e9, t9);
    assert(fields == l8 + t8);
    lemma_seq_assoc(l7, e8, t8);
    assert(fields == l7 + t7);
    lemma_seq_assoc(l6, e7, t7);
    assert(fields == l6 + t6);
    lemma_seq_assoc(l5, e6, t6);
    assert(fields == l5 + t5);
    lemma_seq_assoc(l4, e5, t5);
    assert(fields == l4 + t4);
    lemma_seq_assoc(l3, e4, t4);
    assert(fields == l3 + t3);
    lemma_seq_assoc(l2, e3, t3);
    assert(fields == l2 + t2);
    lemma_seq_assoc(e1, e2, t2);
    assert(fields == t0);
    lemma_u32_roundtrip(v.handle, t1);
    lemma_opt_u32_roundtrip(v.delivery_id, t2);
    lemma_opt_bin_roundtrip(v.delivery_tag, t3);
    lemma_opt_u32_roundtrip(v.message_format, t4);
    lemma_opt_bool_roundtrip(v.settled, t5);
    lemma_opt_bool_roundtrip(v.more, t6);
    lemma_opt_rcv_settle_roundtrip(v.rcv_settle_mode, t7);
    lemma_opt_delivery_state_roundtrip(v.state, t8);
    lemma_opt_bool_roundtrip(v.resume, t9);
    lemma_opt_bool_roundtrip(v.aborted, t10);
    lemma_opt_bool_roundtrip(v.batchable, t11);
    lemma_transfer_fields_compose(v, t0, t1, t2, t3, t4, t5, t6, t7, t8, t9, t10, t11);
}

/// Composes known field parses into the whole Disposition field run.
#[verifier::rlimit(100)]
#[verifier::spinoff_prover]
proof fn lemma_disposition_fields_compose(
    v: crate::amqp::DispositionV,
    t0: Seq<u8>,
    t1: Seq<u8>,
    t2: Seq<u8>,
    t3: Seq<u8>,
    t4: Seq<u8>,
    t5: Seq<u8>,
    t6: Seq<u8>,
)
    requires
        crate::amqp::dec_role(None, t0) == Ok::<_, Error>((v.role, t1)),
        crate::de::dec_u32(t1) == Ok::<_, Error>((v.first, t2)),
        crate::de::dec_opt_u32(t2) == Ok::<_, Error>((v.last, t3)),
        crate::de::dec_opt_bool(None, t3) == Ok::<_, Error>((v.settled, t4)),
        crate::amqp::dec_opt_delivery_state(None, t4) == Ok::<_, Error>((v.state, t5)),
        crate::de::dec_opt_bool(None, t5) == Ok::<_, Error>((v.batchable, t6)),
    ensures
        crate::amqp::dec_disposition_fields(None, t0) == Ok::<_, Error>((v, t6)),
{
    reveal(crate::amqp::dec_disposition_fields);
}

/// A Disposition body decodes back to the value it was encoded from.
#[verifier::rlimit(100)]
#[verifier::spinoff_prover]
pub proof fn lemma_disposition_body_roundtrip(v: crate::amqp::DispositionV, rest: Seq<u8>)
    requires
        crate::amqp::enc_disposition_fields_ok(v),
        enc_compound_ok(crate::amqp::enc_disposition_fields(v)),
    ensures
        crate::amqp::dec_disposition_body(
            None,
            enc_list_compound(6, crate::amqp::enc_disposition_fields(v)) + rest,
        ) == Ok::<_, Error>((v, rest)),
{
    let fields = crate::amqp::enc_disposition_fields(v);
    let s = enc_list_compound(6, fields) + rest;
    assert(s[0] == 0xd0);
    lemma_list_compound_roundtrip(6, fields, rest);
    let s1 = fields + rest;
    assert(s1.take(fields.len() as int) =~= fields);
    assert(s1.skip(fields.len() as int) =~= rest);
    let e1 = crate::amqp::enc_role(v.role);
    let e2 = enc_u32(v.first);
    let e3 = crate::ser::enc_opt_u32(v.last);
    let e4 = crate::ser::enc_opt_bool(v.settled);
    let e5 = crate::amqp::enc_opt_delivery_state(v.state);
    let e6 = crate::ser::enc_opt_bool(v.batchable);
    let l2 = e1 + e2;
    let l3 = l2 + e3;
    let l4 = l3 + e4;
    let l5 = l4 + e5;
    let l6 = l5 + e6;
    let t6: Seq<u8> = Seq::empty();
    let t5 = e6 + t6;
    let t4 = e5 + t5;
    let t3 = e4 + t4;
    let t2 = e3 + t3;
    let t1 = e2 + t2;
    let t0 = e1 + t1;
    assert(fields == l6);
    lemma_seq_add_empty(l6);
    assert(fields == l6 + t6);
    lemma_seq_assoc(l5, e6, t6);
    assert(fields == l5 + t5);
    lemma_seq_assoc(l4, e5, t5);
    assert(fields == l4 + t4);
    lemma_seq_assoc(l3, e4, t4);
    assert(fields == l3 + t3);
    lemma_seq_assoc(l2, e3, t3);
    assert(fields == l2 + t2);
    lemma_seq_assoc(e1, e2, t2);
    assert(fields == t0);
    lemma_role_roundtrip(v.role, t1);
    lemma_u32_roundtrip(v.first, t2);
    lemma_opt_u32_roundtrip(v.last, t3);
    lemma_opt_bool_roundtrip(v.settled, t4);
    lemma_opt_delivery_state_roundtrip(v.state, t5);
    lemma_opt_bool_roundtrip(v.batchable, t6);
    lemma_disposition_fields_compose(v, t0, t1, t2, t3, t4, t5, t6);
}

/// Composes known field parses into the whole Detach field run.
#[verifier::rlimit(100)]
#[verifier::spinoff_prover]
proof fn lemma_detach_fields_compose(
    v: crate::amqp::DetachV,
    t0: Seq<u8>,
    t1: Seq<u8>,
    t2: Seq<u8>,
    t3: Seq<u8>,
)
    requires
        crate::de::dec_u32(t0) == Ok::<_, Error>((v.handle, t1)),
        crate::de::dec_opt_bool(None, t1) == Ok::<_, Error>((v.closed, t2)),
        crate::amqp::dec_opt_error_condition(None, t2) == Ok::<_, Error>((v.error, t3)),
    ensures
        crate::amqp::dec_detach_fields(None, t0) == Ok::<_, Error>((v, t3)),
{
    reveal(crate::amqp::dec_detach_fields);
}

/// A Detach body decodes back to the value it was encoded from.
#[verifier::rlimit(100)]
#[verifier::spinoff_prover]
pub proof fn lemma_detach_body_roundtrip(v: crate::amqp::DetachV, rest: Seq<u8>)
    requires
        crate::amqp::enc_detach_fields_ok(v),
        enc_compound_ok(crate::amqp::enc_detach_fields(v)),
    ensures
        crate::amqp::dec_detach_body(
            None,
            enc_list_compound(3, crate::amqp::enc_detach_fields(v)) + rest,
        ) == Ok::<_, Error>((v, rest)),
{
    let fields = crate::amqp::enc_detach_fields(v);
    let s = enc_list_compound(3, fields) + rest;
    assert(s[0] == 0xd0);
    lemma_list_compound_roundtrip(3, fields, rest);
    let s1 = fields + rest;
    assert(s1.take(fields.len() as int) =~= fields);
    assert(s1.skip(fields.len() as int) =~= rest);
    let e1 = enc_u32(v.handle);
    let e2 = crate::ser::enc_opt_bool(v.closed);
    let e3 = crate::amqp::enc_opt_error_condition(v.error);
    let l2 = e1 + e2;
    let l3 = l2 + e3;
    let t3: Seq<u8> = Seq::empty();
    let t2 = e3 + t3;
    let t1 = e2 + t2;
    let t0 = e1 + t1;
    assert(fields == l3);
    lemma_seq_add_empty(l3);
    assert(fields == l3 + t3);
    lemma_seq_assoc(l2, e3, t3);
    assert(fields == l2 + t2);
    lemma_seq_assoc(e1, e2, t2);
    assert(fields == t0);
    lemma_u32_roundtrip(v.handle, t1);
    lemma_opt_bool_roundtrip(v.closed, t2);
    lemma_opt_error_condition_roundtrip(v.error, t3);
    lemma_detach_fields_compose(v, t0, t1, t2, t3);
}

/// Composes known field parses into the whole Close field run.
#[verifier::rlimit(100)]
#[verifier::spinoff_prover]
proof fn lemma_close_fields_compose(
    v: crate::amqp::CloseV,
    t0: Seq<u8>,
    t1: Seq<u8>,
)
    requires
        crate::amqp::dec_opt_error_condition(None, t0) == Ok::<_, Error>((v.error, t1)),
    ensures
        crate::amqp::dec_close_fields(None, t0) == Ok::<_, Error>((v, t1)),
{
    reveal(crate::amqp::dec_close_fields);
}

/// A Close body decodes back to the value it was encoded from.
#[verifier::rlimit(100)]
#[verifier::spinoff_prover]
pub proof fn lemma_close_body_roundtrip(v: crate::amqp::CloseV, rest: Seq<u8>)
    requires
        crate::amqp::enc_close_fields_ok(v),
        enc_compound_ok(crate::amqp::enc_close_fields(v)),
    ensures
        crate::amqp::dec_close_body(
            None,
            enc_list_compound(1, crate::amqp::enc_close_fields(v)) + rest,
        ) == Ok::<_, Error>((v, rest)),
{
    let fields = crate::amqp::enc_close_fields(v);
    let s = enc_list_compound(1, fields) + rest;
    assert(s[0] == 0xd0);
    lemma_list_compound_roundtrip(1, fields, rest);
    let s1 = fields + rest;
    assert(s1.take(fields.len() as int) =~= fields);
    assert(s1.skip(fields.len() as int) =~= rest);
    let e1 = crate::amqp::enc_opt_error_condition(v.error);
    let t1: Seq<u8> = Seq::empty();
    let t0 = e1 + t1;
    lemma_seq_add_empty(e1);
    assert(fields == t0);
    lemma_opt_error_condition_roundtrip(v.error, t1);
    lemma_close_fields_compose(v, t0, t1);
}

/// Composes known field parses into the whole ErrorCondition field run.
#[verifier::rlimit(100)]
#[verifier::spinoff_prover]
proof fn lemma_error_condition_fields_compose(
    v: crate::amqp::ErrorConditionV,
    t0: Seq<u8>,
    t1: Seq<u8>,
    t2: Seq<u8>,
    t3: Seq<u8>,
)
    requires
        crate::de::dec_str(None, t0) == Ok::<_, Error>((v.condition, t1)),
        crate::de::dec_str(None, t1) == Ok::<_, Error>((v.description, t2)),
        crate::amqp::dec_opt_elem_map::<(Vec<u8>, Vec<u8>)>(t2) == Ok::<_, Error>((v.info, t3)),
    ensures
        crate::amqp::dec_error_condition_fields(None, t0) == Ok::<_, Error>((v, t3)),
{
    reveal(crate::amqp::dec_error_condition_fields);
}

/// A ErrorCondition body decodes back to the value it was encoded from.
#[verifier::rlimit(100)]
#[verifier::spinoff_prover]
pub proof fn lemma_error_condition_body_roundtrip(v: crate::amqp::ErrorConditionV, rest: Seq<u8>)
    requires
        crate::amqp::enc_error_condition_fields_ok(v),
        enc_compound_ok(crate::amqp::enc_error_condition_fields(v)),
    ensures
        crate::amqp::dec_error_condition_body(
            None,
            enc_list_compound(3, crate::amqp::enc_error_condition_fields(v)) + rest,
        ) == Ok::<_, Error>((v, rest)),
{
    let fields = crate::amqp::enc_error_condition_fields(v);
    let s = enc_list_compound(3, fields) + rest;
    assert(s[0] == 0xd0);
    lemma_list_compound_roundtrip(3, fields, rest);
    let s1 = fields + rest;
    assert(s1.take(fields.len() as int) =~= fields);
    assert(s1.skip(fields.len() as int) =~= rest);
    let e1 = enc_str(v.condition);
    let e2 = enc_str(v.description);
    let e3 = crate::amqp::enc_opt_elem_map::<(Vec<u8>, Vec<u8>)>(v.info);
    let l2 = e1 + e2;
    let l3 = l2 + e3;
    let t3: Seq<u8> = Seq::empty();
    let t2 = e3 + t3;
    let t1 = e2 + t2;
    let t0 = e1 + t1;
    assert(fields == l3);
    lemma_seq_add_empty(l3);
    assert(fields == l3 + t3);
    lemma_seq_assoc(l2, e3, t3);
    assert(fields == l2 + t2);
    lemma_seq_assoc(e1, e2, t2);
    assert(fields == t0);
    lemma_str_roundtrip(v.condition, t1);
    lemma_str_roundtrip(v.description, t2);
    lemma_opt_pair_map_roundtrip(v.info, t3);
    lemma_error_condition_fields_compose(v, t0, t1, t2, t3);
}

/// Composes known field parses into the whole Source field run.
#[verifier::rlimit(100)]
#[verifier::spinoff_prover]
proof fn lemma_source_fields_compose(
    v: crate::amqp::SourceV,
    t0: Seq<u8>,
    t1: Seq<u8>,
    t2: Seq<u8>,
    t3: Seq<u8>,
    t4: Seq<u8>,
    t5: Seq<u8>,
    t6: Seq<u8>,
    t7: Seq<u8>,
    t8: Seq<u8>,
    t9: Seq<u8>,
    t10: Seq<u8>,
    t11: Seq<u8>,
)
    requires
        crate::de::dec_opt_str(None, t0) == Ok::<_, Error>((v.address, t1)),
        crate::amqp::dec_opt_durability(None, t1) == Ok::<_, Error>((v.durable, t2)),
        crate::amqp::dec_opt_expiry(None, t2) == Ok::<_, Error>((v.expiry_policy, t3)),
        crate::de::dec_opt_u32(t3) == Ok::<_, Error>((v.timeout, t4)),
        crate::de::dec_opt_bool(None, t4) == Ok::<_, Error>((v.dynamic, t5)),
        crate::amqp::dec_opt_elem_map::<(Vec<u8>, Vec<u8>)>(t5) == Ok::<_, Error>((v.dynamic_node_properties, t6)),
        crate::amqp::dec_opt_distribution(None, t6) == Ok::<_, Error>((v.distribution_mode, t7)),
        crate::amqp::dec_opt_elem_map::<(Vec<u8>, Vec<u8>)>(t7) == Ok::<_, Error>((v.filter, t8)),
        crate::amqp::dec_opt_outcome(None, t8) == Ok::<_, Error>((v.default_outcome, t9)),
        crate::amqp::dec_opt_elem_list::<Vec<u8>>(None, t9) == Ok::<_, Error>((v.outcomes, t10)),
        crate::amqp::dec_opt_elem_list::<Vec<u8>>(None, t10) == Ok::<_, Error>((v.capabilities, t11)),
    ensures
        crate::amqp::dec_source_fields(None, t0) == Ok::<_, Error>((v, t11)),
{
    reveal(crate::amqp::dec_source_fields);
}

/// A Source body decodes back to the value it was encoded from.
#[verifier::rlimit(100)]
#[verifier::spinoff_prover]
pub proof fn lemma_source_body_roundtrip(v: crate::amqp::SourceV, rest: Seq<u8>)
    requires
        crate::amqp::enc_source_fields_ok(v),
        enc_compound_ok(crate::amqp::enc_source_fields(v)),
    ensures
        crate::amqp::dec_source_body(
            None,
            enc_list_compound(11, crate::amqp::enc_source_fields(v)) + rest,
        ) == Ok::<_, Error>((v, rest)),
{
    let fields = crate::amqp::enc_source_fields(v);
    let s = enc_list_compound(11, fields) + rest;
    assert(s[0] == 0xd0);
    lemma_list_compound_roundtrip(11, fields, rest);
    let s1 = fields + rest;
    assert(s1.take(fields.len() as int) =~= fields);
    assert(s1.skip(fields.len() as int) =~= rest);
    let e1 = crate::ser::enc_opt_str(v.address);
    let e2 = crate::amqp::enc_opt_durability(v.durable);
    let e3 = crate::amqp::enc_opt_expiry(v.expiry_policy);
    let e4 = crate::ser::enc_opt_u32(v.timeout);
    let e5 = crate::ser::enc_opt_bool(v.dynamic);
    let e6 = crate::amqp::enc_opt_elem_map::<(Vec<u8>, Vec<u8>)>(v.dynamic_node_properties);
    let e7 = crate::amqp::enc_opt_distribution(v.distribution_mode);
    let e8 = crate::amqp::enc_opt_elem_map::<(Vec<u8>, Vec<u8>)>(v.filter);
    let e9 = crate::amqp::enc_opt_outcome(v.default_outcome);
    let e10 = crate::amqp::enc_opt_elem_list::<Vec<u8>>(v.outcomes);
    let e11 = crate::amqp::enc_opt_elem_list::<Vec<u8>>(v.capabilities);
    let l2 = e1 + e2;
    let l3 = l2 + e3;
    let l4 = l3 + e4;
    let l5 = l4 + e5;
    let l6 = l5 + e6;
    let l7 = l6 + e7;
    let l8 = l7 + e8;
    let l9 = l8 + e9;
    let l10 = l9 + e10;
    let l11 = l10 + e11;
    let t11: Seq<u8> = Seq::empty();
    let t10 = e11 + t11;
    let t9 = e10 + t10;
    let t8 = e9 + t9;
    let t7 = e8 + t8;
    let t6 = e7 + t7;
    let t5 = e6 + t6;
    let t4 = e5 + t5;
    let t3 = e4 + t4;
    let t2 = e3 + t3;
    let t1 = e2 + t2;
    let t0 = e1 + t1;
    assert(fields == l11);
    lemma_seq_add_empty(l11);
    assert(fields == l11 + t11);
    lemma_seq_assoc(l10, e11, t11);
    assert(fields == l10 + t10);
    lemma_seq_assoc(l9, e10, t10);
    assert(fields == l9 + t9);
    lemma_seq_assoc(l8, e9, t9);
    assert(fields == l8 + t8);
    lemma_seq_assoc(l7, e8, t8);
    assert(fields == l7 + t7);
    lemma_seq_assoc(l6, e7, t7);
    assert(fields == l6 + t6);
    lemma_seq_assoc(l5, e6, t6);
    assert(fields == l5 + t5);
    lemma_seq_assoc(l4, e5, t5);
    assert(fields == l4 + t4);
    lemma_seq_assoc(l3, e4, t4);
    assert(fields == l3 + t3);
    lemma_seq_assoc(l2, e3, t3);
    assert(fields == l2 + t2);
    lemma_seq_assoc(e1, e2, t2);
    assert(fields == t0);
    lemma_opt_str_roundtrip(v.address, t1);
    lemma_opt_durability_roundtrip(v.durable, t2);
    lemma_opt_expiry_roundtrip(v.expiry_policy, t3);
    lemma_opt_u32_roundtrip(v.timeout, t4);
    lemma_opt_bool_roundtrip(v.dynamic, t5);
    lemma_opt_pair_map_roundtrip(v.dynamic_node_properties, t6);
    lemma_opt_distribution_roundtrip(v.distribution_mode, t7);
    lemma_opt_pair_map_roundtrip(v.filter, t8);
    lemma_opt_outcome_roundtrip(v.default_outcome, t9);
    lemma_opt_str_list_roundtrip(v.outcomes, t10);
    lemma_opt_str_list_roundtrip(v.capabilities, t11);
    lemma_source_fields_compose(v, t0, t1, t2, t3, t4, t5, t6, t7, t8, t9, t10, t11);
}

/// Composes known field parses into the whole Target field run.
#[verifier::rlimit(100)]
#[verifier::spinoff_prover]
proof fn lemma_target_fields_compose(
    v: crate::amqp::TargetV,
    t0: Seq<u8>,
    t1: Seq<u8>,
    t2: Seq<u8>,
    t3: Seq<u8>,
    t4: Seq<u8>,
    t5: Seq<u8>,
    t6: Seq<u8>,
    t7: Seq<u8>,
)
    requires
        crate::de::dec_opt_str(None, t0) == Ok::<_, Error>((v.address, t1)),
        crate::de::dec_opt_u32(t1) == Ok::<_, Error>((v.durable, t2)),
        crate::amqp::dec_opt_expiry(None, t2) == Ok::<_, Error>((v.expiry_policy, t3)),
        crate::de::dec_opt_u32(t3) == Ok::<_, Error>((v.timeout, t4)),
        crate::de::dec_opt_bool(None, t4) == Ok::<_, Error>((v.dynamic, t5)),
        crate::amqp::dec_opt_elem_map::<(Vec<u8>, Vec<u8>)>(t5) == Ok::<_, Error>((v.dynamic_node_properties, t6)),
        crate::amqp::dec_opt_elem_list::<Vec<u8>>(None, t6) == Ok::<_, Error>((v.capabilities, t7)),
    ensures
        crate::amqp::dec_target_fields(None, t0) == Ok::<_, Error>((v, t7)),
{
    reveal(crate::amqp::dec_target_fields);
}

/// A Target body decodes back to the value it was encoded from.
#[verifier::rlimit(100)]
#[verifier::spinoff_prover]
pub proof fn lemma_target_body_roundtrip(v: crate::amqp::TargetV, rest: Seq<u8>)
    requires
        crate::amqp::enc_target_fields_ok(v),
        enc_compound_ok(crate::amqp::enc_target_fields(v)),
    ensures
        crate::amqp::dec_target_body(
            None,
            enc_list_compound(7, crate::amqp::enc_target_fields(v)) + rest,
        ) == Ok::<_, Error>((v, rest)),
{
    let fields = crate::amqp::enc_target_fields(v);
    let s = enc_list_compound(7, fields) + rest;
    assert(s[0] == 0xd0);
    lemma_list_compound_roundtrip(7, fields, rest);
    let s1 = fields + rest;
    assert(s1.take(fields.len() as int) =~= fields);
    assert(s1.skip(fields.len() as int) =~= rest);
    let e1 = crate::ser::enc_opt_str(v.address);
    let e2 = crate::ser::enc_opt_u32(v.durable);
    let e3 = crate::amqp::enc_opt_expiry(v.expiry_policy);
    let e4 = crate::ser::enc_opt_u32(v.timeout);
    let e5 = crate::ser::enc_opt_bool(v.dynamic);
    let e6 = crate::amqp::enc_opt_elem_map::<(Vec<u8>, Vec<u8>)>(v.dynamic_node_properties);
    let e7 = crate::amqp::enc_opt_elem_list::<Vec<u8>>(v.capabilities);
    let l2 = e1 + e2;
    let l3 = l2 + e3;
    let l4 = l3 + e4;
    let l5 = l4 + e5;
    let l6 = l5 + e6;
    let l7 = l6 + e7;
    let t7: Seq<u8> = Seq::empty();
    let t6 = e7 + t7;
    let t5 = e6 + t6;
    let t4 = e5 + t5;
    let t3 = e4 + t4;
    let t2 = e3 + t3;
    let t1 = e2 + t2;
    let t0 = e1 + t1;
    assert(fields == l7);
    lemma_seq_add_empty(l7);
    assert(fields == l7 + t7);
    lemma_seq_assoc(l6, e7, t7);
    assert(fields == l6 + t6);
    lemma_seq_assoc(l5, e6, t6);
    assert(fields == l5 + t5);
    lemma_seq_assoc(l4, e5, t5);
    assert(fields == l4 + t4);
    lemma_seq_assoc(l3, e4, t4);
    assert(fields == l3 + t3);
    lemma_seq_assoc(l2, e3, t3);
    assert(fields == l2 + t2);
    lemma_seq_assoc(e1, e2, t2);
    assert(fields == t0);
    lemma_opt_str_roundtrip(v.address, t1);
    lemma_opt_u32_roundtrip(v.durable, t2);
    lemma_opt_expiry_roundtrip(v.expiry_policy, t3);
    lemma_opt_u32_roundtrip(v.timeout, t4);
    lemma_opt_bool_roundtrip(v.dynamic, t5);
    lemma_opt_pair_map_roundtrip(v.dynamic_node_properties, t6);
    lemma_opt_str_list_roundtrip(v.capabilities, t7);
    lemma_target_fields_compose(v, t0, t1, t2, t3, t4, t5, t6, t7);
}

/// Composes known field parses into the whole Header field run.
#[verifier::rlimit(100)]
#[verifier::spinoff_prover]
proof fn lemma_header_fields_compose(
    v: crate::amqp::HeaderV,
    t0: Seq<u8>,
    t1: Seq<u8>,
    t2: Seq<u8>,
    t3: Seq<u8>,
    t4: Seq<u8>,
    t5: Seq<u8>,
)
    requires
        crate::de::dec_opt_bool(None, t0) == Ok::<_, Error>((v.durable, t1)),
        crate::de::dec_opt_u8(t1) == Ok::<_, Error>((v.priority, t2)),
        crate::de::dec_opt_u32(t2) == Ok::<_, Error>((v.ttl, t3)),
        crate::de::dec_opt_bool(None, t3) == Ok::<_, Error>((v.first_acquirer, t4)),
        crate::de::dec_opt_u32(t4) == Ok::<_, Error>((v.delivery_count, t5)),
    ensures
        crate::amqp::dec_header_fields(None, t0) == Ok::<_, Error>((v, t5)),
{
    reveal(crate::amqp::dec_header_fields);
}

/// A Header body decodes back to the value it was encoded from.
#[verifier::rlimit(100)]
#[verifier::spinoff_prover]
pub proof fn lemma_header_body_roundtrip(v: crate::amqp::HeaderV, rest: Seq<u8>)
    requires
        crate::amqp::enc_header_fields_ok(v),
        enc_compound_ok(crate::amqp::enc_header_fields(v)),
    ensures
        crate::amqp::dec_header_body(
            None,
            enc_list_compound(5, crate::amqp::enc_header_fields(v)) + rest,
        ) == Ok::<_, Error>((v, rest)),
{
    reveal(crate::amqp::dec_header_body);
    let fields = crate::amqp::enc_header_fields(v);
    let s = enc_list_compound(5, fields) + rest;
    assert(s[0] == 0xd0);
    lemma_list_compound_roundtrip(5, fields, rest);
    let s1 = fields + rest;
    assert(s1.take(fields.len() as int) =~= fields);
    assert(s1.skip(fields.len() as int) =~= rest);
    let e1 = crate::ser::enc_opt_bool(v.durable);
    let e2 = crate::ser::enc_opt_u8(v.priority);
    let e3 = crate::ser::enc_opt_u32(v.ttl);
    let e4 = crate::ser::enc_opt_bool(v.first_acquirer);
    let e5 = crate::ser::enc_opt_u32(v.delivery_count);
    let l2 = e1 + e2;
    let l3 = l2 + e3;
    let l4 = l3 + e4;
    let l5 = l4 + e5;
    let t5: Seq<u8> = Seq::empty();
    let t4 = e5 + t5;
    let t3 = e4 + t4;
    let t2 = e3 + t3;
    let t1 = e2 + t2;
    let t0 = e1 + t1;
    assert(fields == l5);
    lemma_seq_add_empty(l5);
    assert(fields == l5 + t5);
    lemma_seq_assoc(l4, e5, t5);
    assert(fields == l4 + t4);
    lemma_seq_assoc(l3, e4, t4);
    assert(fields == l3 + t3);
    lemma_seq_assoc(l2, e3, t3);
    assert(fields == l2 + t2);
    lemma_seq_assoc(e1, e2, t2);
    assert(fields == t0);
    lemma_opt_bool_roundtrip(v.durable, t1);
    lemma_opt_u8_roundtrip(v.priority, t2);
    lemma_opt_u32_roundtrip(v.ttl, t3);
    lemma_opt_bool_roundtrip(v.first_acquirer, t4);
    lemma_opt_u32_roundtrip(v.delivery_count, t5);
    lemma_header_fields_compose(v, t0, t1, t2, t3, t4, t5);
}

/// Composes known field parses into the whole Properties field run.
#[verifier::rlimit(100)]
#[verifier::spinoff_prover]
proof fn lemma_properties_fields_compose(
    v: crate::amqp::PropertiesV,
    t0: Seq<u8>,
    t1: Seq<u8>,
    t2: Seq<u8>,
    t3: Seq<u8>,
    t4: Seq<u8>,
    t5: Seq<u8>,
    t6: Seq<u8>,
    t7: Seq<u8>,
    t8: Seq<u8>,
    t9: Seq<u8>,
    t10: Seq<u8>,
    t11: Seq<u8>,
    t12: Seq<u8>,
    t13: Seq<u8>,
)
    requires
        crate::de::dec_opt_str(None, t0) == Ok::<_, Error>((v.message_id, t1)),
        crate::de::dec_opt_bin(None, t1) == Ok::<_, Error>((v.user_id, t2)),
        crate::de::dec_opt_str(None, t2) == Ok::<_, Error>((v.to, t3)),
        crate::de::dec_opt_str(None, t3) == Ok::<_, Error>((v.subject, t4)),
        crate::de::dec_opt_str(None, t4) == Ok::<_, Error>((v.reply_to, t5)),
        crate::de::dec_opt_str(None, t5) == Ok::<_, Error>((v.correlation_id, t6)),
        crate::de::dec_opt_str(None, t6) == Ok::<_, Error>((v.content_type, t7)),
        crate::de::dec_opt_str(None, t7) == Ok::<_, Error>((v.content_encoding, t8)),
        crate::de::dec_opt_i64(t8) == Ok::<_, Error>((v.absolute_expiry_time, t9)),
        crate::de::dec_opt_i64(t9) == Ok::<_, Error>((v.creation_time, t10)),
        crate::de::dec_opt_str(None, t10) == Ok::<_, Error>((v.group_id, t11)),
        crate::de::dec_opt_u32(t11) == Ok::<_, Error>((v.group_sequence, t12)),
        crate::de::dec_opt_str(None, t12) == Ok::<_, Error>((v.reply_to_group_id, t13)),
    ensures
        crate::amqp::dec_properties_fields(None, t0) == Ok::<_, Error>((v, t13)),
{
    reveal(crate::amqp::dec_properties_fields);
}

/// A Properties body decodes back to the value it was encoded from.
#[verifier::rlimit(100)]
#[verifier::spinoff_prover]
pub proof fn lemma_properties_body_roundtrip(v: crate::amqp::PropertiesV, rest: Seq<u8>)
    requires
        crate::amqp::enc_properties_fields_ok(v),
        enc_compound_ok(crate::amqp::enc_properties_fields(v)),
    ensures
        crate::amqp::dec_properties_body(
            None,
            enc_list_compound(13, crate::amqp::enc_properties_fields(v)) + rest,
        ) == Ok::<_, Error>((v, rest)),
{
    reveal(crate::amqp::dec_properties_body);
    let fields = crate::amqp::enc_properties_fields(v);
    let s = enc_list_compound(13, fields) + rest;
    assert(s[0] == 0xd0);
    lemma_list_compound_roundtrip(13, fields, rest);
    let s1 = fields + rest;
    assert(s1.take(fields.len() as int) =~= fields);
    assert(s1.skip(fields.len() as int) =~= rest);
    let e1 = crate::ser::enc_opt_str(v.message_id);
    let e2 = crate::ser::enc_opt_bin(v.user_id);
    let e3 = crate::ser::enc_opt_str(v.to);
    let e4 = crate::ser::enc_opt_str(v.subject);
    let e5 = crate::ser::enc_opt_str(v.reply_to);
    let e6 = crate::ser::enc_opt_str(v.correlation_id);
    let e7 = crate::ser::enc_opt_str(v.content_type);
    let e8 = crate::ser::enc_opt_str(v.content_encoding);
    let e9 = crate::ser::enc_opt_i64(v.absolute_expiry_time);
    let e10 = crate::ser::enc_opt_i64(v.creation_time);
    let e11 = crate::ser::enc_opt_str(v.group_id);
    let e12 = crate::ser::enc_opt_u32(v.group_sequence);
    let e13 = crate::ser::enc_opt_str(v.reply_to_group_id);
    let l2 = e1 + e2;
    let l3 = l2 + e3;
    let l4 = l3 + e4;
    let l5 = l4 + e5;
    let l6 = l5 + e6;
    let l7 = l6 + e7;
    let l8 = l7 + e8;
    let l9 = l8 + e9;
    let l10 = l9 + e10;
    let l11 = l10 + e11;
    let l12 = l11 + e12;
    let l13 = l12 + e13;
    let t13: Seq<u8> = Seq::empty();
    let t12 = e13 + t13;
    let t11 = e12 + t12;
    let t10 = e11 + t11;
    let t9 = e10 + t10;
    let t8 = e9 + t9;
    let t7 = e8 + t8;
    let t6 = e7 + t7;
    let t5 = e6 + t6;
    let t4 = e5 + t5;
    let t3 = e4 + t4;
    let t2 = e3 + t3;
    let t1 = e2 + t2;
    let t0 = e1 + t1;
    assert(fields == l13);
    lemma_seq_add_empty(l13);
    assert(fields == l13 + t13);
    lemma_seq_assoc(l12, e13, t13);
    assert(fields == l12 + t12);
    lemma_seq_assoc(l11, e12, t12);
    assert(fields == l11 + t11);
    lemma_seq_assoc(l10, e11, t11);
    assert(fields == l10 + t10);
    lemma_seq_assoc(l9, e10, t10);
    assert(fields == l9 + t9);
    lemma_seq_assoc(l8, e9, t9);
    assert(fields == l8 + t8);
    lemma_seq_assoc(l7, e8, t8);
    assert(fields == l7 + t7);
    lemma_seq_assoc(l6, e7, t7);
    assert(fields == l6 + t6);
    lemma_seq_assoc(l5, e6, t6);
    assert(fields == l5 + t5);
    lemma_seq_assoc(l4, e5, t5);
    assert(fields == l4 + t4);
    lemma_seq_assoc(l3, e4, t4);
    assert(fields == l3 + t3);
    lemma_seq_assoc(l2, e3, t3);
    assert(fields == l2 + t2);
    lemma_seq_assoc(e1, e2, t2);
    assert(fields == t0);
    lemma_opt_str_roundtrip(v.message_id, t1);
    lemma_opt_bin_roundtrip(v.user_id, t2);
    lemma_opt_str_roundtrip(v.to, t3);
    lemma_opt_str_roundtrip(v.subject, t4);
    lemma_opt_str_roundtrip(v.reply_to, t5);
    lemma_opt_str_roundtrip(v.correlation_id, t6);
    lemma_opt_str_roundtrip(v.content_type, t7);
    lemma_opt_str_roundtrip(v.content_encoding, t8);
    lemma_opt_i64_roundtrip(v.absolute_expiry_time, t9);
    lemma_opt_i64_roundtrip(v.creation_time, t10);
    lemma_opt_str_roundtrip(v.group_id, t11);
    lemma_opt_u32_roundtrip(v.group_sequence, t12);
    lemma_opt_str_roundtrip(v.reply_to_group_id, t13);
    lemma_properties_fields_compose(v, t0, t1, t2, t3, t4, t5, t6, t7, t8, t9, t10, t11, t12, t13);
}

// ---------------------------------------------------------------------------
// Whole described values and their optional fields
// ---------------------------------------------------------------------------
pub proof fn lemma_error_condition_roundtrip(v: crate::amqp::ErrorConditionV, rest: Seq<u8>)
    requires
        crate::amqp::enc_error_condition_ok(v),
    ensures
        crate::amqp::dec_error_condition(None, crate::amqp::enc_error_condition(v) + rest)
            == Ok::<_, Error>((v, rest)),
{
    let tail = enc_list_compound(3, crate::amqp::enc_error_condition_fields(v)) + rest;
    assert(crate::amqp::enc_error_condition(v) + rest =~= enc_desc_code(0x1d) + tail);
    lemma_desc_code_roundtrip(0x1d, tail);
    lemma_error_condition_body_roundtrip(v, rest);
}

pub proof fn lemma_opt_error_condition_roundtrip(
    o: Option<crate::amqp::ErrorConditionV>,
    rest: Seq<u8>,
)
    requires
        crate::amqp::enc_opt_error_condition_ok(o),
    ensures
        crate::amqp::dec_opt_error_condition(
            None,
            crate::amqp::enc_opt_error_condition(o) + rest,
        ) == Ok::<_, Error>((o, rest)),
{
    match o {
        None => {
            assert((crate::amqp::enc_opt_error_condition(o) + rest).skip(1) =~= rest);
        },
        Some(x) => {
            lemma_error_condition_roundtrip(x, rest);
        },
    }
}

pub proof fn lemma_source_roundtrip(v: crate::amqp::SourceV, rest: Seq<u8>)
    requires
        crate::amqp::enc_source_ok(v),
    ensures
        crate::amqp::dec_source(None, crate::amqp::enc_source(v) + rest) == Ok::<_, Error>((
            v,
            rest,
        )),
{
    let tail = enc_list_compound(11, crate::amqp::enc_source_fields(v)) + rest;
    assert(crate::amqp::enc_source(v) + rest =~= enc_desc_code(0x28) + tail);
    lemma_desc_code_roundtrip(0x28, tail);
    lemma_source_body_roundtrip(v, rest);
}

pub proof fn lemma_opt_source_roundtrip(o: Option<crate::amqp::SourceV>, rest: Seq<u8>)
    requires
        crate::amqp::enc_opt_source_ok(o),
    ensures
        crate::amqp::dec_opt_source(None, crate::amqp::enc_opt_source(o) + rest) == Ok::<
            _,
            Error,
        >((o, rest)),
{
    match o {
        None => {
            assert((crate::amqp::enc_opt_source(o) + rest).skip(1) =~= rest);
        },
        Some(x) => {
            lemma_source_roundtrip(x, rest);
        },
    }
}

pub proof fn lemma_target_roundtrip(v: crate::amqp::TargetV, rest: Seq<u8>)
    requires
        crate::amqp::enc_target_ok(v),
    ensures
        crate::amqp::dec_target(None, crate::amqp::enc_target(v) + rest) == Ok::<_, Error>((
            v,
            rest,
        )),
{
    let tail = enc_list_compound(7, crate::amqp::enc_target_fields(v)) + rest;
    assert(crate::amqp::enc_target(v) + rest =~= enc_desc_code(0x29) + tail);
    lemma_desc_code_roundtrip(0x29, tail);
    lemma_target_body_roundtrip(v, rest);
}

pub proof fn lemma_opt_target_roundtrip(o: Option<crate::amqp::TargetV>, rest: Seq<u8>)
    requires
        crate::amqp::enc_opt_target_ok(o),
    ensures
        crate::amqp::dec_opt_target(None, crate::amqp::enc_opt_target(o) + rest) == Ok::<
            _,
            Error,
        >((o, rest)),
{
    match o {
        None => {
            assert((crate::amqp::enc_opt_target(o) + rest).skip(1) =~= rest);
        },
        Some(x) => {
            lemma_target_roundtrip(x, rest);
        },
    }
}

// ---------------------------------------------------------------------------
// Performative dispatch
// ---------------------------------------------------------------------------
/// Every described composite the performative choice carries decodes back
/// to the value it was encoded from.
#[verifier::rlimit(100)]
#[verifier::spinoff_prover]
pub proof fn lemma_performative_roundtrip(v: crate::amqp::PerformativeV, rest: Seq<u8>)
    requires
        crate::amqp::enc_performative_ok(v),
    ensures
        crate::amqp::dec_performative(crate::amqp::enc_performative(v) + rest) == Ok::<_, Error>((
            v,
            rest,
        )),
{
    reveal(crate::amqp::dec_performative);
    match v {
        crate::amqp::PerformativeV::Open(x) => {
            let tail = enc_list_compound(9, crate::amqp::enc_open_fields(x)) + rest;
            lemma_seq_assoc(
                enc_desc_code(0x10),
                enc_list_compound(9, crate::amqp::enc_open_fields(x)),
                rest,
            );
            assert(crate::amqp::enc_performative(v) + rest == enc_desc_code(0x10) + tail);
            lemma_desc_code_roundtrip(0x10, tail);
            lemma_open_body_roundtrip(x, rest);
        },
        crate::amqp::PerformativeV::Begin(x) => {
            let tail = enc_list_compound(8, crate::amqp::enc_begin_fields(x)) + rest;
            lemma_seq_assoc(
                enc_desc_code(0x11),
                enc_list_compound(8, crate::amqp::enc_begin_fields(x)),
                rest,
            );
            assert(crate::amqp::enc_performative(v) + rest == enc_desc_code(0x11) + tail);
            lemma_desc_code_roundtrip(0x11, tail);
            lemma_begin_body_roundtrip(x, rest);
        },
        crate::amqp::PerformativeV::Attach(x) => {
            let tail = enc_list_compound(14, crate::amqp::enc_attach_fields(x)) + rest;
            lemma_seq_assoc(
                enc_desc_code(0x12),
                enc_list_compound(14, crate::amqp::enc_attach_fields(x)),
                rest,
            );
            assert(crate::amqp::enc_performative(v) + rest == enc_desc_code(0x12) + tail);
            lemma_desc_code_roundtrip(0x12, tail);
            lemma_attach_body_roundtrip(x, rest);
        },
        crate::amqp::PerformativeV::Flow(x) => {
            let tail = enc_list_compound(11, crate::amqp::enc_flow_fields(x)) + rest;
            lemma_seq_assoc(
                enc_desc_code(0x13),
                enc_list_compound(11, crate::amqp::enc_flow_fields(x)),
                rest,
            );
            assert(crate::amqp::enc_performative(v) + rest == enc_desc_code(0x13) + tail);
            lemma_desc_code_roundtrip(0x13, tail);
            lemma_flow_body_roundtrip(x, rest);
        },
        crate::amqp::PerformativeV::Transfer(x) => {
            let tail = enc_list_compound(11, crate::amqp::enc_transfer_fields(x)) + rest;
            lemma_seq_assoc(
                enc_desc_code(0x14),
                enc_list_compound(11, crate::amqp::enc_transfer_fields(x)),
                rest,
            );
            assert(crate::amqp::enc_performative(v) + rest == enc_desc_code(0x14) + tail);
            lemma_desc_code_roundtrip(0x14, tail);
            lemma_transfer_body_roundtrip(x, rest);
        },
        crate::amqp::PerformativeV::Disposition(x) => {
            let tail = enc_list_compound(6, crate::amqp::enc_disposition_fields(x)) + rest;
            lemma_seq_assoc(
                enc_desc_code(0x15),
                enc_list_compound(6, crate::amqp::enc_disposition_fields(x)),
                rest,
            );
            assert(crate::amqp::enc_performative(v) + rest == enc_desc_code(0x15) + tail);
            lemma_desc_code_roundtrip(0x15, tail);
            lemma_disposition_body_roundtrip(x, rest);
        },
        crate::amqp::PerformativeV::Detach(x) => {
            let tail = enc_list_compound(3, crate::amqp::enc_detach_fields(x)) + rest;
            lemma_seq_assoc(
                enc_desc_code(0x16),
                enc_list_compound(3, crate::amqp::enc_detach_fields(x)),
                rest,
            );
            assert(crate::amqp::enc_performative(v) + rest == enc_desc_code(0x16) + tail);
            lemma_desc_code_roundtrip(0x16, tail);
            lemma_detach_body_roundtrip(x, rest);
        },
        crate::amqp::PerformativeV::Close(x) => {
            let tail = enc_list_compound(1, crate::amqp::enc_close_fields(x)) + rest;
            lemma_seq_assoc(
                enc_desc_code(0x18),
                enc_list_compound(1, crate::amqp::enc_close_fields(x)),
                rest,
            );
            assert(crate::amqp::enc_performative(v) + rest == enc_desc_code(0x18) + tail);
            lemma_desc_code_roundtrip(0x18, tail);
            lemma_close_body_roundtrip(x, rest);
        },
    }
}

// ---------------------------------------------------------------------------
// SASL composites and dispatch
// ---------------------------------------------------------------------------
pub proof fn lemma_mechanism_elem_roundtrip(m: crate::sasl::Mechanism, rest: Seq<u8>)
    ensures
        <crate::sasl::Mechanism as crate::Codec>::dec(
            None,
            <crate::sasl::Mechanism as crate::Codec>::enc(m) + rest,
        ) == Ok::<_, Error>((m, rest)),
{
    lemma_sym_roundtrip(crate::sasl::mechanism_name(m), rest);
}

pub proof fn lemma_mechanisms_body_roundtrip(v: crate::sasl::MechanismsV, rest: Seq<u8>)
    requires
        crate::sasl::enc_mechanisms_ok(v),
    ensures
        crate::sasl::dec_mechanisms_body(
            None,
            enc_list_compound(1, crate::sasl::enc_mechanisms_fields(v)) + rest,
        ) == Ok::<_, Error>((v, rest)),
{
    let fields = crate::sasl::enc_mechanisms_fields(v);
    let s = enc_list_compound(1, fields) + rest;
    assert(s[0] == 0xd0);
    lemma_list_compound_roundtrip(1, fields, rest);
    let s1 = fields + rest;
    assert(s1.take(fields.len() as int) =~= fields);
    assert(s1.skip(fields.len() as int) =~= rest);
    assert forall|i: int, r: Seq<u8>|
        0 <= i < v.sasl_server_mechanisms.len() implies #[trigger] <crate::sasl::Mechanism as crate::Codec>::dec(
        None,
        <crate::sasl::Mechanism as crate::Codec>::enc(v.sasl_server_mechanisms[i]) + r,
    ) == Ok::<_, Error>((v.sasl_server_mechanisms[i], r)) by {
        lemma_mechanism_elem_roundtrip(v.sasl_server_mechanisms[i], r);
    }
    lemma_elem_list_roundtrip::<crate::sasl::Mechanism>(
        v.sasl_server_mechanisms,
        Seq::empty(),
    );
    assert(crate::amqp::enc_elem_list::<crate::sasl::Mechanism>(v.sasl_server_mechanisms)
        + Seq::<u8>::empty() =~= fields);
}

pub proof fn lemma_init_body_roundtrip(v: crate::sasl::InitV, rest: Seq<u8>)
    requires
        crate::sasl::enc_init_ok(v),
    ensures
        crate::sasl::dec_init_body(
            None,
            enc_list_compound(3, crate::sasl::enc_init_fields(v)) + rest,
        ) == Ok::<_, Error>((v, rest)),
{
    let fields = crate::sasl::enc_init_fields(v);
    let s = enc_list_compound(3, fields) + rest;
    assert(s[0] == 0xd0);
    lemma_list_compound_roundtrip(3, fields, rest);
    let s1 = fields + rest;
    assert(s1.take(fields.len() as int) =~= fields);
    assert(s1.skip(fields.len() as int) =~= rest);
    let e1 = enc_sym(crate::sasl::mechanism_name(v.mechanism));
    let e2 = crate::ser::enc_opt_bin(v.initial_response);
    let e3 = crate::ser::enc_opt_str(v.hostname);
    let t3: Seq<u8> = Seq::empty();
    let t2 = e3 + t3;
    let t1 = e2 + t2;
    let t0 = e1 + t1;
    assert(fields =~= t0);
    lemma_mechanism_elem_roundtrip(v.mechanism, t1);
    lemma_opt_bin_roundtrip(v.initial_response, t2);
    lemma_opt_str_roundtrip(v.hostname, t3);
}

pub proof fn lemma_sasl_outcome_body_roundtrip(v: crate::sasl::OutcomeV, rest: Seq<u8>)
    requires
        crate::sasl::enc_sasl_outcome_ok(v),
    ensures
        crate::sasl::dec_sasl_outcome_body(
            None,
            enc_list_compound(2, crate::sasl::enc_outcome_fields(v)) + rest,
        ) == Ok::<_, Error>((v, rest)),
{
    let fields = crate::sasl::enc_outcome_fields(v);
    let s = enc_list_compound(2, fields) + rest;
    assert(s[0] == 0xd0);
    lemma_list_compound_roundtrip(2, fields, rest);
    let s1 = fields + rest;
    assert(s1.take(fields.len() as int) =~= fields);
    assert(s1.skip(fields.len() as int) =~= rest);
    let e1 = enc_u8(crate::sasl::code_index(v.code));
    let e2 = crate::ser::enc_opt_bin(v.additional_data);
    let t2: Seq<u8> = Seq::empty();
    let t1 = e2 + t2;
    let t0 = e1 + t1;
    assert(fields =~= t0);
    lemma_u8_roundtrip(crate::sasl::code_index(v.code), t1);
    lemma_opt_bin_roundtrip(v.additional_data, t2);
}

/// Every SASL frame decodes back to the value it was encoded from.
#[verifier::rlimit(100)]
#[verifier::spinoff_prover]
pub proof fn lemma_sasl_frame_roundtrip(v: crate::sasl::FrameV, rest: Seq<u8>)
    requires
        crate::sasl::enc_sasl_frame_ok(v),
    ensures
        crate::sasl::dec_sasl_frame(crate::sasl::enc_sasl_frame(v) + rest) == Ok::<_, Error>((
            v,
            rest,
        )),
{
    reveal(crate::sasl::dec_sasl_frame);
    match v {
        crate::sasl::FrameV::Mechanisms(x) => {
            let tail = enc_list_compound(1, crate::sasl::enc_mechanisms_fields(x)) + rest;
            lemma_seq_assoc(
                enc_desc_code(0x40),
                enc_list_compound(1, crate::sasl::enc_mechanisms_fields(x)),
                rest,
            );
            assert(crate::sasl::enc_sasl_frame(v) + rest == enc_desc_code(0x40) + tail);
            lemma_desc_code_roundtrip(0x40, tail);
            lemma_mechanisms_body_roundtrip(x, rest);
        },
        crate::sasl::FrameV::Init(x) => {
            let tail = enc_list_compound(3, crate::sasl::enc_init_fields(x)) + rest;
            lemma_seq_assoc(
                enc_desc_code(0x41),
                enc_list_compound(3, crate::sasl::enc_init_fields(x)),
                rest,
            );
            assert(crate::sasl::enc_sasl_frame(v) + rest == enc_desc_code(0x41) + tail);
            lemma_desc_code_roundtrip(0x41, tail);
            lemma_init_body_roundtrip(x, rest);
        },
        crate::sasl::FrameV::Outcome(x) => {
            let tail = enc_list_compound(2, crate::sasl::enc_outcome_fields(x)) + rest;
            lemma_seq_assoc(
                enc_desc_code(0x44),
                enc_list_compound(2, crate::sasl::enc_outcome_fields(x)),
                rest,
            );
            assert(crate::sasl::enc_sasl_frame(v) + rest == enc_desc_code(0x44) + tail);
            lemma_desc_code_roundtrip(0x44, tail);
            lemma_sasl_outcome_body_roundtrip(x, rest);
        },
    }
}

// ---------------------------------------------------------------------------
// Frame round trip
// ---------------------------------------------------------------------------
/// An encoded frame decodes back whole through the stream decoder, which
/// consumes exactly the frame's length: protocol headers, SASL frames, and
/// AMQP frames that carry no message and no extended header. (The encoder
/// never emits an extended header, and the message walk of this dialect
/// reads back only the section shapes its own calls produce.)
#[verifier::rlimit(100)]
#[verifier::spinoff_prover]
pub proof fn lemma_frame_roundtrip(v: crate::proto::FrameV, rest: Seq<u8>)
    requires
        crate::proto::enc_frame_ok(v),
        crate::proto::enc_frame(v).len() < 0x4100_0000,
        match v {
            crate::proto::FrameV::Amqp(f) => f.extended_header is None && f.message is None,
            _ => true,
        },
    ensures
        crate::proto::dec_stream(crate::proto::enc_frame(v) + rest) == Ok::<
            Option<(crate::proto::FrameV, int)>,
            Error,
        >(Some((v, crate::proto::enc_frame(v).len() as int))),
{
    let e = crate::proto::enc_frame(v);
    let s = e + rest;
    match v {
        crate::proto::FrameV::Header(p) => {
            assert(s.take(4) =~= crate::proto::amqp_magic());
            assert(s.take(8) =~= crate::proto::protocol_header(p));
            assert(crate::proto::protocol_header(p).take(4) =~= crate::proto::amqp_magic());
            assert(crate::proto::sasl_proto_header() != crate::proto::amqp_proto_header()) by {
                assert(crate::proto::sasl_proto_header()[4] == 0x03);
                assert(crate::proto::amqp_proto_header()[4] == 0x00);
            }
        },
        crate::proto::FrameV::Amqp(f) => {
            let body = crate::amqp::enc_performative(f.performative) + (match f.message {
                Some(m) => crate::amqp::enc_message(m),
                None => Seq::<u8>::empty(),
            });
            let n32 = (8 + body.len()) as u32;
            assert(e == crate::wire::be32(n32) + seq![0x02u8, 0x00u8] + crate::wire::be16(
                f.channel,
            ) + body);
            assert(e.len() == 8 + body.len());
            assert(n32 == e.len());
            assert((n32 >> 24) < 0x41) by (bit_vector)
                requires
                    n32 < 0x4100_0000u32,
            ;
            assert(s[0] == (n32 >> 24) as u8);
            assert(((n32 >> 24) as u8) < 0x41) by (bit_vector)
                requires
                    (n32 >> 24) < 0x41u32,
            ;
            assert(crate::proto::amqp_magic()[0] == 0x41);
            assert(s.take(4)[0] == s[0]);
            assert(s.take(4) != crate::proto::amqp_magic());
            assert(crate::wire::sq_be32(s) == crate::wire::sq_be32(crate::wire::be32(n32)));
            crate::wire::lemma_be32_roundtrip(n32);
            let n = n32 as int;
            assert(s.len() >= n);
            let w = s.take(n).skip(4);
            assert(s.take(n) =~= e);
            assert(w =~= seq![0x02u8, 0x00u8] + crate::wire::be16(f.channel) + body);
            assert(w.len() >= 4);
            assert(w[0] == 0x02);
            assert(w.take(4)[0] == 0x02);
            assert(w.take(4) != crate::proto::amqp_magic());
            assert(w[1] == 0x00);
            reveal(crate::amqp::dec_amqp_frame);
            let w2 = w.skip(2);
            assert(w2 =~= crate::wire::be16(f.channel) + body);
            assert(crate::wire::sq_be16(w2) == crate::wire::sq_be16(
                crate::wire::be16(f.channel),
            ));
            crate::wire::lemma_be16_roundtrip(f.channel);
            let w3 = w2.skip(2);
            assert(w3 =~= body);
            assert(w3.len() >= 0);
            assert(w3.take(0) =~= Seq::<u8>::empty());
            assert(w3.skip(0) =~= w3);
            assert(body =~= crate::amqp::enc_performative(f.performative) + Seq::<u8>::empty());
            lemma_performative_roundtrip(f.performative, Seq::empty());
        },
        crate::proto::FrameV::Sasl(f) => {
            let body = crate::sasl::enc_sasl_frame(f);
            let n32 = (8 + body.len()) as u32;
            assert(e == crate::wire::be32(n32) + seq![0x02u8, 0x01u8, 0x00u8, 0x00u8] + body);
            assert(e.len() == 8 + body.len());
            assert(n32 == e.len());
            assert((n32 >> 24) < 0x41) by (bit_vector)
                requires
                    n32 < 0x4100_0000u32,
            ;
            assert(s[0] == (n32 >> 24) as u8);
            assert(((n32 >> 24) as u8) < 0x41) by (bit_vector)
                requires
                    (n32 >> 24) < 0x41u32,
            ;
            assert(crate::proto::amqp_magic()[0] == 0x41);
            assert(s.take(4)[0] == s[0]);
            assert(s.take(4) != crate::proto::amqp_magic());
            assert(crate::wire::sq_be32(s) == crate::wire::sq_be32(crate::wire::be32(n32)));
            crate::wire::lemma_be32_roundtrip(n32);
            let n = n32 as int;
            assert(s.len() >= n);
            let w = s.take(n).skip(4);
            assert(s.take(n) =~= e);
            assert(w =~= seq![0x02u8, 0x01u8, 0x00u8, 0x00u8] + body);
            assert(w.len() >= 4);
            assert(w[0] == 0x02);
            assert(w.take(4)[0] == 0x02);
            assert(w.take(4) != crate::proto::amqp_magic());
            assert(w[1] == 0x01 && w[2] == 0x00 && w[3] == 0x00);
            let w4 = w.skip(4);
            assert(w4 =~= body + Seq::<u8>::empty());
            lemma_sasl_frame_roundtrip(f, Seq::empty());
        },
    }
}

/// Composes known field parses into the whole Descriptor field run.
#[verifier::rlimit(100)]
#[verifier::spinoff_prover]
proof fn lemma_descriptor_fields_compose(
    v: crate::types::DescriptorRecV,
    t0: Seq<u8>,
    t1: Seq<u8>,
    t2: Seq<u8>,
)
    requires
        crate::types::dec_opt_sym(None, t0) == Ok::<_, Error>((v.name, t1)),
        crate::de::dec_opt_u64(t1) == Ok::<_, Error>((v.code, t2)),
    ensures
        crate::types::dec_descriptor_fields(None, t0) == Ok::<_, Error>((v, t2)),
{
    reveal(crate::types::dec_descriptor_fields);
}

/// A Descriptor body decodes back to the value it was encoded from.
#[verifier::rlimit(100)]
#[verifier::spinoff_prover]
pub proof fn lemma_descriptor_body_roundtrip(v: crate::types::DescriptorRecV, rest: Seq<u8>)
    requires
        crate::types::enc_descriptor_fields_ok(v),
        enc_compound_ok(crate::types::enc_descriptor_fields(v)),
    ensures
        crate::types::dec_descriptor_body(
            None,
            enc_list_compound(2, crate::types::enc_descriptor_fields(v)) + rest,
        ) == Ok::<_, Error>((v, rest)),
{
    let fields = crate::types::enc_descriptor_fields(v);
    let s = enc_list_compound(2, fields) + rest;
    assert(s[0] == 0xd0);
    lemma_list_compound_roundtrip(2, fields, rest);
    let s1 = fields + rest;
    assert(s1.take(fields.len() as int) =~= fields);
    assert(s1.skip(fields.len() as int) =~= rest);
    let e1 = crate::types::enc_opt_sym(v.name);
    let e2 = crate::ser::enc_opt_u64(v.code);
    let l2 = e1 + e2;
    let t2: Seq<u8> = Seq::empty();
    let t1 = e2 + t2;
    let t0 = e1 + t1;
    assert(fields == l2);
    lemma_seq_add_empty(l2);
    assert(fields == l2 + t2);
    lemma_seq_assoc(e1, e2, t2);
    assert(fields == t0);
    lemma_opt_sym_roundtrip(v.name, t1);
    lemma_opt_u64_roundtrip(v.code, t2);
    lemma_descriptor_fields_compose(v, t0, t1, t2);
}

/// Composes known field parses into the whole Field field run.
#[verifier::rlimit(100)]
#[verifier::spinoff_prover]
proof fn lemma_field_fields_compose(
    v: crate::types::FieldV,
    t0: Seq<u8>,
    t1: Seq<u8>,
    t2: Seq<u8>,
    t3: Seq<u8>,
    t4: Seq<u8>,
    t5: Seq<u8>,
    t6: Seq<u8>,
    t7: Seq<u8>,
)
    requires
        crate::de::dec_str(None, t0) == Ok::<_, Error>((v.name, t1)),
        crate::de::dec_str(None, t1) == Ok::<_, Error>((v.ty, t2)),
        crate::amqp::dec_elem_list::<Vec<u8>>(None, t2) == Ok::<_, Error>((v.requirements, t3)),
        crate::de::dec_opt_str(None, t3) == Ok::<_, Error>((v.default, t4)),
        crate::de::dec_opt_str(None, t4) == Ok::<_, Error>((v.label, t5)),
        crate::de::dec_bool(None, t5) == Ok::<_, Error>((v.mandatory, t6)),
        crate::de::dec_bool(None, t6) == Ok::<_, Error>((v.multiple, t7)),
    ensures
        crate::types::dec_field_fields(None, t0) == Ok::<_, Error>((v, t7)),
{
    reveal(crate::types::dec_field_fields);
}

/// A Field body decodes back to the value it was encoded from.
#[verifier::rlimit(100)]
#[verifier::spinoff_prover]
pub proof fn lemma_field_body_roundtrip(v: crate::types::FieldV, rest: Seq<u8>)
    requires
        crate::types::enc_field_fields_ok(v),
        enc_compound_ok(crate::types::enc_field_fields(v)),
    ensures
        crate::types::dec_field_body(
            None,
            enc_list_compound(7, crate::types::enc_field_fields(v)) + rest,
        ) == Ok::<_, Error>((v, rest)),
{
    let fields = crate::types::enc_field_fields(v);
    let s = enc_list_compound(7, fields) + rest;
    assert(s[0] == 0xd0);
    lemma_list_compound_roundtrip(7, fields, rest);
    let s1 = fields + rest;
    assert(s1.take(fields.len() as int) =~= fields);
    assert(s1.skip(fields.len() as int) =~= rest);
    let e1 = enc_str(v.name);
    let e2 = enc_str(v.ty);
    let e3 = crate::amqp::enc_elem_list::<Vec<u8>>(v.requirements);
    let e4 = crate::ser::enc_opt_str(v.default);
    let e5 = crate::ser::enc_opt_str(v.label);
    let e6 = enc_bool(v.mandatory);
    let e7 = enc_bool(v.multiple);
    let l2 = e1 + e2;
    let l3 = l2 + e3;
    let l4 = l3 + e4;
    let l5 = l4 + e5;
    let l6 = l5 + e6;
    let l7 = l6 + e7;
    let t7: Seq<u8> = Seq::empty();
    let t6 = e7 + t7;
    let t5 = e6 + t6;
    let t4 = e5 + t5;
    let t3 = e4 + t4;
    let t2 = e3 + t3;
    let t1 = e2 + t2;
    let t0 = e1 + t1;
    assert(fields == l7);
    lemma_seq_add_empty(l7);
    assert(fields == l7 + t7);
    lemma_seq_assoc(l6, e7, t7);
    assert(fields == l6 + t6);
    lemma_seq_assoc(l5, e6, t6);
    assert(fields == l5 + t5);
    lemma_seq_assoc(l4, e5, t5);
    assert(fields == l4 + t4);
    lemma_seq_assoc(l3, e4, t4);
    assert(fields == l3 + t3);
    lemma_seq_assoc(l2, e3, t3);
    assert(fields == l2 + t2);
    lemma_seq_assoc(e1, e2, t2);
    assert(fields == t0);
    lemma_str_roundtrip(v.name, t1);
    lemma_str_roundtrip(v.ty, t2);
    lemma_str_list_roundtrip(v.requirements, t3);
    lemma_opt_str_roundtrip(v.default, t4);
    lemma_opt_str_roundtrip(v.label, t5);
    lemma_bool_roundtrip(v.mandatory, t6);
    lemma_bool_roundtrip(v.multiple, t7);
    lemma_field_fields_compose(v, t0, t1, t2, t3, t4, t5, t6, t7);
}

/// Composes known field parses into the whole Choice field run.
#[verifier::rlimit(100)]
#[verifier::spinoff_prover]
proof fn lemma_choice_fields_compose(
    v: crate::types::ChoiceV,
    t0: Seq<u8>,
    t1: Seq<u8>,
    t2: Seq<u8>,
)
    requires
        crate::de::dec_str(None, t0) == Ok::<_, Error>((v.name, t1)),
        crate::de::dec_str(None, t1) == Ok::<_, Error>((v.value, t2)),
    ensures
        crate::types::dec_choice_fields(None, t0) == Ok::<_, Error>((v, t2)),
{
    reveal(crate::types::dec_choice_fields);
}

/// A Choice body decodes back to the value it was encoded from.
#[verifier::rlimit(100)]
#[verifier::spinoff_prover]
pub proof fn lemma_choice_body_roundtrip(v: crate::types::ChoiceV, rest: Seq<u8>)
    requires
        crate::types::enc_choice_fields_ok(v),
        enc_compound_ok(crate::types::enc_choice_fields(v)),
    ensures
        crate::types::dec_choice_body(
            None,
            enc_list_compound(2, crate::types::enc_choice_fields(v)) + rest,
        ) == Ok::<_, Error>((v, rest)),
{
    let fields = crate::types::enc_choice_fields(v);
    let s = enc_list_compound(2, fields) + rest;
    assert(s[0] == 0xd0);
    lemma_list_compound_roundtrip(2, fields, rest);
    let s1 = fields + rest;
    assert(s1.take(fields.len() as int) =~= fields);
    assert(s1.skip(fields.len() as int) =~= rest);
    let e1 = enc_str(v.name);
    let e2 = enc_str(v.value);
    let l2 = e1 + e2;
    let t2: Seq<u8> = Seq::empty();
    let t1 = e2 + t2;
    let t0 = e1 + t1;
    assert(fields == l2);
    lemma_seq_add_empty(l2);
    assert(fields == l2 + t2);
    lemma_seq_assoc(e1, e2, t2);
    assert(fields == t0);
    lemma_str_roundtrip(v.name, t1);
    lemma_str_roundtrip(v.value, t2);
    lemma_choice_fields_compose(v, t0, t1, t2);
}

/// Composes known field parses into the whole CompositeType field run.
#[verifier::rlimit(100)]
#[verifier::spinoff_prover]
proof fn lemma_composite_type_fields_compose(
    v: crate::types::CompositeTypeV,
    t0: Seq<u8>,
    t1: Seq<u8>,
    t2: Seq<u8>,
    t3: Seq<u8>,
    t4: Seq<u8>,
    t5: Seq<u8>,
)
    requires
        crate::de::dec_str(None, t0) == Ok::<_, Error>((v.name, t1)),
        crate::de::dec_opt_str(None, t1) == Ok::<_, Error>((v.label, t2)),
        crate::amqp::dec_elem_list::<Vec<u8>>(None, t2) == Ok::<_, Error>((v.provides, t3)),
        crate::types::dec_corda_descriptor(None, t3) == Ok::<_, Error>((v.descriptor, t4)),
        crate::amqp::dec_elem_list::<crate::types::Field>(None, t4) == Ok::<_, Error>((v.fields, t5)),
    ensures
        crate::types::dec_composite_type_fields(None, t0) == Ok::<_, Error>((v, t5)),
{
    reveal(crate::types::dec_composite_type_fields);
}

/// A CompositeType body decodes back to the value it was encoded from.
#[verifier::rlimit(100)]
#[verifier::spinoff_prover]
pub proof fn lemma_composite_type_body_roundtrip(v: crate::types::CompositeTypeV, rest: Seq<u8>)
    requires
        crate::types::enc_composite_type_fields_ok(v),
        enc_compound_ok(crate::types::enc_composite_type_fields(v)),
    ensures
        crate::types::dec_composite_type_body(
            None,
            enc_list_compound(5, crate::types::enc_composite_type_fields(v)) + rest,
        ) == Ok::<_, Error>((v, rest)),
{
    let fields = crate::types::enc_composite_type_fields(v);
    let s = enc_list_compound(5, fields) + rest;
    assert(s[0] == 0xd0);
    lemma_list_compound_roundtrip(5, fields, rest);
    let s1 = fields + rest;
    assert(s1.take(fields.len() as int) =~= fields);
    assert(s1.skip(fields.len() as int) =~= rest);
    let e1 = enc_str(v.name);
    let e2 = crate::ser::enc_opt_str(v.label);
    let e3 = crate::amqp::enc_elem_list::<Vec<u8>>(v.provides);
    let e4 = crate::types::enc_corda_descriptor(v.descriptor);
    let e5 = crate::amqp::enc_elem_list::<crate::types::Field>(v.fields);
    let l2 = e1 + e2;
    let l3 = l2 + e3;
    let l4 = l3 + e4;
    let l5 = l4 + e5;
    let t5: Seq<u8> = Seq::empty();
    let t4 = e5 + t5;
    let t3 = e4 + t4;
    let t2 = e3 + t3;
    let t1 = e2 + t2;
    let t0 = e1 + t1;
    assert(fields == l5);
    lemma_seq_add_empty(l5);
    assert(fields == l5 + t5);
    lemma_seq_assoc(l4, e5, t5);
    assert(fields == l4 + t4);
    lemma_seq_assoc(l3, e4, t4);
    assert(fields == l3 + t3);
    lemma_seq_assoc(l2, e3, t3);
    assert(fields == l2 + t2);
    lemma_seq_assoc(e1, e2, t2);
    assert(fields == t0);
    lemma_str_roundtrip(v.name, t1);
    lemma_opt_str_roundtrip(v.label, t2);
    lemma_str_list_roundtrip(v.provides, t3);
    lemma_corda_descriptor_roundtrip(v.descriptor, t4);
    lemma_field_list_roundtrip(v.fields, t5);
    lemma_composite_type_fields_compose(v, t0, t1, t2, t3, t4, t5);
}

/// Composes known field parses into the whole RestrictedType field run.
#[verifier::rlimit(100)]
#[verifier::spinoff_prover]
proof fn lemma_restricted_type_fields_compose(
    v: crate::types::RestrictedTypeV,
    t0: Seq<u8>,
    t1: Seq<u8>,
    t2: Seq<u8>,
    t3: Seq<u8>,
    t4: Seq<u8>,
    t5: Seq<u8>,
    t6: Seq<u8>,
)
    requires
        crate::de::dec_str(None, t0) == Ok::<_, Error>((v.name, t1)),
        crate::de::dec_opt_str(None, t1) == Ok::<_, Error>((v.label, t2)),
        crate::amqp::dec_elem_list::<Vec<u8>>(None, t2) == Ok::<_, Error>((v.provides, t3)),
        crate::de::dec_str(None, t3) == Ok::<_, Error>((v.source, t4)),
        crate::types::dec_corda_descriptor(None, t4) == Ok::<_, Error>((v.descriptor, t5)),
        crate::amqp::dec_elem_list::<crate::types::Choice>(None, t5) == Ok::<_, Error>((v.choices, t6)),
    ensures
        crate::types::dec_restricted_type_fields(None, t0) == Ok::<_, Error>((v, t6)),
{
    reveal(crate::types::dec_restricted_type_fields);
}

/// A RestrictedType body decodes back to the value it was encoded from.
#[verifier::rlimit(100)]
#[verifier::spinoff_prover]
pub proof fn lemma_restricted_type_body_roundtrip(v: crate::types::RestrictedTypeV, rest: Seq<u8>)
    requires
        crate::types::enc_restricted_type_fields_ok(v),
        enc_compound_ok(crate::types::enc_restricted_type_fields(v)),
    ensures
        crate::types::dec_restricted_type_body(
            None,
            enc_list_compound(6, crate::types::enc_restricted_type_fields(v)) + rest,
        ) == Ok::<_, Error>((v, rest)),
{
    let fields = crate::types::enc_restricted_type_fields(v);
    let s = enc_list_compound(6, fields) + rest;
    assert(s[0] == 0xd0);
    lemma_list_compound_roundtrip(6, fields, rest);
    let s1 = fields + rest;
    assert(s1.take(fields.len() as int) =~= fields);
    assert(s1.skip(fields.len() as int) =~= rest);
    let e1 = enc_str(v.name);
    let e2 = crate::ser::enc_opt_str(v.label);
    let e3 = crate::amqp::enc_elem_list::<Vec<u8>>(v.provides);
    let e4 = enc_str(v.source);
    let e5 = crate::types::enc_corda_descriptor(v.descriptor);
    let e6 = crate::amqp::enc_elem_list::<crate::types::Choice>(v.choices);
    let l2 = e1 + e2;
    let l3 = l2 + e3;
    let l4 = l3 + e4;
    let l5 = l4 + e5;
    let l6 = l5 + e6;
    let t6: Seq<u8> = Seq::empty();
    let t5 = e6 + t6;
    let t4 = e5 + t5;
    let t3 = e4 + t4;
    let t2 = e3 + t3;
    let t1 = e2 + t2;
    let t0 = e1 + t1;
    assert(fields == l6);
    lemma_seq_add_empty(l6);
    assert(fields == l6 + t6);
    lemma_seq_assoc(l5, e6, t6);
    assert(fields == l5 + t5);
    lemma_seq_assoc(l4, e5, t5);
    assert(fields == l4 + t4);
    lemma_seq_assoc(l3, e4, t4);
    assert(fields == l3 + t3);
    lemma_seq_assoc(l2, e3, t3);
    assert(fields == l2 + t2);
    lemma_seq_assoc(e1, e2, t2);
    assert(fields == t0);
    lemma_str_roundtrip(v.name, t1);
    lemma_opt_str_roundtrip(v.label, t2);
    lemma_str_list_roundtrip(v.provides, t3);
    lemma_str_roundtrip(v.source, t4);
    lemma_corda_descriptor_roundtrip(v.descriptor, t5);
    lemma_choice_list_roundtrip(v.choices, t6);
    lemma_restricted_type_fields_compose(v, t0, t1, t2, t3, t4, t5, t6);
}

/// Composes known field parses into the whole CertPath field run.
#[verifier::rlimit(100)]
#[verifier::spinoff_prover]
proof fn lemma_cert_path_fields_compose(
    v: crate::network_map_snapshot::CertPathV,
    t0: Seq<u8>,
    t1: Seq<u8>,
    t2: Seq<u8>,
)
    requires
        crate::de::dec_bin(None, t0) == Ok::<_, Error>((v.data, t1)),
        crate::de::dec_str(None, t1) == Ok::<_, Error>((v.ty, t2)),
    ensures
        crate::network_map_snapshot::dec_cert_path_fields(None, t0) == Ok::<_, Error>((v, t2)),
{
    reveal(crate::network_map_snapshot::dec_cert_path_fields);
}

/// A CertPath body decodes back to the value it was encoded from.
#[verifier::rlimit(100)]
#[verifier::spinoff_prover]
pub proof fn lemma_cert_path_body_roundtrip(v: crate::network_map_snapshot::CertPathV, rest: Seq<u8>)
    requires
        crate::network_map_snapshot::enc_cert_path_fields_ok(v),
        enc_compound_ok(crate::network_map_snapshot::enc_cert_path_fields(v)),
    ensures
        crate::network_map_snapshot::dec_cert_path_body(
            None,
            enc_list_compound(2, crate::network_map_snapshot::enc_cert_path_fields(v)) + rest,
        ) == Ok::<_, Error>((v, rest)),
{
    let fields = crate::network_map_snapshot::enc_cert_path_fields(v);
    let s = enc_list_compound(2, fields) + rest;
    assert(s[0] == 0xd0);
    lemma_list_compound_roundtrip(2, fields, rest);
    let s1 = fields + rest;
    assert(s1.take(fields.len() as int) =~= fields);
    assert(s1.skip(fields.len() as int) =~= rest);
    let e1 = enc_bin(v.data);
    let e2 = enc_str(v.ty);
    let l2 = e1 + e2;
    let t2: Seq<u8> = Seq::empty();
    let t1 = e2 + t2;
    let t0 = e1 + t1;
    assert(fields == l2);
    lemma_seq_add_empty(l2);
    assert(fields == l2 + t2);
    lemma_seq_assoc(e1, e2, t2);
    assert(fields == t0);
    lemma_bin_roundtrip(v.data, t1);
    lemma_str_roundtrip(v.ty, t2);
    lemma_cert_path_fields_compose(v, t0, t1, t2);
}

/// Composes known field parses into the whole NetworkHostAndPort field run.
#[verifier::rlimit(100)]
#[verifier::spinoff_prover]
proof fn lemma_network_host_and_port_fields_compose(
    v: crate::network_map_snapshot::NetworkHostAndPortV,
    t0: Seq<u8>,
    t1: Seq<u8>,
    t2: Seq<u8>,
)
    requires
        crate::de::dec_str(None, t0) == Ok::<_, Error>((v.host, t1)),
        crate::de::dec_i32(t1) == Ok::<_, Error>((v.port, t2)),
    ensures
        crate::network_map_snapshot::dec_network_host_and_port_fields(None, t0) == Ok::<_, Error>((v, t2)),
{
    reveal(crate::network_map_snapshot::dec_network_host_and_port_fields);
}

/// A NetworkHostAndPort body decodes back to the value it was encoded from.
#[verifier::rlimit(100)]
#[verifier::spinoff_prover]
pub proof fn lemma_network_host_and_port_body_roundtrip(v: crate::network_map_snapshot::NetworkHostAndPortV, rest: Seq<u8>)
    requires
        crate::network_map_snapshot::enc_network_host_and_port_fields_ok(v),
        enc_compound_ok(crate::network_map_snapshot::enc_network_host_and_port_fields(v)),
    ensures
        crate::network_map_snapshot::dec_network_host_and_port_body(
            None,
            enc_list_compound(2, crate::network_map_snapshot::enc_network_host_and_port_fields(v)) + rest,
        ) == Ok::<_, Error>((v, rest)),
{
    let fields = crate::network_map_snapshot::enc_network_host_and_port_fields(v);
    let s = enc_list_compound(2, fields) + rest;
    assert(s[0] == 0xd0);
    lemma_list_compound_roundtrip(2, fields, rest);
    let s1 = fields + rest;
    assert(s1.take(fields.len() as int) =~= fields);
    assert(s1.skip(fields.len() as int) =~= rest);
    let e1 = enc_str(v.host);
    let e2 = enc_i32(v.port);
    let l2 = e1 + e2;
    let t2: Seq<u8> = Seq::empty();
    let t1 = e2 + t2;
    let t0 = e1 + t1;
    assert(fields == l2);
    lemma_seq_add_empty(l2);
    assert(fields == l2 + t2);
    lemma_seq_assoc(e1, e2, t2);
    assert(fields == t0);
    lemma_str_roundtrip(v.host, t1);
    lemma_i32_roundtrip(v.port, t2);
    lemma_network_host_and_port_fields_compose(v, t0, t1, t2);
}

/// Composes known field parses into the whole PartyAndCertificate field run.
#[verifier::rlimit(100)]
#[verifier::spinoff_prover]
proof fn lemma_party_and_certificate_fields_compose(
    v: crate::network_map_snapshot::PartyAndCertificateV,
    t0: Seq<u8>,
    t1: Seq<u8>,
)
    requires
        crate::network_map_snapshot::dec_cert_path_full(None, t0) == Ok::<_, Error>((v.cert_path, t1)),
    ensures
        crate::network_map_snapshot::dec_party_and_certificate_fields(None, t0) == Ok::<_, Error>((v, t1)),
{
    reveal(crate::network_map_snapshot::dec_party_and_certificate_fields);
}

/// A PartyAndCertificate body decodes back to the value it was encoded from.
#[verifier::rlimit(100)]
#[verifier::spinoff_prover]
pub proof fn lemma_party_and_certificate_body_roundtrip(v: crate::network_map_snapshot::PartyAndCertificateV, rest: Seq<u8>)
    requires
        crate::network_map_snapshot::enc_party_and_certificate_fields_ok(v),
        enc_compound_ok(crate::network_map_snapshot::enc_party_and_certificate_fields(v)),
    ensures
        crate::network_map_snapshot::dec_party_and_certificate_body(
            None,
            enc_list_compound(1, crate::network_map_snapshot::enc_party_and_certificate_fields(v)) + rest,
        ) == Ok::<_, Error>((v, rest)),
{
    let fields = crate::network_map_snapshot::enc_party_and_certificate_fields(v);
    let s = enc_list_compound(1, fields) + rest;
    assert(s[0] == 0xd0);
    lemma_list_compound_roundtrip(1, fields, rest);
    let s1 = fields + rest;
    assert(s1.take(fields.len() as int) =~= fields);
    assert(s1.skip(fields.len() as int) =~= rest);
    let e1 = crate::network_map_snapshot::enc_cert_path_full(v.cert_path);
    let t1: Seq<u8> = Seq::empty();
    let t0 = e1 + t1;
    lemma_seq_add_empty(e1);
    assert(fields == t0);
    lemma_cert_path_roundtrip(v.cert_path, t1);
    lemma_party_and_certificate_fields_compose(v, t0, t1);
}

/// Composes known field parses into the whole NodeInfo field run.
#[verifier::rlimit(100)]
#[verifier::spinoff_prover]
proof fn lemma_node_info_fields_compose(
    v: crate::network_map_snapshot::NodeInfoV,
    t0: Seq<u8>,
    t1: Seq<u8>,
    t2: Seq<u8>,
    t3: Seq<u8>,
    t4: Seq<u8>,
)
    requires
        crate::amqp::dec_elem_list::<crate::network_map_snapshot::NetworkHostAndPort>(None, t0) == Ok::<_, Error>((v.addresses, t1)),
        crate::amqp::dec_elem_list::<crate::network_map_snapshot::PartyAndCertificate>(None, t1) == Ok::<_, Error>((v.legal_identities_and_certs, t2)),
        crate::de::dec_i32(t2) == Ok::<_, Error>((v.platform_version, t3)),
        crate::de::dec_i64(t3) == Ok::<_, Error>((v.serial, t4)),
    ensures
        crate::network_map_snapshot::dec_node_info_fields(None, t0) == Ok::<_, Error>((v, t4)),
{
    reveal(crate::network_map_snapshot::dec_node_info_fields);
}

/// A NodeInfo body decodes back to the value it was encoded from.
#[verifier::rlimit(100)]
#[verifier::spinoff_prover]
pub proof fn lemma_node_info_body_roundtrip(v: crate::network_map_snapshot::NodeInfoV, rest: Seq<u8>)
    requires
        crate::network_map_snapshot::enc_node_info_fields_ok(v),
        enc_compound_ok(crate::network_map_snapshot::enc_node_info_fields(v)),
    ensures
        crate::network_map_snapshot::dec_node_info_body(
            None,
            enc_list_compound(4, crate::network_map_snapshot::enc_node_info_fields(v)) + rest,
        ) == Ok::<_, Error>((v, rest)),
{
    let fields = crate::network_map_snapshot::enc_node_info_fields(v);
    let s = enc_list_compound(4, fields) + rest;
    assert(s[0] == 0xd0);
    lemma_list_compound_roundtrip(4, fields, rest);
    let s1 = fields + rest;
    assert(s1.take(fields.len() as int) =~= fields);
    assert(s1.skip(fields.len() as int) =~= rest);
    let e1 = crate::amqp::enc_elem_list::<crate::network_map_snapshot::NetworkHostAndPort>(v.addresses);
    let e2 = crate::amqp::enc_elem_list::<crate::network_map_snapshot::PartyAndCertificate>(v.legal_identities_and_certs);
    let e3 = enc_i32(v.platform_version);
    let e4 = enc_i64(v.serial);
    let l2 = e1 + e2;
    let l3 = l2 + e3;
    let l4 = l3 + e4;
    let t4: Seq<u8> = Seq::empty();
    let t3 = e4 + t4;
    let t2 = e3 + t3;
    let t1 = e2 + t2;
    let t0 = e1 + t1;
    assert(fields == l4);
    lemma_seq_add_empty(l4);
    assert(fields == l4 + t4);
    lemma_seq_assoc(l3, e4, t4);
    assert(fields == l3 + t3);
    lemma_seq_assoc(l2, e3, t3);
    assert(fields == l2 + t2);
    lemma_seq_assoc(e1, e2, t2);
    assert(fields == t0);
    lemma_nhp_list_roundtrip(v.addresses, t1);
    lemma_pac_list_roundtrip(v.legal_identities_and_certs, t2);
    lemma_i32_roundtrip(v.platform_version, t3);
    lemma_i64_roundtrip(v.serial, t4);
    lemma_node_info_fields_compose(v, t0, t1, t2, t3, t4);
}

// ---------------------------------------------------------------------------
// Corda schema records as whole described values
// ---------------------------------------------------------------------------
/// A unit element decodes back through its codec.
pub proof fn lemma_unit_roundtrip(rest: Seq<u8>)
    ensures
        <() as crate::Codec>::dec(None, <() as crate::Codec>::enc(()) + rest) == Ok::<_, Error>((
            (),
            rest,
        )),
{
    assert((crate::ser::enc_null() + rest).skip(1) =~= rest);
}

/// A list of unit elements decodes back to the same sequence.
pub proof fn lemma_unit_list_roundtrip(l: Seq<()>, rest: Seq<u8>)
    requires
        crate::amqp::enc_elem_list_ok::<()>(l),
    ensures
        crate::amqp::dec_elem_list::<()>(None, crate::amqp::enc_elem_list::<()>(l) + rest)
            == Ok::<_, Error>((l, rest)),
{
    assert forall|i: int, r: Seq<u8>|
        0 <= i < l.len() implies #[trigger] <() as crate::Codec>::dec(
        None,
        <() as crate::Codec>::enc(l[i]) + r,
    ) == Ok::<_, Error>((l[i], r)) by {
        lemma_unit_roundtrip(r);
    }
    lemma_elem_list_roundtrip::<()>(l, rest);
}

/// A schema descriptor record decodes back as a whole described value.
#[verifier::rlimit(100)]
#[verifier::spinoff_prover]
pub proof fn lemma_corda_descriptor_roundtrip(v: crate::types::DescriptorRecV, rest: Seq<u8>)
    requires
        crate::types::enc_corda_descriptor_ok(v),
    ensures
        crate::types::dec_corda_descriptor(None, crate::types::enc_corda_descriptor(v) + rest)
            == Ok::<_, Error>((v, rest)),
{
    let fields = crate::types::enc_descriptor_fields(v);
    let tail = enc_list_compound(2, fields) + rest;
    lemma_seq_assoc(enc_desc_code(0xc562_0000_0000_0003), enc_list_compound(2, fields), rest);
    assert(crate::types::enc_corda_descriptor(v) + rest == enc_desc_code(0xc562_0000_0000_0003)
        + tail);
    lemma_desc_code_roundtrip(0xc562_0000_0000_0003, tail);
    lemma_descriptor_body_roundtrip(v, rest);
}

/// A schema field record decodes back through its codec.
#[verifier::rlimit(100)]
#[verifier::spinoff_prover]
pub proof fn lemma_field_elem_roundtrip(v: crate::types::FieldV, rest: Seq<u8>)
    requires
        crate::types::enc_field_ok(v),
    ensures
        <crate::types::Field as crate::Codec>::dec(
            None,
            <crate::types::Field as crate::Codec>::enc(v) + rest,
        ) == Ok::<_, Error>((v, rest)),
{
    let fields = crate::types::enc_field_fields(v);
    let tail = enc_list_compound(7, fields) + rest;
    lemma_seq_assoc(enc_desc_code(0xc562_0000_0000_0004), enc_list_compound(7, fields), rest);
    assert(<crate::types::Field as crate::Codec>::enc(v) + rest == enc_desc_code(
        0xc562_0000_0000_0004,
    ) + tail);
    lemma_desc_code_roundtrip(0xc562_0000_0000_0004, tail);
    lemma_field_body_roundtrip(v, rest);
}

pub proof fn lemma_field_list_roundtrip(l: Seq<crate::types::FieldV>, rest: Seq<u8>)
    requires
        crate::amqp::enc_elem_list_ok::<crate::types::Field>(l),
    ensures
        crate::amqp::dec_elem_list::<crate::types::Field>(
            None,
            crate::amqp::enc_elem_list::<crate::types::Field>(l) + rest,
        ) == Ok::<_, Error>((l, rest)),
{
    assert forall|i: int, r: Seq<u8>|
        0 <= i < l.len() implies #[trigger] <crate::types::Field as crate::Codec>::dec(
        None,
        <crate::types::Field as crate::Codec>::enc(l[i]) + r,
    ) == Ok::<_, Error>((l[i], r)) by {
        assert(<crate::types::Field as crate::Codec>::enc_ok(l[i]));
        lemma_field_elem_roundtrip(l[i], r);
    }
    lemma_elem_list_roundtrip::<crate::types::Field>(l, rest);
}

/// A schema choice record decodes back through its codec.
#[verifier::rlimit(100)]
#[verifier::spinoff_prover]
pub proof fn lemma_choice_elem_roundtrip(v: crate::types::ChoiceV, rest: Seq<u8>)
    requires
        crate::types::enc_choice_ok(v),
    ensures
        <crate::types::Choice as crate::Codec>::dec(
            None,
            <crate::types::Choice as crate::Codec>::enc(v) + rest,
        ) == Ok::<_, Error>((v, rest)),
{
    let fields = crate::types::enc_choice_fields(v);
    let tail = enc_list_compound(2, fields) + rest;
    lemma_seq_assoc(enc_desc_code(0xc562_0000_0000_0007), enc_list_compound(2, fields), rest);
    assert(<crate::types::Choice as crate::Codec>::enc(v) + rest == enc_desc_code(
        0xc562_0000_0000_0007,
    ) + tail);
    lemma_desc_code_roundtrip(0xc562_0000_0000_0007, tail);
    lemma_choice_body_roundtrip(v, rest);
}

pub proof fn lemma_choice_list_roundtrip(l: Seq<crate::types::ChoiceV>, rest: Seq<u8>)
    requires
        crate::amqp::enc_elem_list_ok::<crate::types::Choice>(l),
    ensures
        crate::amqp::dec_elem_list::<crate::types::Choice>(
            None,
            crate::amqp::enc_elem_list::<crate::types::Choice>(l) + rest,
        ) == Ok::<_, Error>((l, rest)),
{
    assert forall|i: int, r: Seq<u8>|
        0 <= i < l.len() implies #[trigger] <crate::types::Choice as crate::Codec>::dec(
        None,
        <crate::types::Choice as crate::Codec>::enc(l[i]) + r,
    ) == Ok::<_, Error>((l[i], r)) by {
        assert(<crate::types::Choice as crate::Codec>::enc_ok(l[i]));
        lemma_choice_elem_roundtrip(l[i], r);
    }
    lemma_elem_list_roundtrip::<crate::types::Choice>(l, rest);
}

/// A type notation decodes back through the composite/restricted dispatch.
#[verifier::rlimit(100)]
#[verifier::spinoff_prover]
pub proof fn lemma_type_notation_roundtrip(v: crate::types::TypeNotationV, rest: Seq<u8>)
    requires
        <crate::types::TypeNotation as crate::Codec>::enc_ok(v),
    ensures
        <crate::types::TypeNotation as crate::Codec>::dec(
            None,
            <crate::types::TypeNotation as crate::Codec>::enc(v) + rest,
        ) == Ok::<_, Error>((v, rest)),
{
    match v {
        crate::types::TypeNotationV::CompositeType(x) => {
            let fields = crate::types::enc_composite_type_fields(x);
            let tail = enc_list_compound(5, fields) + rest;
            lemma_seq_assoc(
                enc_desc_code(0xc562_0000_0000_0005),
                enc_list_compound(5, fields),
                rest,
            );
            assert(<crate::types::TypeNotation as crate::Codec>::enc(v) + rest == enc_desc_code(
                0xc562_0000_0000_0005,
            ) + tail);
            lemma_desc_code_roundtrip(0xc562_0000_0000_0005, tail);
            lemma_composite_type_body_roundtrip(x, rest);
        },
        crate::types::TypeNotationV::RestrictedType(x) => {
            let fields = crate::types::enc_restricted_type_fields(x);
            let tail = enc_list_compound(6, fields) + rest;
            lemma_seq_assoc(
                enc_desc_code(0xc562_0000_0000_0006),
                enc_list_compound(6, fields),
                rest,
            );
            assert(<crate::types::TypeNotation as crate::Codec>::enc(v) + rest == enc_desc_code(
                0xc562_0000_0000_0006,
            ) + tail);
            lemma_desc_code_roundtrip(0xc562_0000_0000_0006, tail);
            lemma_restricted_type_body_roundtrip(x, rest);
        },
    }
}

pub proof fn lemma_tn_list_roundtrip(l: Seq<crate::types::TypeNotationV>, rest: Seq<u8>)
    requires
        crate::amqp::enc_elem_list_ok::<crate::types::TypeNotation>(l),
    ensures
        crate::amqp::dec_elem_list::<crate::types::TypeNotation>(
            None,
            crate::amqp::enc_elem_list::<crate::types::TypeNotation>(l) + rest,
        ) == Ok::<_, Error>((l, rest)),
{
    assert forall|i: int, r: Seq<u8>|
        0 <= i < l.len() implies #[trigger] <crate::types::TypeNotation as crate::Codec>::dec(
        None,
        <crate::types::TypeNotation as crate::Codec>::enc(l[i]) + r,
    ) == Ok::<_, Error>((l[i], r)) by {
        assert(<crate::types::TypeNotation as crate::Codec>::enc_ok(l[i]));
        lemma_type_notation_roundtrip(l[i], r);
    }
    lemma_elem_list_roundtrip::<crate::types::TypeNotation>(l, rest);
}

/// A Schema body decodes back to the value it was encoded from.
#[verifier::rlimit(100)]
#[verifier::spinoff_prover]
pub proof fn lemma_schema_body_roundtrip(v: crate::types::SchemaV, rest: Seq<u8>)
    requires
        crate::types::enc_schema_ok(v),
    ensures
        crate::types::dec_schema_body(
            None,
            enc_list_compound(1, crate::types::enc_schema_fields(v)) + rest,
        ) == Ok::<_, Error>((v, rest)),
{
    reveal(crate::types::dec_schema_fields);
    let fields = crate::types::enc_schema_fields(v);
    let s = enc_list_compound(1, fields) + rest;
    assert(s[0] == 0xd0);
    lemma_list_compound_roundtrip(1, fields, rest);
    let s1 = fields + rest;
    assert(s1.take(fields.len() as int) =~= fields);
    assert(s1.skip(fields.len() as int) =~= rest);
    lemma_tn_list_roundtrip(v.types, Seq::empty());
    assert(crate::amqp::enc_elem_list::<crate::types::TypeNotation>(v.types)
        + Seq::<u8>::empty() =~= fields);
}

/// A schema record decodes back as a whole described value.
#[verifier::rlimit(100)]
#[verifier::spinoff_prover]
pub proof fn lemma_corda_schema_roundtrip(v: crate::types::SchemaV, rest: Seq<u8>)
    requires
        crate::types::enc_schema_ok(v),
    ensures
        crate::types::dec_corda_schema(None, crate::types::enc_schema(v) + rest) == Ok::<
            _,
            Error,
        >((v, rest)),
{
    let fields = crate::types::enc_schema_fields(v);
    let tail = enc_list_compound(1, fields) + rest;
    lemma_seq_assoc(enc_desc_code(0xc562_0000_0000_0002), enc_list_compound(1, fields), rest);
    assert(crate::types::enc_schema(v) + rest == enc_desc_code(0xc562_0000_0000_0002) + tail);
    lemma_desc_code_roundtrip(0xc562_0000_0000_0002, tail);
    lemma_schema_body_roundtrip(v, rest);
}

/// An object list decodes back through its codec.
#[verifier::rlimit(100)]
#[verifier::spinoff_prover]
pub proof fn lemma_object_list_roundtrip(l: Seq<()>, rest: Seq<u8>)
    requires
        <crate::types::ObjectList as crate::Codec>::enc_ok(l),
    ensures
        <crate::types::ObjectList as crate::Codec>::dec(
            None,
            <crate::types::ObjectList as crate::Codec>::enc(l) + rest,
        ) == Ok::<_, Error>((l, rest)),
{
    let payload = crate::amqp::enc_elem_list::<()>(l);
    let tail = payload + rest;
    lemma_seq_assoc(
        crate::ser::enc_desc_name(crate::types::corda_name_object_list()),
        payload,
        rest,
    );
    assert(<crate::types::ObjectList as crate::Codec>::enc(l) + rest == crate::ser::enc_desc_name(
        crate::types::corda_name_object_list(),
    ) + tail);
    assert(crate::types::corda_name_object_list().len() == 34);
    lemma_desc_name_roundtrip(crate::types::corda_name_object_list(), tail);
    lemma_unit_list_roundtrip(l, rest);
}

// ---------------------------------------------------------------------------
// Node records and the reply wrapper
// ---------------------------------------------------------------------------
/// A certificate path decodes back as a whole described value.
#[verifier::rlimit(100)]
#[verifier::spinoff_prover]
pub proof fn lemma_cert_path_roundtrip(v: crate::network_map_snapshot::CertPathV, rest: Seq<u8>)
    requires
        crate::network_map_snapshot::enc_cert_path_full_ok(v),
    ensures
        crate::network_map_snapshot::dec_cert_path_full(
            None,
            crate::network_map_snapshot::enc_cert_path_full(v) + rest,
        ) == Ok::<_, Error>((v, rest)),
{
    let fields = crate::network_map_snapshot::enc_cert_path_fields(v);
    let tail = enc_list_compound(2, fields) + rest;
    lemma_seq_assoc(
        crate::ser::enc_desc_name(crate::network_map_snapshot::corda_name_cert_path()),
        enc_list_compound(2, fields),
        rest,
    );
    assert(crate::network_map_snapshot::enc_cert_path_full(v) + rest
        == crate::ser::enc_desc_name(crate::network_map_snapshot::corda_name_cert_path()) + tail);
    assert(crate::network_map_snapshot::corda_name_cert_path().len() == 34);
    lemma_desc_name_roundtrip(crate::network_map_snapshot::corda_name_cert_path(), tail);
    lemma_cert_path_body_roundtrip(v, rest);
}

/// An advertised address decodes back through its codec.
#[verifier::rlimit(100)]
#[verifier::spinoff_prover]
pub proof fn lemma_nhp_elem_roundtrip(
    v: crate::network_map_snapshot::NetworkHostAndPortV,
    rest: Seq<u8>,
)
    requires
        crate::network_map_snapshot::enc_network_host_and_port_ok(v),
    ensures
        <crate::network_map_snapshot::NetworkHostAndPort as crate::Codec>::dec(
            None,
            <crate::network_map_snapshot::NetworkHostAndPort as crate::Codec>::enc(v) + rest,
        ) == Ok::<_, Error>((v, rest)),
{
    let fields = crate::network_map_snapshot::enc_network_host_and_port_fields(v);
    let tail = enc_list_compound(2, fields) + rest;
    lemma_seq_assoc(
        crate::ser::enc_desc_name(
            crate::network_map_snapshot::corda_name_network_host_and_port(),
        ),
        enc_list_compound(2, fields),
        rest,
    );
    assert(<crate::network_map_snapshot::NetworkHostAndPort as crate::Codec>::enc(v) + rest
        == crate::ser::enc_desc_name(
        crate::network_map_snapshot::corda_name_network_host_and_port(),
    ) + tail);
    assert(crate::network_map_snapshot::corda_name_network_host_and_port().len() == 34);
    lemma_desc_name_roundtrip(
        crate::network_map_snapshot::corda_name_network_host_and_port(),
        tail,
    );
    lemma_network_host_and_port_body_roundtrip(v, rest);
}

pub proof fn lemma_nhp_list_roundtrip(
    l: Seq<crate::network_map_snapshot::NetworkHostAndPortV>,
    rest: Seq<u8>,
)
    requires
        crate::amqp::enc_elem_list_ok::<crate::network_map_snapshot::NetworkHostAndPort>(l),
    ensures
        crate::amqp::dec_elem_list::<crate::network_map_snapshot::NetworkHostAndPort>(
            None,
            crate::amqp::enc_elem_list::<crate::network_map_snapshot::NetworkHostAndPort>(l)
                + rest,
        ) == Ok::<_, Error>((l, rest)),
{
    assert forall|i: int, r: Seq<u8>|
        0 <= i < l.len() implies #[trigger] <crate::network_map_snapshot::NetworkHostAndPort as crate::Codec>::dec(
        None,
        <crate::network_map_snapshot::NetworkHostAndPort as crate::Codec>::enc(l[i]) + r,
    ) == Ok::<_, Error>((l[i], r)) by {
        assert(<crate::network_map_snapshot::NetworkHostAndPort as crate::Codec>::enc_ok(l[i]));
        lemma_nhp_elem_roundtrip(l[i], r);
    }
    lemma_elem_list_roundtrip::<crate::network_map_snapshot::NetworkHostAndPort>(l, rest);
}

/// A legal identity decodes back through its codec.
#[verifier::rlimit(100)]
#[verifier::spinoff_prover]
pub proof fn lemma_pac_elem_roundtrip(
    v: crate::network_map_snapshot::PartyAndCertificateV,
    rest: Seq<u8>,
)
    requires
        crate::network_map_snapshot::enc_party_and_certificate_ok(v),
    ensures
        <crate::network_map_snapshot::PartyAndCertificate as crate::Codec>::dec(
            None,
            <crate::network_map_snapshot::PartyAndCertificate as crate::Codec>::enc(v) + rest,
        ) == Ok::<_, Error>((v, rest)),
{
    let fields = crate::network_map_snapshot::enc_party_and_certificate_fields(v);
    let tail = enc_list_compound(1, fields) + rest;
    lemma_seq_assoc(
        crate::ser::enc_desc_name(
            crate::network_map_snapshot::corda_name_party_and_certificate(),
        ),
        enc_list_compound(1, fields),
        rest,
    );
    assert(<crate::network_map_snapshot::PartyAndCertificate as crate::Codec>::enc(v) + rest
        == crate::ser::enc_desc_name(
        crate::network_map_snapshot::corda_name_party_and_certificate(),
    ) + tail);
    assert(crate::network_map_snapshot::corda_name_party_and_certificate().len() == 34);
    lemma_desc_name_roundtrip(
        crate::network_map_snapshot::corda_name_party_and_certificate(),
        tail,
    );
    lemma_party_and_certificate_body_roundtrip(v, rest);
}

pub proof fn lemma_pac_list_roundtrip(
    l: Seq<crate::network_map_snapshot::PartyAndCertificateV>,
    rest: Seq<u8>,
)
    requires
        crate::amqp::enc_elem_list_ok::<crate::network_map_snapshot::PartyAndCertificate>(l),
    ensures
        crate::amqp::dec_elem_list::<crate::network_map_snapshot::PartyAndCertificate>(
            None,
            crate::amqp::enc_elem_list::<crate::network_map_snapshot::PartyAndCertificate>(l)
                + rest,
        ) == Ok::<_, Error>((l, rest)),
{
    assert forall|i: int, r: Seq<u8>|
        0 <= i < l.len() implies #[trigger] <crate::network_map_snapshot::PartyAndCertificate as crate::Codec>::dec(
        None,
        <crate::network_map_snapshot::PartyAndCertificate as crate::Codec>::enc(l[i]) + r,
    ) == Ok::<_, Error>((l[i], r)) by {
        assert(<crate::network_map_snapshot::PartyAndCertificate as crate::Codec>::enc_ok(l[i]));
        lemma_pac_elem_roundtrip(l[i], r);
    }
    lemma_elem_list_roundtrip::<crate::network_map_snapshot::PartyAndCertificate>(l, rest);
}

/// A node record decodes back through its codec.
#[verifier::rlimit(100)]
#[verifier::spinoff_prover]
pub proof fn lemma_node_info_elem_roundtrip(
    v: crate::network_map_snapshot::NodeInfoV,
    rest: Seq<u8>,
)
    requires
        crate::network_map_snapshot::enc_node_info_ok(v),
    ensures
        <crate::network_map_snapshot::NodeInfo as crate::Codec>::dec(
            None,
            <crate::network_map_snapshot::NodeInfo as crate::Codec>::enc(v) + rest,
        ) == Ok::<_, Error>((v, rest)),
{
    let fields = crate::network_map_snapshot::enc_node_info_fields(v);
    let tail = enc_list_compound(4, fields) + rest;
    lemma_seq_assoc(
        crate::ser::enc_desc_name(crate::network_map_snapshot::corda_name_node_info()),
        enc_list_compound(4, fields),
        rest,
    );
    assert(<crate::network_map_snapshot::NodeInfo as crate::Codec>::enc(v) + rest
        == crate::ser::enc_desc_name(crate::network_map_snapshot::corda_name_node_info()) + tail);
    assert(crate::network_map_snapshot::corda_name_node_info().len() == 34);
    lemma_desc_name_roundtrip(crate::network_map_snapshot::corda_name_node_info(), tail);
    lemma_node_info_body_roundtrip(v, rest);
}

pub proof fn lemma_node_info_list_roundtrip(
    l: Seq<crate::network_map_snapshot::NodeInfoV>,
    rest: Seq<u8>,
)
    requires
        crate::amqp::enc_elem_list_ok::<crate::network_map_snapshot::NodeInfo>(l),
    ensures
        crate::amqp::dec_elem_list::<crate::network_map_snapshot::NodeInfo>(
            None,
            crate::amqp::enc_elem_list::<crate::network_map_snapshot::NodeInfo>(l) + rest,
        ) == Ok::<_, Error>((l, rest)),
{
    assert forall|i: int, r: Seq<u8>|
        0 <= i < l.len() implies #[trigger] <crate::network_map_snapshot::NodeInfo as crate::Codec>::dec(
        None,
        <crate::network_map_snapshot::NodeInfo as crate::Codec>::enc(l[i]) + r,
    ) == Ok::<_, Error>((l[i], r)) by {
        assert(<crate::network_map_snapshot::NodeInfo as crate::Codec>::enc_ok(l[i]));
        lemma_node_info_elem_roundtrip(l[i], r);
    }
    lemma_elem_list_roundtrip::<crate::network_map_snapshot::NodeInfo>(l, rest);
}

/// A success wrapper body decodes back, given that its payload does.
pub proof fn lemma_success_body_roundtrip<T: crate::Codec>(
    v: crate::types::SuccessV<T::V>,
    rest: Seq<u8>,
)
    requires
        crate::types::enc_success_ok::<T>(v),
        forall|r: Seq<u8>| #[trigger]
            T::dec(None, T::enc(v.value) + r) == Ok::<_, Error>((v.value, r)),
    ensures
        crate::types::dec_success_body::<T>(enc_list_compound(1, T::enc(v.value)) + rest)
            == Ok::<_, Error>((v, rest)),
{
    let payload = T::enc(v.value);
    let s = enc_list_compound(1, payload) + rest;
    assert(s[0] == 0xd0);
    lemma_list_compound_roundtrip(1, payload, rest);
    let s1 = payload + rest;
    assert(s1.take(payload.len() as int) =~= payload);
    assert(s1.skip(payload.len() as int) =~= rest);
    assert(payload + Seq::<u8>::empty() =~= payload);
    assert(T::dec(None, payload + Seq::<u8>::empty()) == Ok::<_, Error>((
        v.value,
        Seq::<u8>::empty(),
    )));
}

/// A failure wrapper body decodes back, given that its payload does.
pub proof fn lemma_failure_body_roundtrip<T: crate::Codec>(
    v: crate::types::FailureV<T::V>,
    rest: Seq<u8>,
)
    requires
        crate::types::enc_failure_ok::<T>(v),
        forall|r: Seq<u8>| #[trigger]
            T::dec(None, T::enc(v.value) + r) == Ok::<_, Error>((v.value, r)),
    ensures
        crate::types::dec_failure_body::<T>(enc_list_compound(1, T::enc(v.value)) + rest)
            == Ok::<_, Error>((v, rest)),
{
    let payload = T::enc(v.value);
    let s = enc_list_compound(1, payload) + rest;
    assert(s[0] == 0xd0);
    lemma_list_compound_roundtrip(1, payload, rest);
    let s1 = payload + rest;
    assert(s1.take(payload.len() as int) =~= payload);
    assert(s1.skip(payload.len() as int) =~= rest);
    assert(payload + Seq::<u8>::empty() =~= payload);
    assert(T::dec(None, payload + Seq::<u8>::empty()) == Ok::<_, Error>((
        v.value,
        Seq::<u8>::empty(),
    )));
}

/// A reply decodes back through the success/failure dispatch, given that
/// the carried value does.
#[verifier::rlimit(100)]
#[verifier::spinoff_prover]
pub proof fn lemma_try_roundtrip<T: crate::Codec, E: crate::Codec>(
    v: crate::types::TryV<T::V, E::V>,
    rest: Seq<u8>,
)
    requires
        match v {
            crate::types::TryV::Success(x) => crate::types::enc_success_ok::<T>(x) && forall|
                r: Seq<u8>,
            | #[trigger]
                T::dec(None, T::enc(x.value) + r) == Ok::<_, Error>((x.value, r)),
            crate::types::TryV::Failure(x) => crate::types::enc_failure_ok::<E>(x) && forall|
                r: Seq<u8>,
            | #[trigger]
                E::dec(None, E::enc(x.value) + r) == Ok::<_, Error>((x.value, r)),
        },
    ensures
        crate::types::dec_try::<T, E>(<crate::types::Try<T, E> as crate::Codec>::enc(v) + rest)
            == Ok::<_, Error>((v, rest)),
{
    assert(crate::types::corda_name_success().len() == 34);
    assert(crate::types::corda_name_failure().len() == 34);
    assert(crate::types::corda_name_success()[10] != crate::types::corda_name_failure()[10]);
    match v {
        crate::types::TryV::Success(x) => {
            let payload = T::enc(x.value);
            let tail = enc_list_compound(1, payload) + rest;
            lemma_seq_assoc(
                crate::ser::enc_desc_name(crate::types::corda_name_success()),
                enc_list_compound(1, payload),
                rest,
            );
            assert(<crate::types::Try<T, E> as crate::Codec>::enc(v) + rest
                == crate::ser::enc_desc_name(crate::types::corda_name_success()) + tail);
            lemma_desc_name_roundtrip(crate::types::corda_name_success(), tail);
            lemma_success_body_roundtrip::<T>(x, rest);
        },
        crate::types::TryV::Failure(x) => {
            let payload = E::enc(x.value);
            let tail = enc_list_compound(1, payload) + rest;
            lemma_seq_assoc(
                crate::ser::enc_desc_name(crate::types::corda_name_failure()),
                enc_list_compound(1, payload),
                rest,
            );
            assert(<crate::types::Try<T, E> as crate::Codec>::enc(v) + rest
                == crate::ser::enc_desc_name(crate::types::corda_name_failure()) + tail);
            lemma_desc_name_roundtrip(crate::types::corda_name_failure(), tail);
            lemma_failure_body_roundtrip::<E>(x, rest);
        },
    }
}

// ---------------------------------------------------------------------------
// The envelope round trip
// ---------------------------------------------------------------------------
/// The three envelope fields decode back, given that the payload does.
#[verifier::rlimit(100)]
#[verifier::spinoff_prover]
pub proof fn lemma_envelope_fields_roundtrip<T: crate::Codec>(
    v: crate::types::EnvelopeV<T::V>,
    rest: Seq<u8>,
)
    requires
        crate::types::enc_envelope_fields_ok::<T>(v),
        forall|r: Seq<u8>| #[trigger]
            T::dec(None, T::enc(v.obj) + r) == Ok::<_, Error>((v.obj, r)),
    ensures
        crate::types::dec_envelope_fields::<T>(
            None,
            crate::types::enc_envelope_fields::<T>(v) + rest,
        ) == Ok::<_, Error>((v, rest)),
{
    let fields = crate::types::enc_envelope_fields::<T>(v);
    let e1 = T::enc(v.obj);
    let e2 = crate::types::enc_schema(v.schema);
    let e3 = crate::types::enc_opt_transforms(v.transforms_schema);
    let l2 = e1 + e2;
    let l3 = l2 + e3;
    let t3 = rest;
    let t2 = e3 + t3;
    let t1 = e2 + t2;
    let t0 = e1 + t1;
    assert(fields == l3);
    lemma_seq_assoc(l2, e3, t3);
    assert(fields + rest == l2 + t2);
    lemma_seq_assoc(e1, e2, t2);
    assert(fields + rest == t0);
    assert(T::dec(None, e1 + t1) == Ok::<_, Error>((v.obj, t1)));
    lemma_corda_schema_roundtrip(v.schema, t2);
    lemma_opt_transforms_roundtrip(v.transforms_schema, t3);
}

/// The envelope composite body decodes back.
#[verifier::rlimit(100)]
#[verifier::spinoff_prover]
pub proof fn lemma_envelope_body_roundtrip<T: crate::Codec>(
    v: crate::types::EnvelopeV<T::V>,
    rest: Seq<u8>,
)
    requires
        crate::types::enc_envelope_ok::<T>(v),
        forall|r: Seq<u8>| #[trigger]
            T::dec(None, T::enc(v.obj) + r) == Ok::<_, Error>((v.obj, r)),
    ensures
        crate::types::dec_envelope_body::<T>(
            None,
            enc_list_compound(3, crate::types::enc_envelope_fields::<T>(v)) + rest,
        ) == Ok::<_, Error>((v, rest)),
{
    let fields = crate::types::enc_envelope_fields::<T>(v);
    let s = enc_list_compound(3, fields) + rest;
    assert(s[0] == 0xd0);
    lemma_list_compound_roundtrip(3, fields, rest);
    let s1 = fields + rest;
    assert(s1.take(fields.len() as int) =~= fields);
    assert(s1.skip(fields.len() as int) =~= rest);
    assert(fields + Seq::<u8>::empty() =~= fields);
    lemma_envelope_fields_roundtrip::<T>(v, Seq::empty());
}

/// A whole Corda body — magic, section byte, envelope — decodes back to the
/// value it was encoded from, given that the payload does.
#[verifier::rlimit(100)]
#[verifier::spinoff_prover]
pub proof fn lemma_envelope_roundtrip<T: crate::Codec>(v: crate::types::EnvelopeV<T::V>)
    requires
        crate::types::enc_envelope_ok::<T>(v),
        forall|r: Seq<u8>| #[trigger]
            T::dec(None, T::enc(v.obj) + r) == Ok::<_, Error>((v.obj, r)),
    ensures
        crate::types::dec_envelope::<T>(crate::types::enc_envelope_bytes::<T>(v)) == Ok::<
            _,
            Error,
        >(v),
{
    let fields = crate::types::enc_envelope_fields::<T>(v);
    let e = crate::types::enc_envelope::<T>(v);
    let s = crate::types::enc_envelope_bytes::<T>(v);
    assert(enc_desc_code(0xc562_0000_0000_0001).len() == 10);
    assert(s.len() >= 8);
    assert(s.take(7) =~= crate::types::corda_magic());
    assert(s[7] == 0x00);
    let s8 = s.skip(8);
    assert(s8 =~= e);
    let tail = enc_list_compound(3, fields) + Seq::<u8>::empty();
    lemma_seq_add_empty(enc_list_compound(3, fields));
    assert(e == enc_desc_code(0xc562_0000_0000_0001) + tail);
    lemma_desc_code_roundtrip(0xc562_0000_0000_0001, tail);
    lemma_envelope_body_roundtrip::<T>(v, Seq::empty());
}

/// The request envelope — an object list with its schema — decodes back to
/// the value it was encoded from.
pub proof fn lemma_request_envelope_roundtrip(v: crate::types::EnvelopeV<Seq<()>>)
    requires
        crate::types::enc_envelope_ok::<crate::types::ObjectList>(v),
    ensures
        crate::types::dec_envelope::<crate::types::ObjectList>(
            crate::types::enc_envelope_bytes::<crate::types::ObjectList>(v),
        ) == Ok::<_, Error>(v),
{
    assert forall|r: Seq<u8>| #[trigger] <crate::types::ObjectList as crate::Codec>::dec(
        None,
        <crate::types::ObjectList as crate::Codec>::enc(v.obj) + r,
    ) == Ok::<_, Error>((v.obj, r)) by {
        assert(<crate::types::ObjectList as crate::Codec>::enc_ok(v.obj));
        lemma_object_list_roundtrip(v.obj, r);
    }
    lemma_envelope_roundtrip::<crate::types::ObjectList>(v);
}

/// The reply envelope — a success or failure wrapping the node list —
/// decodes back to the value it was encoded from.
#[verifier::rlimit(100)]
#[verifier::spinoff_prover]
pub proof fn lemma_reply_envelope_roundtrip(
    v: crate::types::EnvelopeV<
        crate::types::TryV<Seq<crate::network_map_snapshot::NodeInfoV>, ()>,
    >,
)
    requires
        crate::types::enc_envelope_ok::<
            crate::types::Try<crate::amqp::List<crate::network_map_snapshot::NodeInfo>, ()>,
        >(v),
    ensures
        crate::types::dec_envelope::<
            crate::types::Try<crate::amqp::List<crate::network_map_snapshot::NodeInfo>, ()>,
        >(
            crate::types::enc_envelope_bytes::<
                crate::types::Try<crate::amqp::List<crate::network_map_snapshot::NodeInfo>, ()>,
            >(v),
        ) == Ok::<_, Error>(v),
{
    assert forall|r: Seq<u8>| #[trigger] <crate::types::Try<
        crate::amqp::List<crate::network_map_snapshot::NodeInfo>,
        (),
    > as crate::Codec>::dec(
        None,
        <crate::types::Try<
            crate::amqp::List<crate::network_map_snapshot::NodeInfo>,
            (),
        > as crate::Codec>::enc(v.obj) + r,
    ) == Ok::<_, Error>((v.obj, r)) by {
        match v.obj {
            crate::types::TryV::Success(x) => {
                assert forall|r2: Seq<u8>| #[trigger] <crate::amqp::List<
                    crate::network_map_snapshot::NodeInfo,
                > as crate::Codec>::dec(
                    None,
                    <crate::amqp::List<
                        crate::network_map_snapshot::NodeInfo,
                    > as crate::Codec>::enc(x.value) + r2,
                ) == Ok::<_, Error>((x.value, r2)) by {
                    lemma_node_info_list_roundtrip(x.value, r2);
                }
            },
            crate::types::TryV::Failure(x) => {
                assert forall|r2: Seq<u8>| #[trigger] <() as crate::Codec>::dec(
                    None,
                    <() as crate::Codec>::enc(x.value) + r2,
                ) == Ok::<_, Error>((x.value, r2)) by {
                    lemma_unit_roundtrip(r2);
                }
            },
        }
        lemma_try_roundtrip::<crate::amqp::List<crate::network_map_snapshot::NodeInfo>, ()>(
            v.obj,
            r,
        );
    }
    lemma_envelope_roundtrip::<
        crate::types::Try<crate::amqp::List<crate::network_map_snapshot::NodeInfo>, ()>,
    >(v);
}

// ---------------------------------------------------------------------------
// Messages and transfer frames
// ---------------------------------------------------------------------------
/// The empty sequence is a left unit of concatenation.
pub proof fn lemma_seq_empty_add(a: Seq<u8>)
    ensures
        Seq::<u8>::empty() + a == a,
{
    assert(Seq::<u8>::empty() + a =~= a);
}

/// The dynamic values whose encoding lies inside the restricted dispatch:
/// null, i8, one-byte i32, i64, short strings, and long binaries.
pub open spec fn any_decodes(a: crate::amqp::AnyV) -> bool {
    match a {
        crate::amqp::AnyV::Null => true,
        crate::amqp::AnyV::I8(_) => true,
        crate::amqp::AnyV::I32(x) => 0 <= x < 256,
        crate::amqp::AnyV::I64(_) => true,
        crate::amqp::AnyV::Str(x) => x.len() < 256,
        crate::amqp::AnyV::Bytes(x) => x.len() >= 256,
        _ => false,
    }
}

/// A dynamic value in the restricted set decodes back to itself.
pub proof fn lemma_any_roundtrip(a: crate::amqp::AnyV, rest: Seq<u8>)
    requires
        crate::amqp::enc_any_ok(a),
        any_decodes(a),
    ensures
        crate::amqp::dec_any(crate::amqp::enc_any(a) + rest) == Ok::<_, Error>((a, rest)),
{
    match a {
        crate::amqp::AnyV::Null => {
            assert((crate::amqp::enc_any(a) + rest).skip(1) =~= rest);
        },
        crate::amqp::AnyV::I8(x) => {
            lemma_i8_roundtrip(x, rest);
        },
        crate::amqp::AnyV::I32(x) => {
            lemma_i32_roundtrip(x, rest);
        },
        crate::amqp::AnyV::I64(x) => {
            lemma_i64_roundtrip(x, rest);
        },
        crate::amqp::AnyV::Str(x) => {
            lemma_str_roundtrip(x, rest);
        },
        crate::amqp::AnyV::Bytes(x) => {
            lemma_bin_roundtrip(x, rest);
        },
        _ => {},
    }
}

/// A key/dynamic-value entry decodes back, for values in the restricted set.
pub proof fn lemma_any_entry_roundtrip(x: (Seq<u8>, crate::amqp::AnyV), rest: Seq<u8>)
    requires
        enc_var_ok(x.0),
        crate::amqp::enc_any_ok(x.1),
        any_decodes(x.1),
    ensures
        <(Vec<u8>, crate::amqp::Any) as crate::Codec>::dec(
            None,
            <(Vec<u8>, crate::amqp::Any) as crate::Codec>::enc(x) + rest,
        ) == Ok::<_, Error>((x, rest)),
{
    let tail = crate::amqp::enc_any(x.1) + rest;
    lemma_seq_assoc(enc_str(x.0), crate::amqp::enc_any(x.1), rest);
    assert(<(Vec<u8>, crate::amqp::Any) as crate::Codec>::enc(x) + rest == enc_str(x.0) + tail);
    lemma_str_roundtrip(x.0, tail);
    lemma_any_roundtrip(x.1, rest);
}

/// A dynamic-value map decodes back, for values in the restricted set.
pub proof fn lemma_any_map_roundtrip(l: Seq<(Seq<u8>, crate::amqp::AnyV)>, rest: Seq<u8>)
    requires
        crate::amqp::enc_elem_map_ok::<(Vec<u8>, crate::amqp::Any)>(l),
        forall|i: int| 0 <= i < l.len() ==> any_decodes(#[trigger] l[i].1),
    ensures
        crate::amqp::dec_elem_map::<(Vec<u8>, crate::amqp::Any)>(
            crate::amqp::enc_elem_map::<(Vec<u8>, crate::amqp::Any)>(l) + rest,
        ) == Ok::<_, Error>((l, rest)),
{
    assert forall|i: int, r: Seq<u8>|
        0 <= i < l.len() implies #[trigger] <(Vec<u8>, crate::amqp::Any) as crate::Codec>::dec(
        None,
        <(Vec<u8>, crate::amqp::Any) as crate::Codec>::enc(l[i]) + r,
    ) == Ok::<_, Error>((l[i], r)) by {
        assert(<(Vec<u8>, crate::amqp::Any) as crate::Codec>::enc_ok(l[i]));
        assert(any_decodes(l[i].1));
        lemma_any_entry_roundtrip(l[i], r);
    }
    lemma_elem_map_roundtrip::<(Vec<u8>, crate::amqp::Any)>(l, rest);
}

/// The bodies whose encoding decodes back: data and sequence always, a
/// value body when the dynamic value lies in the restricted set.
pub open spec fn body_decodes(b: crate::amqp::BodyV) -> bool {
    match b {
        crate::amqp::BodyV::Value(a) => any_decodes(a),
        _ => true,
    }
}

/// A message body decodes back through the data/sequence/value dispatch.
pub proof fn lemma_body_roundtrip(b: crate::amqp::BodyV, rest: Seq<u8>)
    requires
        crate::amqp::enc_body_ok(b),
        body_decodes(b),
    ensures
        crate::amqp::dec_body(crate::amqp::enc_body(b) + rest) == Ok::<_, Error>((b, rest)),
{
    reveal(crate::amqp::dec_body);
    match b {
        crate::amqp::BodyV::Data(x) => {
            let tail = enc_bin(x) + rest;
            lemma_seq_assoc(enc_desc_code(0x75), enc_bin(x), rest);
            assert(crate::amqp::enc_body(b) + rest == enc_desc_code(0x75) + tail);
            lemma_desc_code_roundtrip(0x75, tail);
            lemma_bin_roundtrip(x, rest);
        },
        crate::amqp::BodyV::Sequence => {
            let tail = enc_list_compound(0, Seq::empty()) + rest;
            lemma_seq_assoc(enc_desc_code(0x76), enc_list_compound(0, Seq::empty()), rest);
            assert(crate::amqp::enc_body(b) + rest == enc_desc_code(0x76) + tail);
            lemma_desc_code_roundtrip(0x76, tail);
            lemma_skip_empty_compound(rest);
        },
        crate::amqp::BodyV::Value(a) => {
            let tail = crate::amqp::enc_any(a) + rest;
            lemma_seq_assoc(enc_desc_code(0x77), crate::amqp::enc_any(a), rest);
            assert(crate::amqp::enc_body(b) + rest == enc_desc_code(0x77) + tail);
            lemma_desc_code_roundtrip(0x77, tail);
            lemma_any_roundtrip(a, rest);
        },
    }
}

/// The messages this dialect reads back: any run of sections in which the
/// application-properties section is present (the section walk pre-reads
/// one descriptor, and only this section leaves the body's descriptor
/// unread) and a body follows; dynamic values lie in the restricted set.
pub open spec fn message_decodes(m: crate::amqp::MessageV) -> bool {
    &&& m.application_properties is Some
    &&& match m.application_properties {
        Some(l) => forall|i: int| 0 <= i < l.len() ==> any_decodes(#[trigger] l[i].1),
        None => false,
    }
    &&& match m.message_annotations {
        Some(l) => forall|i: int| 0 <= i < l.len() ==> any_decodes(#[trigger] l[i].1),
        None => true,
    }
    &&& match m.body {
        Some(b) => body_decodes(b),
        None => false,
    }
}

/// Composes known section parses into the whole message walk, over symbolic
/// byte runs: each hypothesis fixes what one walk step yields.
#[verifier::rlimit(100)]
#[verifier::spinoff_prover]
proof fn lemma_message_walk_compose(
    m: crate::amqp::MessageV,
    bv: crate::amqp::BodyV,
    apsv: Seq<(Seq<u8>, crate::amqp::AnyV)>,
    s_all: Seq<u8>,
    d0: crate::de::DescriptorV,
    s0: Seq<u8>,
    d1: crate::de::DescriptorV,
    s1: Seq<u8>,
    d2: crate::de::DescriptorV,
    s2: Seq<u8>,
    d3: crate::de::DescriptorV,
    s3: Seq<u8>,
    s4: Seq<u8>,
    sh: Seq<u8>,
    sd: Seq<u8>,
    sm: Seq<u8>,
    sp: Seq<u8>,
    s5: Seq<u8>,
    s6: Seq<u8>,
    s7: Seq<u8>,
)
    requires
        m.application_properties == Some(apsv),
        m.body == Some(bv),
        crate::de::dec_descriptor(None, s_all) == Ok::<_, Error>((d0, s0)),
        match m.header {
            Some(h) => d0 == crate::de::DescriptorV::Numeric(0x70)
                && crate::amqp::dec_header_body(None, s0) == Ok::<_, Error>((h, sh)) && sh.len()
                > 0 && crate::de::dec_descriptor(None, sh) == Ok::<_, Error>((d1, s1)),
            None => d0 == d1 && s0 == s1 && !crate::amqp::desc_matches(
                d0,
                0x70,
                crate::amqp::name_header(),
            ),
        },
        match m.delivery_annotations {
            Some(da) => d1 == crate::de::DescriptorV::Numeric(0x71)
                && crate::amqp::dec_elem_map::<(Vec<u8>, Vec<u8>)>(s1) == Ok::<_, Error>((
                da,
                sd,
            )) && sd.len() > 0 && crate::de::dec_descriptor(None, sd) == Ok::<_, Error>((
                d2,
                s2,
            )),
            None => d1 == d2 && s1 == s2 && !crate::amqp::desc_matches(
                d1,
                0x71,
                crate::amqp::name_delivery_annotations(),
            ),
        },
        match m.message_annotations {
            Some(ma) => d2 == crate::de::DescriptorV::Numeric(0x72)
                && crate::amqp::dec_elem_map::<(Vec<u8>, crate::amqp::Any)>(s2) == Ok::<_, Error>(
                (ma, sm),
            ) && sm.len() > 0 && crate::de::dec_descriptor(None, sm) == Ok::<_, Error>((d3, s3)),
            None => d2 == d3 && s2 == s3 && !crate::amqp::desc_matches(
                d2,
                0x72,
                crate::amqp::name_message_annotations(),
            ),
        },
        match m.properties {
            Some(p) => d3 == crate::de::DescriptorV::Numeric(0x73)
                && crate::amqp::dec_properties_body(None, s3) == Ok::<_, Error>((p, sp))
                && sp.len() > 0 && crate::de::dec_descriptor(None, sp) == Ok::<_, Error>((
                crate::de::DescriptorV::Numeric(0x74),
                s4,
            )),
            None => d3 == crate::de::DescriptorV::Numeric(0x74) && s3 == s4,
        },
        crate::amqp::dec_elem_map::<(Vec<u8>, crate::amqp::Any)>(s4) == Ok::<_, Error>((
            apsv,
            s5,
        )),
        crate::amqp::dec_body(s5) == Ok::<_, Error>((bv, s6)),
        match m.footer {
            Some(f) => s6.len() > 0 && crate::de::dec_descriptor(None, s6) == Ok::<_, Error>((
                crate::de::DescriptorV::Numeric(0x78),
                s7,
            )) && crate::amqp::dec_elem_map::<(Vec<u8>, Vec<u8>)>(s7) == Ok::<_, Error>((
                f,
                Seq::<u8>::empty(),
            )),
            None => s6 =~= Seq::<u8>::empty(),
        },
    ensures
        crate::amqp::dec_message(s_all) == Ok::<_, Error>((m, Seq::<u8>::empty())),
{
    reveal(crate::amqp::dec_message);
    let d4 = crate::de::DescriptorV::Numeric(0x74);
    assert(crate::amqp::dec_msg_header(d0, s0) == Ok::<_, Error>((m.header, d1, s1)));
    assert(crate::amqp::dec_msg_da(d1, s1) == Ok::<_, Error>((m.delivery_annotations, d2, s2)));
    assert(crate::amqp::dec_msg_ma(d2, s2) == Ok::<_, Error>((m.message_annotations, d3, s3)));
    assert(crate::amqp::dec_msg_props(d3, s3) == Ok::<_, Error>((m.properties, d4, s4)));
    assert(crate::amqp::dec_msg_aps(d4, s4) == Ok::<_, Error>((
        m.application_properties,
        d4,
        s5,
    )));
    match m.footer {
        Some(f) => {
            let d6 = crate::de::DescriptorV::Numeric(0x78);
            assert(crate::amqp::msg_next_desc(d4, s6) == Ok::<_, Error>((d6, s7)));
            assert(crate::amqp::dec_msg_footer(d6, s7) == Ok::<_, Error>((
                m.footer,
                d6,
                Seq::<u8>::empty(),
            )));
        },
        None => {
            assert(s6 == Seq::<u8>::empty());
            assert(crate::amqp::msg_next_desc(d4, s6) == Ok::<_, Error>((d4, s6)));
            assert(crate::amqp::dec_msg_footer(d4, s6) == Ok::<_, Error>((
                m.footer,
                d4,
                Seq::<u8>::empty(),
            )));
        },
    }
}

/// A message whose sections the walk reads back decodes back whole.
#[verifier::rlimit(100)]
#[verifier::spinoff_prover]
pub proof fn lemma_message_roundtrip(m: crate::amqp::MessageV)
    requires
        crate::amqp::enc_message_ok(m),
        message_decodes(m),
    ensures
        crate::amqp::dec_message(crate::amqp::enc_message(m)) == Ok::<_, Error>((
            m,
            Seq::<u8>::empty(),
        )),
{
    let apsv = m.application_properties->0;
    let bv = m.body->0;
    let eh = match m.header {
        Some(x) => crate::amqp::enc_header(x),
        None => Seq::<u8>::empty(),
    };
    let eda = match m.delivery_annotations {
        Some(x) => crate::amqp::enc_delivery_annotations(x),
        None => Seq::<u8>::empty(),
    };
    let ema = match m.message_annotations {
        Some(x) => crate::amqp::enc_message_annotations(x),
        None => Seq::<u8>::empty(),
    };
    let ep = match m.properties {
        Some(x) => crate::amqp::enc_properties(x),
        None => Seq::<u8>::empty(),
    };
    let ea = crate::amqp::enc_application_properties(apsv);
    let eb = crate::amqp::enc_body(bv);
    let ef = match m.footer {
        Some(x) => crate::amqp::enc_footer(x),
        None => Seq::<u8>::empty(),
    };
    let aps_body = crate::amqp::enc_elem_map::<(Vec<u8>, crate::amqp::Any)>(apsv);
    let sb = eb + ef;
    let sa = ea + sb;
    let sp_run = ep + sa;
    let sm_run = ema + sp_run;
    let sd_run = eda + sm_run;
    let s_all = crate::amqp::enc_message(m);
    // flatten the seven-section concatenation into the suffix chain
    assert(s_all == ((((((eh + eda) + ema) + ep) + ea) + eb) + ef));
    lemma_seq_assoc((((eh + eda) + ema) + ep) + ea, eb, ef);
    lemma_seq_assoc(((eh + eda) + ema) + ep, ea, sb);
    lemma_seq_assoc((eh + eda) + ema, ep, sa);
    lemma_seq_assoc(eh + eda, ema, sp_run);
    lemma_seq_assoc(eh, eda, sm_run);
    assert(s_all == eh + sd_run);
    // the application-properties suffix opens with its own descriptor
    lemma_seq_assoc(enc_desc_code(0x74), aps_body, sb);
    assert(sa == enc_desc_code(0x74) + (aps_body + sb));
    lemma_desc_code_roundtrip(0x74, aps_body + sb);
    let s4 = aps_body + sb;
    assert(crate::ser::enc_desc_code(0x74).len() == 3);
    assert(sa.len() >= 3);
    // each optional pre-body section in turn, from the properties backwards
    let d3: crate::de::DescriptorV;
    let s3: Seq<u8>;
    let sp: Seq<u8> = sa;
    match m.properties {
        Some(p) => {
            let pbody = enc_list_compound(13, crate::amqp::enc_properties_fields(p));
            lemma_seq_assoc(enc_desc_code(0x73), pbody, sa);
            assert(sp_run == enc_desc_code(0x73) + (pbody + sa));
            lemma_desc_code_roundtrip(0x73, pbody + sa);
            lemma_properties_body_roundtrip(p, sa);
            d3 = crate::de::DescriptorV::Numeric(0x73);
            s3 = pbody + sa;
        },
        None => {
            lemma_seq_empty_add(sa);
            assert(sp_run == sa);
            d3 = crate::de::DescriptorV::Numeric(0x74);
            s3 = s4;
        },
    }
    assert(crate::de::dec_descriptor(None, sp_run) == Ok::<_, Error>((d3, s3)));
    assert(sp_run.len() >= 3);
    let d2: crate::de::DescriptorV;
    let s2: Seq<u8>;
    let sm: Seq<u8> = sp_run;
    match m.message_annotations {
        Some(ma) => {
            let mabody = crate::amqp::enc_elem_map::<(Vec<u8>, crate::amqp::Any)>(ma);
            lemma_seq_assoc(enc_desc_code(0x72), mabody, sp_run);
            assert(sm_run == enc_desc_code(0x72) + (mabody + sp_run));
            lemma_desc_code_roundtrip(0x72, mabody + sp_run);
            lemma_any_map_roundtrip(ma, sp_run);
            d2 = crate::de::DescriptorV::Numeric(0x72);
            s2 = mabody + sp_run;
        },
        None => {
            lemma_seq_empty_add(sp_run);
            assert(sm_run == sp_run);
            d2 = d3;
            s2 = s3;
        },
    }
    assert(crate::de::dec_descriptor(None, sm_run) == Ok::<_, Error>((d2, s2)));
    assert(sm_run.len() >= 3);
    let d1: crate::de::DescriptorV;
    let s1: Seq<u8>;
    let sd: Seq<u8> = sm_run;
    match m.delivery_annotations {
        Some(da) => {
            let dabody = crate::amqp::enc_elem_map::<(Vec<u8>, Vec<u8>)>(da);
            lemma_seq_assoc(enc_desc_code(0x71), dabody, sm_run);
            assert(sd_run == enc_desc_code(0x71) + (dabody + sm_run));
            lemma_desc_code_roundtrip(0x71, dabody + sm_run);
            lemma_pair_map_roundtrip(da, sm_run);
            d1 = crate::de::DescriptorV::Numeric(0x71);
            s1 = dabody + sm_run;
        },
        None => {
            lemma_seq_empty_add(sm_run);
            assert(sd_run == sm_run);
            d1 = d2;
            s1 = s2;
        },
    }
    assert(crate::de::dec_descriptor(None, sd_run) == Ok::<_, Error>((d1, s1)));
    assert(sd_run.len() >= 3);
    let d0: crate::de::DescriptorV;
    let s0: Seq<u8>;
    let sh: Seq<u8> = sd_run;
    match m.header {
        Some(h) => {
            let hbody = enc_list_compound(5, crate::amqp::enc_header_fields(h));
            lemma_seq_assoc(enc_desc_code(0x70), hbody, sd_run);
            assert(s_all == enc_desc_code(0x70) + (hbody + sd_run));
            lemma_desc_code_roundtrip(0x70, hbody + sd_run);
            lemma_header_body_roundtrip(h, sd_run);
            d0 = crate::de::DescriptorV::Numeric(0x70);
            s0 = hbody + sd_run;
        },
        None => {
            lemma_seq_empty_add(sd_run);
            assert(s_all == sd_run);
            d0 = d1;
            s0 = s1;
        },
    }
    assert(crate::de::dec_descriptor(None, s_all) == Ok::<_, Error>((d0, s0)));
    // the application-properties map, the body, and the footer pieces
    lemma_any_map_roundtrip(apsv, sb);
    lemma_body_roundtrip(bv, ef);
    let s7 = match m.footer {
        Some(f) => crate::amqp::enc_elem_map::<(Vec<u8>, Vec<u8>)>(f) + Seq::<u8>::empty(),
        None => Seq::<u8>::empty(),
    };
    match m.footer {
        Some(f) => {
            let fbody = crate::amqp::enc_elem_map::<(Vec<u8>, Vec<u8>)>(f);
            lemma_seq_add_empty(fbody);
            lemma_seq_assoc(enc_desc_code(0x78), fbody, Seq::<u8>::empty());
            assert(ef == enc_desc_code(0x78) + s7);
            lemma_desc_code_roundtrip(0x78, s7);
            lemma_pair_map_roundtrip(f, Seq::<u8>::empty());
            assert(crate::ser::enc_desc_code(0x78).len() == 3);
            assert(ef.len() > 0);
        },
        None => {},
    }
    lemma_message_walk_compose(
        m, bv, apsv, s_all, d0, s0, d1, s1, d2, s2, d3, s3, s4, sh, sd, sm, sp, sb, ef, s7,
    );
}

/// A transfer frame carrying a message of the shape its calls produce
/// decodes back whole through the stream decoder.
#[verifier::rlimit(100)]
#[verifier::spinoff_prover]
pub proof fn lemma_transfer_frame_roundtrip(v: crate::proto::FrameV, rest: Seq<u8>)
    requires
        crate::proto::enc_frame_ok(v),
        crate::proto::enc_frame(v).len() < 0x4100_0000,
        match v {
            crate::proto::FrameV::Amqp(f) => f.extended_header is None && (match f.message {
                Some(m) => message_decodes(m),
                None => false,
            }),
            _ => false,
        },
    ensures
        crate::proto::dec_stream(crate::proto::enc_frame(v) + rest) == Ok::<
            Option<(crate::proto::FrameV, int)>,
            Error,
        >(Some((v, crate::proto::enc_frame(v).len() as int))),
{
    let e = crate::proto::enc_frame(v);
    let s = e + rest;
    let f = v->Amqp_0;
    let m = f.message->0;
    let body = crate::amqp::enc_performative(f.performative) + crate::amqp::enc_message(m);
    assert(e == crate::wire::be32((8 + body.len()) as u32) + seq![0x02u8, 0x00u8]
        + crate::wire::be16(f.channel) + body);
    let n32 = (8 + body.len()) as u32;
    assert(e.len() == 8 + body.len());
    assert(n32 == e.len());
    assert((n32 >> 24) < 0x41) by (bit_vector)
        requires
            n32 < 0x4100_0000u32,
    ;
    assert(s[0] == (n32 >> 24) as u8);
    assert(((n32 >> 24) as u8) < 0x41) by (bit_vector)
        requires
            (n32 >> 24) < 0x41u32,
    ;
    assert(crate::proto::amqp_magic()[0] == 0x41);
    assert(s.take(4)[0] == s[0]);
    assert(s.take(4) != crate::proto::amqp_magic());
    assert(crate::wire::sq_be32(s) == crate::wire::sq_be32(crate::wire::be32(n32)));
    crate::wire::lemma_be32_roundtrip(n32);
    let n = n32 as int;
    assert(s.len() >= n);
    let w = s.take(n).skip(4);
    assert(s.take(n) =~= e);
    assert(w =~= seq![0x02u8, 0x00u8] + crate::wire::be16(f.channel) + body);
    assert(w.len() >= 4);
    assert(w[0] == 0x02);
    assert(w.take(4)[0] == 0x02);
    assert(w.take(4) != crate::proto::amqp_magic());
    assert(w[1] == 0x00);
    reveal(crate::amqp::dec_amqp_frame);
    let w2 = w.skip(2);
    assert(w2 =~= crate::wire::be16(f.channel) + body);
    assert(crate::wire::sq_be16(w2) == crate::wire::sq_be16(crate::wire::be16(f.channel)));
    crate::wire::lemma_be16_roundtrip(f.channel);
    let w3 = w2.skip(2);
    assert(w3 =~= body);
    assert(w3.take(0) =~= Seq::<u8>::empty());
    assert(w3.skip(0) =~= w3);
    lemma_performative_roundtrip(f.performative, crate::amqp::enc_message(m));
    assert(crate::ser::enc_desc_code(0x74).len() == 3);
    assert(crate::amqp::enc_message(m).len() > 0) by {
        let apsv = m.application_properties->0;
        assert(crate::amqp::enc_application_properties(apsv).len() >= 3);
    }
    lemma_message_roundtrip(m);
}

} // verus!
