//! The primitive serializer: appends AMQP 1.0 encodings to a growing output
//! buffer, always choosing the most compact format code the value's dynamic
//! range allows.
//!
//! The `enc_*` specification functions give the exact byte sequence each
//! method produces; composite encoders build on them.
use vstd::prelude::*;

use crate::wire::{be16, be32, be64, push_be16, push_be32, push_be64, push_all};
use crate::Error;

verus! {

/// Longest byte count a variable-width value may have: the 4-byte length
/// forms stop one short of `u32::MAX`.
pub open spec fn var_width_max() -> int {
    0xFFFF_FFFF - 1
}

pub open spec fn enc_null() -> Seq<u8> {
    seq![0x40u8]
}

pub open spec fn enc_bool(v: bool) -> Seq<u8> {
    if v {
        seq![0x41u8]
    } else {
        seq![0x42u8]
    }
}

pub open spec fn enc_u8(v: u8) -> Seq<u8> {
    seq![0x50u8, v]
}

pub open spec fn enc_u16(v: u16) -> Seq<u8> {
    seq![0x60u8] + be16(v)
}

pub open spec fn enc_u32(v: u32) -> Seq<u8> {
    if v == 0 {
        seq![0x43u8]
    } else if v < 256 {
        seq![0x52u8, v as u8]
    } else {
        seq![0x70u8] + be32(v)
    }
}

pub open spec fn enc_u64(v: u64) -> Seq<u8> {
    if v == 0 {
        seq![0x44u8]
    } else if v < 256 {
        seq![0x53u8, v as u8]
    } else {
        seq![0x80u8] + be64(v)
    }
}

pub open spec fn enc_i8(v: i8) -> Seq<u8> {
    seq![0x51u8, v as u8]
}

pub open spec fn enc_i16(v: i16) -> Seq<u8> {
    seq![0x61u8] + be16(v as u16)
}

pub open spec fn enc_i32(v: i32) -> Seq<u8> {
    if 0 <= v && v < 256 {
        seq![0x54u8, v as u8]
    } else {
        seq![0x71u8] + be32(v as u32)
    }
}

pub open spec fn enc_i64(v: i64) -> Seq<u8> {
    if 0 <= v && v < 256 {
        seq![0x55u8, v as u8]
    } else {
        seq![0x81u8] + be64(v as u64)
    }
}

pub open spec fn enc_char(v: char) -> Seq<u8> {
    seq![0x73u8] + be32(v as u32)
}

/// Whether a variable-width payload is short enough for the 4-byte forms.
pub open spec fn enc_var_ok(s: Seq<u8>) -> bool {
    s.len() <= var_width_max()
}

/// A UTF-8 string: 1-byte length form `0xa1` when it fits, else `0xb1`.
pub open spec fn enc_str(s: Seq<u8>) -> Seq<u8> {
    if s.len() < 256 {
        seq![0xa1u8, s.len() as u8] + s
    } else {
        seq![0xb1u8] + be32(s.len() as u32) + s
    }
}

/// A symbol: `0xa3` when it fits in one length byte, else `0xb3`.
pub open spec fn enc_sym(s: Seq<u8>) -> Seq<u8> {
    if s.len() < 256 {
        seq![0xa3u8, s.len() as u8] + s
    } else {
        seq![0xb3u8] + be32(s.len() as u32) + s
    }
}

/// A binary: `0xa0` when it fits in one length byte, else `0xb0`.
pub open spec fn enc_bin(s: Seq<u8>) -> Seq<u8> {
    if s.len() < 256 {
        seq![0xa0u8, s.len() as u8] + s
    } else {
        seq![0xb0u8] + be32(s.len() as u32) + s
    }
}

/// A list compound in the 4-byte `0xd0` form: the size field counts the
/// count field's own 4 bytes plus the payload.
pub open spec fn enc_list_compound(count: u32, payload: Seq<u8>) -> Seq<u8> {
    seq![0xd0u8] + be32((payload.len() + 4) as u32) + be32(count) + payload
}

/// A map compound in the 4-byte `0xd1` form.
pub open spec fn enc_map_compound(count: u32, payload: Seq<u8>) -> Seq<u8> {
    seq![0xd1u8] + be32((payload.len() + 4) as u32) + be32(count) + payload
}

/// Whether a compound payload is short enough for its 4-byte size field.
pub open spec fn enc_compound_ok(payload: Seq<u8>) -> bool {
    payload.len() + 4 <= 0xFFFF_FFFF
}

/// A numeric descriptor: the `0x00` tag followed by the code as a
/// minimum-width unsigned integer.
pub open spec fn enc_desc_code(code: u64) -> Seq<u8> {
    seq![0x00u8] + enc_u64(code)
}

/// A symbolic descriptor: the `0x00` tag followed by the name as a symbol.
pub open spec fn enc_desc_name(name: Seq<u8>) -> Seq<u8> {
    seq![0x00u8] + enc_sym(name)
}

/// A described composite keyed by a numeric code, fields in a `0xd0` list.
pub open spec fn enc_composite(code: u64, count: u32, payload: Seq<u8>) -> Seq<u8> {
    enc_desc_code(code) + enc_list_compound(count, payload)
}

/// A described composite keyed by a symbolic name, fields in a `0xd0` list.
pub open spec fn enc_composite_named(name: Seq<u8>, count: u32, payload: Seq<u8>) -> Seq<u8> {
    enc_desc_name(name) + enc_list_compound(count, payload)
}

/// The view of an optional byte vector.
pub open spec fn view_opt_bytes(v: Option<Vec<u8>>) -> Option<Seq<u8>> {
    match v {
        Some(x) => Some(x@),
        None => None,
    }
}

pub open spec fn enc_opt_bool(v: Option<bool>) -> Seq<u8> {
    match v {
        Some(x) => enc_bool(x),
        None => enc_null(),
    }
}

pub open spec fn enc_opt_u8(v: Option<u8>) -> Seq<u8> {
    match v {
        Some(x) => enc_u8(x),
        None => enc_null(),
    }
}

pub open spec fn enc_opt_u16(v: Option<u16>) -> Seq<u8> {
    match v {
        Some(x) => enc_u16(x),
        None => enc_null(),
    }
}

pub open spec fn enc_opt_u32(v: Option<u32>) -> Seq<u8> {
    match v {
        Some(x) => enc_u32(x),
        None => enc_null(),
    }
}

pub open spec fn enc_opt_u64(v: Option<u64>) -> Seq<u8> {
    match v {
        Some(x) => enc_u64(x),
        None => enc_null(),
    }
}

pub open spec fn enc_opt_i64(v: Option<i64>) -> Seq<u8> {
    match v {
        Some(x) => enc_i64(x),
        None => enc_null(),
    }
}

pub open spec fn enc_opt_str(v: Option<Seq<u8>>) -> Seq<u8> {
    match v {
        Some(x) => enc_str(x),
        None => enc_null(),
    }
}

pub open spec fn enc_opt_str_ok(v: Option<Seq<u8>>) -> bool {
    match v {
        Some(x) => enc_var_ok(x),
        None => true,
    }
}

pub open spec fn enc_opt_bin(v: Option<Seq<u8>>) -> Seq<u8> {
    match v {
        Some(x) => enc_bin(x),
        None => enc_null(),
    }
}

pub open spec fn enc_opt_bin_ok(v: Option<Seq<u8>>) -> bool {
    match v {
        Some(x) => enc_var_ok(x),
        None => true,
    }
}

/// Appends AMQP 1.0 primitive encodings to an owned output buffer.
pub struct Serializer {
    pub output: Vec<u8>,
}

impl Serializer {
    pub open spec fn bytes(self) -> Seq<u8> {
        self.output@
    }

    pub fn new() -> (r: Serializer)
        ensures
            r.bytes() == Seq::<u8>::empty(),
    {
        Serializer { output: Vec::new() }
    }

    pub fn into_vec(self) -> (r: Vec<u8>)
        ensures
            r@ == self.bytes(),
    {
        self.output
    }

    /// Appends already-encoded bytes verbatim.
    pub fn write_raw(&mut self, v: &[u8])
        ensures
            final(self).bytes() == old(self).bytes() + v@,
    {
        push_all(&mut self.output, v);
    }

    pub fn serialize_unit(&mut self)
        ensures
            final(self).bytes() == old(self).bytes() + enc_null(),
    {
        self.output.push(0x40);
        assert(self.bytes() =~= old(self).bytes() + enc_null());
    }

    pub fn serialize_bool(&mut self, v: bool)
        ensures
            final(self).bytes() == old(self).bytes() + enc_bool(v),
    {
        self.output.push(if v { 0x41 } else { 0x42 });
        assert(self.bytes() =~= old(self).bytes() + enc_bool(v));
    }

    pub fn serialize_u8(&mut self, v: u8)
        ensures
            final(self).bytes() == old(self).bytes() + enc_u8(v),
    {
        self.output.push(0x50);
        self.output.push(v);
        assert(self.bytes() =~= old(self).bytes() + enc_u8(v));
    }

    pub fn serialize_u16(&mut self, v: u16)
        ensures
            final(self).bytes() == old(self).bytes() + enc_u16(v),
    {
        self.output.push(0x60);
        push_be16(&mut self.output, v);
        assert(self.bytes() =~= old(self).bytes() + enc_u16(v));
    }

    pub fn serialize_u32(&mut self, v: u32)
        ensures
            final(self).bytes() == old(self).bytes() + enc_u32(v),
    {
        if v == 0 {
            self.output.push(0x43);
        } else if v < 256 {
            self.output.push(0x52);
            self.output.push(v as u8);
        } else {
            self.output.push(0x70);
            push_be32(&mut self.output, v);
        }
        assert(self.bytes() =~= old(self).bytes() + enc_u32(v));
    }

    pub fn serialize_u64(&mut self, v: u64)
        ensures
            final(self).bytes() == old(self).bytes() + enc_u64(v),
    {
        if v == 0 {
            self.output.push(0x44);
        } else if v < 256 {
            self.output.push(0x53);
            self.output.push(v as u8);
        } else {
            self.output.push(0x80);
            push_be64(&mut self.output, v);
        }
        assert(self.bytes() =~= old(self).bytes() + enc_u64(v));
    }

    pub fn serialize_i8(&mut self, v: i8)
        ensures
            final(self).bytes() == old(self).bytes() + enc_i8(v),
    {
        self.output.push(0x51);
        self.output.push(v as u8);
        assert(self.bytes() =~= old(self).bytes() + enc_i8(v));
    }

    pub fn serialize_i16(&mut self, v: i16)
        ensures
            final(self).bytes() == old(self).bytes() + enc_i16(v),
    {
        self.output.push(0x61);
        push_be16(&mut self.output, v as u16);
        assert(self.bytes() =~= old(self).bytes() + enc_i16(v));
    }

    pub fn serialize_i32(&mut self, v: i32)
        ensures
            final(self).bytes() == old(self).bytes() + enc_i32(v),
    {
        if 0 <= v && v < 256 {
            self.output.push(0x54);
            self.output.push(v as u8);
        } else {
            self.output.push(0x71);
            push_be32(&mut self.output, v as u32);
        }
        assert(self.bytes() =~= old(self).bytes() + enc_i32(v));
    }

    pub fn serialize_i64(&mut self, v: i64)
        ensures
            final(self).bytes() == old(self).bytes() + enc_i64(v),
    {
        if 0 <= v && v < 256 {
            self.output.push(0x55);
            self.output.push(v as u8);
        } else {
            self.output.push(0x81);
            push_be64(&mut self.output, v as u64);
        }
        assert(self.bytes() =~= old(self).bytes() + enc_i64(v));
    }

    pub fn serialize_char(&mut self, v: char)
        ensures
            final(self).bytes() == old(self).bytes() + enc_char(v),
    {
        self.output.push(0x73);
        push_be32(&mut self.output, v as u32);
        assert(self.bytes() =~= old(self).bytes() + enc_char(v));
    }

    /// Writes a variable-width value under the given pair of format codes:
    /// `small` with a 1-byte length when the payload fits, else `large` with
    /// a 4-byte length. Fails, leaving the buffer unchanged, only on a
    /// payload too long even for the 4-byte form.
    fn serialize_var(&mut self, small: u8, large: u8, v: &[u8]) -> (r: Result<(), Error>)
        ensures
            match r {
                Ok(()) => enc_var_ok(v@) && final(self).bytes() == old(self).bytes() + (if v@.len()
                    < 256 {
                    seq![small, v@.len() as u8] + v@
                } else {
                    seq![large] + be32(v@.len() as u32) + v@
                }),
                Err(e) => !enc_var_ok(v@) && e == Error::InvalidData && *final(self) == *old(self),
            },
    {
        if v.len() < 256 {
            self.output.push(small);
            self.output.push(v.len() as u8);
            push_all(&mut self.output, v);
            assert(self.bytes() =~= old(self).bytes() + (seq![small, v@.len() as u8] + v@));
            Ok(())
        } else if v.len() <= 0xFFFF_FFFEusize {
            self.output.push(large);
            push_be32(&mut self.output, v.len() as u32);
            push_all(&mut self.output, v);
            assert(self.bytes() =~= old(self).bytes() + (seq![large] + be32(v@.len() as u32)
                + v@));
            Ok(())
        } else {
            Err(Error::InvalidData)
        }
    }

    pub fn serialize_str(&mut self, v: &[u8]) -> (r: Result<(), Error>)
        ensures
            match r {
                Ok(()) => enc_var_ok(v@) && final(self).bytes() == old(self).bytes() + enc_str(v@),
                Err(e) => !enc_var_ok(v@) && e == Error::InvalidData && *final(self) == *old(self),
            },
    {
        self.serialize_var(0xa1, 0xb1, v)
    }

    pub fn serialize_symbol(&mut self, v: &[u8]) -> (r: Result<(), Error>)
        ensures
            match r {
                Ok(()) => enc_var_ok(v@) && final(self).bytes() == old(self).bytes() + enc_sym(v@),
                Err(e) => !enc_var_ok(v@) && e == Error::InvalidData && *final(self) == *old(self),
            },
    {
        self.serialize_var(0xa3, 0xb3, v)
    }

    pub fn serialize_bytes(&mut self, v: &[u8]) -> (r: Result<(), Error>)
        ensures
            match r {
                Ok(()) => enc_var_ok(v@) && final(self).bytes() == old(self).bytes() + enc_bin(v@),
                Err(e) => !enc_var_ok(v@) && e == Error::InvalidData && *final(self) == *old(self),
            },
    {
        self.serialize_var(0xa0, 0xb0, v)
    }

    pub fn serialize_opt_bool(&mut self, v: &Option<bool>)
        ensures
            final(self).bytes() == old(self).bytes() + enc_opt_bool(*v),
    {
        match v {
            Some(x) => self.serialize_bool(*x),
            None => self.serialize_unit(),
        }
    }

    pub fn serialize_opt_u8(&mut self, v: &Option<u8>)
        ensures
            final(self).bytes() == old(self).bytes() + enc_opt_u8(*v),
    {
        match v {
            Some(x) => self.serialize_u8(*x),
            None => self.serialize_unit(),
        }
    }

    pub fn serialize_opt_u16(&mut self, v: &Option<u16>)
        ensures
            final(self).bytes() == old(self).bytes() + enc_opt_u16(*v),
    {
        match v {
            Some(x) => self.serialize_u16(*x),
            None => self.serialize_unit(),
        }
    }

    pub fn serialize_opt_u32(&mut self, v: &Option<u32>)
        ensures
            final(self).bytes() == old(self).bytes() + enc_opt_u32(*v),
    {
        match v {
            Some(x) => self.serialize_u32(*x),
            None => self.serialize_unit(),
        }
    }

    pub fn serialize_opt_u64(&mut self, v: &Option<u64>)
        ensures
            final(self).bytes() == old(self).bytes() + enc_opt_u64(*v),
    {
        match v {
            Some(x) => self.serialize_u64(*x),
            None => self.serialize_unit(),
        }
    }

    pub fn serialize_opt_i64(&mut self, v: &Option<i64>)
        ensures
            final(self).bytes() == old(self).bytes() + enc_opt_i64(*v),
    {
        match v {
            Some(x) => self.serialize_i64(*x),
            None => self.serialize_unit(),
        }
    }

    pub fn serialize_opt_str(&mut self, v: &Option<Vec<u8>>) -> (r: Result<(), Error>)
        ensures
            match r {
                Ok(()) => enc_opt_str_ok(view_opt_bytes(*v)) && final(self).bytes() == old(self).bytes() + enc_opt_str(view_opt_bytes(*v)),
                Err(e) => !enc_opt_str_ok(view_opt_bytes(*v)) && e == Error::InvalidData && *final(self) == *old(self),
            },
    {
        match v {
            Some(x) => self.serialize_str(x.as_slice()),
            None => {
                self.serialize_unit();
                Ok(())
            },
        }
    }

    pub fn serialize_opt_bytes(&mut self, v: &Option<Vec<u8>>) -> (r: Result<(), Error>)
        ensures
            match r {
                Ok(()) => enc_opt_bin_ok(view_opt_bytes(*v)) && final(self).bytes() == old(self).bytes() + enc_opt_bin(view_opt_bytes(*v)),
                Err(e) => !enc_opt_bin_ok(view_opt_bytes(*v)) && e == Error::InvalidData && *final(self) == *old(self),
            },
    {
        match v {
            Some(x) => self.serialize_bytes(x.as_slice()),
            None => {
                self.serialize_unit();
                Ok(())
            },
        }
    }

    /// Writes the `0x00` tag and a numeric descriptor.
    pub fn serialize_descriptor_code(&mut self, code: u64)
        ensures
            final(self).bytes() == old(self).bytes() + enc_desc_code(code),
    {
        self.output.push(0x00);
        assert(self.bytes() =~= old(self).bytes() + seq![0x00u8]);
        self.serialize_u64(code);
        assert(self.bytes() =~= old(self).bytes() + enc_desc_code(code));
    }

    /// Writes the `0x00` tag and a symbolic descriptor.
    pub fn serialize_descriptor_name(&mut self, name: &[u8]) -> (r: Result<(), Error>)
        ensures
            match r {
                Ok(()) => enc_var_ok(name@) && final(self).bytes() == old(self).bytes()
                    + enc_desc_name(name@),
                Err(e) => !enc_var_ok(name@) && e == Error::InvalidData && *final(self) == *old(self),
            },
    {
        if name.len() > 0xFFFF_FFFEusize {
            return Err(Error::InvalidData);
        }
        self.output.push(0x00);
        assert(self.bytes() =~= old(self).bytes() + seq![0x00u8]);
        match self.serialize_symbol(name) {
            Ok(()) => {
                assert(self.bytes() =~= old(self).bytes() + enc_desc_name(name@));
                Ok(())
            },
            Err(e) => {
                proof {
                    assert(false);
                }
                Err(e)
            },
        }
    }

    /// Writes a list compound in the `0xd0` form around an already-encoded
    /// field payload.
    pub fn serialize_list_compound(&mut self, count: u32, payload: &[u8]) -> (r: Result<
        (),
        Error,
    >)
        ensures
            match r {
                Ok(()) => enc_compound_ok(payload@) && final(self).bytes() == old(self).bytes()
                    + enc_list_compound(count, payload@),
                Err(e) => !enc_compound_ok(payload@) && e == Error::InvalidData && *final(self)
                    == *old(self),
            },
    {
        if payload.len() > 0xFFFF_FFFBusize {
            return Err(Error::InvalidData);
        }
        self.output.push(0xd0);
        push_be32(&mut self.output, (payload.len() as u32) + 4);
        push_be32(&mut self.output, count);
        push_all(&mut self.output, payload);
        assert(self.bytes() =~= old(self).bytes() + enc_list_compound(count, payload@));
        Ok(())
    }

    /// Writes a map compound in the `0xd1` form around an already-encoded
    /// entry payload.
    pub fn serialize_map_compound(&mut self, count: u32, payload: &[u8]) -> (r: Result<(), Error>)
        ensures
            match r {
                Ok(()) => enc_compound_ok(payload@) && final(self).bytes() == old(self).bytes()
                    + enc_map_compound(count, payload@),
                Err(e) => !enc_compound_ok(payload@) && e == Error::InvalidData && *final(self)
                    == *old(self),
            },
    {
        if payload.len() > 0xFFFF_FFFBusize {
            return Err(Error::InvalidData);
        }
        self.output.push(0xd1);
        push_be32(&mut self.output, (payload.len() as u32) + 4);
        push_be32(&mut self.output, count);
        push_all(&mut self.output, payload);
        assert(self.bytes() =~= old(self).bytes() + enc_map_compound(count, payload@));
        Ok(())
    }
}

} // verus!
