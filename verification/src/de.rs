//! The primitive deserializer: a cursor over a borrowed byte slice with a
//! peek/next byte pair, a constructor state cell for homogeneous arrays, a
//! descriptor parser, and one parse method per primitive class.
//!
//! Every parse method's contract equates its result with a `dec_*`
//! specification-level parser applied to the bytes that were remaining, so
//! that callers reason purely over byte sequences.
use vstd::prelude::*;

use crate::wire::{sq_be16, sq_be32, sq_be64};
use crate::{ifc, Error, Expected, InvalidFormatCode};

verus! {

/// One byte: the head of the input.
pub open spec fn dec_byte(s: Seq<u8>) -> Result<(u8, Seq<u8>), Error> {
    if s.len() == 0 {
        Err(Error::UnexpectedEnd)
    } else {
        Ok((s[0], s.skip(1)))
    }
}

/// One byte that must equal `code`.
pub open spec fn dec_expect(code: u8, exp: Expected, s: Seq<u8>) -> Result<((), Seq<u8>), Error> {
    match dec_byte(s) {
        Err(e) => Err(e),
        Ok((b, s1)) => if b == code {
            Ok(((), s1))
        } else {
            Err(ifc(exp, b))
        },
    }
}

/// A raw big-endian `u16` with no format code.
pub open spec fn dec_raw_u16(s: Seq<u8>) -> Result<(u16, Seq<u8>), Error> {
    if s.len() < 2 {
        Err(Error::UnexpectedEnd)
    } else {
        Ok((sq_be16(s), s.skip(2)))
    }
}

/// A raw big-endian `u32` with no format code.
pub open spec fn dec_raw_u32(s: Seq<u8>) -> Result<(u32, Seq<u8>), Error> {
    if s.len() < 4 {
        Err(Error::UnexpectedEnd)
    } else {
        Ok((sq_be32(s), s.skip(4)))
    }
}

/// A raw big-endian `u64` with no format code.
pub open spec fn dec_raw_u64(s: Seq<u8>) -> Result<(u64, Seq<u8>), Error> {
    if s.len() < 8 {
        Err(Error::UnexpectedEnd)
    } else {
        Ok((sq_be64(s), s.skip(8)))
    }
}

/// The next constructor: the hoisted code when the constructor cell is set,
/// else the next byte of the input.
pub open spec fn dec_ctor(c: Option<u8>, s: Seq<u8>) -> Result<(u8, Seq<u8>), Error> {
    match c {
        Some(v) => Ok((v, s)),
        None => dec_byte(s),
    }
}

/// A boolean: `0x41`, `0x42`, or `0x56` followed by `0x00`/`0x01`.
pub open spec fn dec_bool(c: Option<u8>, s: Seq<u8>) -> Result<(bool, Seq<u8>), Error> {
    match dec_ctor(c, s) {
        Err(e) => Err(e),
        Ok((t, s1)) => if t == 0x56 {
            match dec_byte(s1) {
                Err(e) => Err(e),
                Ok((b, s2)) => if b == 0x01 {
                    Ok((true, s2))
                } else if b == 0x00 {
                    Ok((false, s2))
                } else {
                    Err(ifc(Expected::Bool, b))
                },
            }
        } else if t == 0x41 {
            Ok((true, s1))
        } else if t == 0x42 {
            Ok((false, s1))
        } else {
            Err(ifc(Expected::Bool, t))
        },
    }
}

pub open spec fn dec_u8(s: Seq<u8>) -> Result<(u8, Seq<u8>), Error> {
    match dec_expect(0x50, Expected::U8, s) {
        Err(e) => Err(e),
        Ok((_, s1)) => dec_byte(s1),
    }
}

pub open spec fn dec_u16(s: Seq<u8>) -> Result<(u16, Seq<u8>), Error> {
    match dec_expect(0x60, Expected::U16, s) {
        Err(e) => Err(e),
        Ok((_, s1)) => dec_raw_u16(s1),
    }
}

pub open spec fn dec_u32(s: Seq<u8>) -> Result<(u32, Seq<u8>), Error> {
    match dec_byte(s) {
        Err(e) => Err(e),
        Ok((t, s1)) => if t == 0x43 {
            Ok((0u32, s1))
        } else if t == 0x52 {
            match dec_byte(s1) {
                Err(e) => Err(e),
                Ok((b, s2)) => Ok((b as u32, s2)),
            }
        } else if t == 0x70 {
            dec_raw_u32(s1)
        } else {
            Err(ifc(Expected::U32, t))
        },
    }
}

pub open spec fn dec_u64(s: Seq<u8>) -> Result<(u64, Seq<u8>), Error> {
    match dec_byte(s) {
        Err(e) => Err(e),
        Ok((t, s1)) => if t == 0x44 {
            Ok((0u64, s1))
        } else if t == 0x53 {
            match dec_byte(s1) {
                Err(e) => Err(e),
                Ok((b, s2)) => Ok((b as u64, s2)),
            }
        } else if t == 0x80 {
            dec_raw_u64(s1)
        } else {
            Err(ifc(Expected::U64, t))
        },
    }
}

pub open spec fn dec_i8(s: Seq<u8>) -> Result<(i8, Seq<u8>), Error> {
    match dec_expect(0x51, Expected::I8, s) {
        Err(e) => Err(e),
        Ok((_, s1)) => match dec_byte(s1) {
            Err(e) => Err(e),
            Ok((b, s2)) => Ok((b as i8, s2)),
        },
    }
}

pub open spec fn dec_i16(s: Seq<u8>) -> Result<(i16, Seq<u8>), Error> {
    match dec_expect(0x61, Expected::I16, s) {
        Err(e) => Err(e),
        Ok((_, s1)) => match dec_raw_u16(s1) {
            Err(e) => Err(e),
            Ok((v, s2)) => Ok((v as i16, s2)),
        },
    }
}

/// An `i32`: the one-byte form is read zero-extended, as the wide form is
/// chosen for every negative value on encode.
pub open spec fn dec_i32(s: Seq<u8>) -> Result<(i32, Seq<u8>), Error> {
    match dec_byte(s) {
        Err(e) => Err(e),
        Ok((t, s1)) => if t == 0x54 {
            match dec_byte(s1) {
                Err(e) => Err(e),
                Ok((b, s2)) => Ok((b as i32, s2)),
            }
        } else if t == 0x71 {
            match dec_raw_u32(s1) {
                Err(e) => Err(e),
                Ok((v, s2)) => Ok((v as i32, s2)),
            }
        } else {
            Err(ifc(Expected::I32, t))
        },
    }
}

/// An `i64`; `0x83` is the timestamp form, same layout as `0x81`.
pub open spec fn dec_i64(s: Seq<u8>) -> Result<(i64, Seq<u8>), Error> {
    match dec_byte(s) {
        Err(e) => Err(e),
        Ok((t, s1)) => if t == 0x55 {
            match dec_byte(s1) {
                Err(e) => Err(e),
                Ok((b, s2)) => Ok((b as i64, s2)),
            }
        } else if t == 0x81 || t == 0x83 {
            match dec_raw_u64(s1) {
                Err(e) => Err(e),
                Ok((v, s2)) => Ok((v as i64, s2)),
            }
        } else {
            Err(ifc(Expected::I64, t))
        },
    }
}

/// A length-prefixed payload after a constructor drawn from a two-code set:
/// `small` carries a 1-byte length, `large` a 4-byte big-endian length.
pub open spec fn dec_var(
    c: Option<u8>,
    small1: u8,
    small2: u8,
    large1: u8,
    large2: u8,
    exp: Expected,
    s: Seq<u8>,
) -> Result<(Seq<u8>, Seq<u8>), Error> {
    match dec_ctor(c, s) {
        Err(e) => Err(e),
        Ok((t, s1)) => if t == small1 || t == small2 {
            match dec_byte(s1) {
                Err(e) => Err(e),
                Ok((n, s2)) => if s2.len() < n {
                    Err(Error::UnexpectedEnd)
                } else {
                    Ok((s2.take(n as int), s2.skip(n as int)))
                },
            }
        } else if t == large1 || t == large2 {
            match dec_raw_u32(s1) {
                Err(e) => Err(e),
                Ok((n, s2)) => if s2.len() < n {
                    Err(Error::UnexpectedEnd)
                } else {
                    Ok((s2.take(n as int), s2.skip(n as int)))
                },
            }
        } else {
            Err(ifc(exp, t))
        },
    }
}

/// A string (`0xa1`/`0xb1`; symbols are accepted here too, as strings).
pub open spec fn dec_str(c: Option<u8>, s: Seq<u8>) -> Result<(Seq<u8>, Seq<u8>), Error> {
    dec_var(c, 0xa1, 0xa3, 0xb1, 0xb3, Expected::Str, s)
}

/// A binary or symbol (`0xa0`/`0xa3`/`0xb0`/`0xb3`).
pub open spec fn dec_bin(c: Option<u8>, s: Seq<u8>) -> Result<(Seq<u8>, Seq<u8>), Error> {
    dec_var(c, 0xa0, 0xa3, 0xb0, 0xb3, Expected::Bytes, s)
}

/// A descriptor: the `0x00` tag, then a `u64` code or a symbol name.
pub open spec fn dec_descriptor(c: Option<u8>, s: Seq<u8>) -> Result<
    (DescriptorV, Seq<u8>),
    Error,
> {
    match dec_expect(0x00, Expected::Descriptor, s) {
        Err(e) => Err(e),
        Ok((_, s1)) => if s1.len() == 0 {
            Err(Error::UnexpectedEnd)
        } else {
            let f = s1[0];
            if f == 0x44 || f == 0x53 || f == 0x80 {
                match dec_u64(s1) {
                    Err(e) => Err(e),
                    Ok((v, s2)) => Ok((DescriptorV::Numeric(v), s2)),
                }
            } else if f == 0xa3 || f == 0xb3 {
                match dec_bin(c, s1) {
                    Err(e) => Err(e),
                    Ok((v, s2)) => Ok((DescriptorV::Symbol(v), s2)),
                }
            } else {
                Err(ifc(Expected::Descriptor, f))
            }
        },
    }
}

/// A compound header: `(payload size, count, hoisted constructor)`. The size
/// on the wire includes the count field (and for arrays the constructor);
/// the returned size covers the payload alone.
pub open spec fn dec_compound(s: Seq<u8>) -> Result<((u32, u32, Option<u8>), Seq<u8>), Error> {
    match dec_byte(s) {
        Err(e) => Err(e),
        Ok((t, s1)) => if t == 0x45 {
            Ok(((0u32, 0u32, None::<u8>), s1))
        } else if t == 0xc0 || t == 0xc1 {
            match dec_byte(s1) {
                Err(e) => Err(e),
                Ok((size, s2)) => match dec_byte(s2) {
                    Err(e) => Err(e),
                    Ok((count, s3)) => if size < 1 {
                        Err(Error::InvalidData)
                    } else {
                        Ok((((size - 1) as u32, count as u32, None::<u8>), s3))
                    },
                },
            }
        } else if t == 0xd0 || t == 0xd1 {
            match dec_raw_u32(s1) {
                Err(e) => Err(e),
                Ok((size, s2)) => match dec_raw_u32(s2) {
                    Err(e) => Err(e),
                    Ok((count, s3)) => if size < 4 {
                        Err(Error::InvalidData)
                    } else {
                        Ok((((size - 4) as u32, count, None::<u8>), s3))
                    },
                },
            }
        } else if t == 0xe0 {
            match dec_byte(s1) {
                Err(e) => Err(e),
                Ok((size, s2)) => match dec_byte(s2) {
                    Err(e) => Err(e),
                    Ok((count, s3)) => match dec_byte(s3) {
                        Err(e) => Err(e),
                        Ok((ctor, s4)) => if size < 2 {
                            Err(Error::InvalidData)
                        } else {
                            Ok((((size - 2) as u32, count as u32, Some(ctor)), s4))
                        },
                    },
                },
            }
        } else if t == 0xf0 {
            match dec_raw_u32(s1) {
                Err(e) => Err(e),
                Ok((size, s2)) => match dec_raw_u32(s2) {
                    Err(e) => Err(e),
                    Ok((count, s3)) => match dec_raw_u32(s3) {
                        Err(e) => Err(e),
                        Ok((ctor, s4)) => if size < 8 || ctor > 255 {
                            Err(Error::InvalidData)
                        } else {
                            Ok((((size - 8) as u32, count, Some(ctor as u8)), s4))
                        },
                    },
                },
            }
        } else {
            Err(ifc(Expected::Compound, t))
        },
    }
}

/// An optional field inside a composite window: absent when the window is
/// exhausted (a truncated trailing field) or when a `0x40` null stands in
/// its slot.
pub open spec fn dec_opt_bool(c: Option<u8>, s: Seq<u8>) -> Result<(Option<bool>, Seq<u8>), Error> {
    if s.len() == 0 {
        Ok((None, s))
    } else if s[0] == 0x40 {
        Ok((None, s.skip(1)))
    } else {
        match dec_bool(c, s) {
            Err(e) => Err(e),
            Ok((v, r)) => Ok((Some(v), r)),
        }
    }
}

pub open spec fn dec_opt_u8(s: Seq<u8>) -> Result<(Option<u8>, Seq<u8>), Error> {
    if s.len() == 0 {
        Ok((None, s))
    } else if s[0] == 0x40 {
        Ok((None, s.skip(1)))
    } else {
        match dec_u8(s) {
            Err(e) => Err(e),
            Ok((v, r)) => Ok((Some(v), r)),
        }
    }
}

pub open spec fn dec_opt_u16(s: Seq<u8>) -> Result<(Option<u16>, Seq<u8>), Error> {
    if s.len() == 0 {
        Ok((None, s))
    } else if s[0] == 0x40 {
        Ok((None, s.skip(1)))
    } else {
        match dec_u16(s) {
            Err(e) => Err(e),
            Ok((v, r)) => Ok((Some(v), r)),
        }
    }
}

pub open spec fn dec_opt_u32(s: Seq<u8>) -> Result<(Option<u32>, Seq<u8>), Error> {
    if s.len() == 0 {
        Ok((None, s))
    } else if s[0] == 0x40 {
        Ok((None, s.skip(1)))
    } else {
        match dec_u32(s) {
            Err(e) => Err(e),
            Ok((v, r)) => Ok((Some(v), r)),
        }
    }
}

pub open spec fn dec_opt_u64(s: Seq<u8>) -> Result<(Option<u64>, Seq<u8>), Error> {
    if s.len() == 0 {
        Ok((None, s))
    } else if s[0] == 0x40 {
        Ok((None, s.skip(1)))
    } else {
        match dec_u64(s) {
            Err(e) => Err(e),
            Ok((v, r)) => Ok((Some(v), r)),
        }
    }
}

pub open spec fn dec_opt_i64(s: Seq<u8>) -> Result<(Option<i64>, Seq<u8>), Error> {
    if s.len() == 0 {
        Ok((None, s))
    } else if s[0] == 0x40 {
        Ok((None, s.skip(1)))
    } else {
        match dec_i64(s) {
            Err(e) => Err(e),
            Ok((v, r)) => Ok((Some(v), r)),
        }
    }
}

#[verifier::opaque]
pub open spec fn dec_opt_str(c: Option<u8>, s: Seq<u8>) -> Result<
    (Option<Seq<u8>>, Seq<u8>),
    Error,
> {
    if s.len() == 0 {
        Ok((None, s))
    } else if s[0] == 0x40 {
        Ok((None, s.skip(1)))
    } else {
        match dec_str(c, s) {
            Err(e) => Err(e),
            Ok((v, r)) => Ok((Some(v), r)),
        }
    }
}

#[verifier::opaque]
pub open spec fn dec_opt_bin(c: Option<u8>, s: Seq<u8>) -> Result<
    (Option<Seq<u8>>, Seq<u8>),
    Error,
> {
    if s.len() == 0 {
        Ok((None, s))
    } else if s[0] == 0x40 {
        Ok((None, s.skip(1)))
    } else {
        match dec_bin(c, s) {
            Err(e) => Err(e),
            Ok((v, r)) => Ok((Some(v), r)),
        }
    }
}

/// Some brokers emit a redundant outer descriptor ahead of a compound; a
/// compound reader strips it when the next byte is the `0x00` tag.
pub open spec fn dec_maybe_desc(c: Option<u8>, s: Seq<u8>) -> Result<Seq<u8>, Error> {
    if s.len() == 0 {
        Err(Error::UnexpectedEnd)
    } else if s[0] == 0x00 {
        match dec_descriptor(c, s) {
            Err(e) => Err(e),
            Ok((_, r)) => Ok(r),
        }
    } else {
        Ok(s)
    }
}

/// A decoded descriptor, viewed.
pub enum DescriptorV {
    Numeric(u64),
    Symbol(Seq<u8>),
}

/// A decoded descriptor: either a 64-bit numeric code or a symbolic name.
#[derive(Clone, Debug, PartialEq, Eq)]
pub enum Descriptor {
    Numeric(u64),
    Symbol(Vec<u8>),
}

impl View for Descriptor {
    type V = DescriptorV;

    open spec fn view(&self) -> DescriptorV {
        match self {
            Descriptor::Numeric(v) => DescriptorV::Numeric(*v),
            Descriptor::Symbol(v) => DescriptorV::Symbol(v@),
        }
    }
}

/// Relation between a deserializer before and after one parse step: the same
/// window over the same input, the same constructor cell, the cursor moved
/// only forward.
pub open spec fn stepped(pre: Deserializer, post: Deserializer) -> bool {
    &&& post.wf()
    &&& post.input@ == pre.input@
    &&& post.limit == pre.limit
    &&& post.constructor == pre.constructor
    &&& pre.pos <= post.pos
}

/// A cursor over a borrowed byte slice. `limit` bounds the window a nested
/// compound may read; `constructor` holds the element code hoisted out of a
/// homogeneous array.
pub struct Deserializer<'a> {
    pub input: &'a [u8],
    pub pos: usize,
    pub limit: usize,
    pub constructor: Option<u8>,
}

impl<'a> Deserializer<'a> {
    pub open spec fn wf(self) -> bool {
        self.pos <= self.limit && self.limit <= self.input@.len()
    }

    /// The bytes not yet consumed, within the current window.
    pub open spec fn remaining(self) -> Seq<u8> {
        self.input@.subrange(self.pos as int, self.limit as int)
    }

    pub fn from_bytes(input: &'a [u8]) -> (r: Deserializer<'a>)
        ensures
            r.wf(),
            r.remaining() == input@,
            r.constructor == None::<u8>,
            r.input@ == input@,
            r.pos == 0,
            r.limit == input@.len(),
    {
        let r = Deserializer { input, pos: 0, limit: input.len(), constructor: None };
        assert(r.remaining() =~= input@);
        r
    }

    /// How many bytes are left in the window.
    pub fn remaining_len(&self) -> (r: usize)
        requires
            self.wf(),
        ensures
            r == self.remaining().len(),
    {
        self.limit - self.pos
    }

    pub fn at_end(&self) -> (r: bool)
        requires
            self.wf(),
        ensures
            r <==> self.remaining().len() == 0,
    {
        self.limit == self.pos
    }

    pub fn peek(&self) -> (r: Result<u8, Error>)
        requires
            self.wf(),
        ensures
            match r {
                Ok(b) => self.remaining().len() > 0 && b == self.remaining()[0],
                Err(e) => self.remaining().len() == 0 && e == Error::UnexpectedEnd,
            },
    {
        if self.pos < self.limit {
            Ok(self.input[self.pos])
        } else {
            Err(Error::UnexpectedEnd)
        }
    }

    pub fn next(&mut self) -> (r: Result<u8, Error>)
        requires
            old(self).wf(),
        ensures
            stepped(*old(self), *final(self)),
            match r {
                Ok(b) => dec_byte(old(self).remaining()) == Ok::<_, Error>((
                    b,
                    final(self).remaining(),
                )),
                Err(e) => dec_byte(old(self).remaining()) == Err::<(u8, Seq<u8>), Error>(e)
                    && *final(self) == *old(self),
            },
    {
        if self.pos < self.limit {
            let b = self.input[self.pos];
            self.pos = self.pos + 1;
            assert(final(self).remaining() =~= old(self).remaining().skip(1));
            Ok(b)
        } else {
            Err(Error::UnexpectedEnd)
        }
    }

    /// Reads one byte and demands that it equal `code`.
    pub fn expect(&mut self, code: u8, exp: Expected) -> (r: Result<(), Error>)
        requires
            old(self).wf(),
        ensures
            stepped(*old(self), *final(self)),
            match r {
                Ok(()) => dec_expect(code, exp, old(self).remaining()) == Ok::<_, Error>((
                    (),
                    final(self).remaining(),
                )),
                Err(e) => dec_expect(code, exp, old(self).remaining()) == Err::<
                    ((), Seq<u8>),
                    Error,
                >(e),
            },
    {
        let b = self.next()?;
        if b == code {
            Ok(())
        } else {
            Err(Error::InvalidFormatCode(InvalidFormatCode { expected: exp, code: b }))
        }
    }

    /// Reads a raw big-endian `u16`.
    pub fn read_u16(&mut self) -> (r: Result<u16, Error>)
        requires
            old(self).wf(),
        ensures
            stepped(*old(self), *final(self)),
            match r {
                Ok(v) => dec_raw_u16(old(self).remaining()) == Ok::<_, Error>((
                    v,
                    final(self).remaining(),
                )),
                Err(e) => dec_raw_u16(old(self).remaining()) == Err::<(u16, Seq<u8>), Error>(e),
            },
    {
        if self.limit - self.pos < 2 {
            return Err(Error::UnexpectedEnd);
        }
        let b0 = self.input[self.pos];
        let b1 = self.input[self.pos + 1];
        self.pos = self.pos + 2;
        let v = ((b0 as u16) << 8) | (b1 as u16);
        proof {
            let s = old(self).remaining();
            assert(s[0] == b0 && s[1] == b1);
            assert(final(self).remaining() =~= s.skip(2));
        }
        Ok(v)
    }

    /// Reads a raw big-endian `u32`.
    pub fn read_u32(&mut self) -> (r: Result<u32, Error>)
        requires
            old(self).wf(),
        ensures
            stepped(*old(self), *final(self)),
            match r {
                Ok(v) => dec_raw_u32(old(self).remaining()) == Ok::<_, Error>((
                    v,
                    final(self).remaining(),
                )),
                Err(e) => dec_raw_u32(old(self).remaining()) == Err::<(u32, Seq<u8>), Error>(e),
            },
    {
        if self.limit - self.pos < 4 {
            return Err(Error::UnexpectedEnd);
        }
        let b0 = self.input[self.pos];
        let b1 = self.input[self.pos + 1];
        let b2 = self.input[self.pos + 2];
        let b3 = self.input[self.pos + 3];
        self.pos = self.pos + 4;
        let v = ((b0 as u32) << 24) | ((b1 as u32) << 16) | ((b2 as u32) << 8) | (b3 as u32);
        proof {
            let s = old(self).remaining();
            assert(s[0] == b0 && s[1] == b1 && s[2] == b2 && s[3] == b3);
            assert(final(self).remaining() =~= s.skip(4));
        }
        Ok(v)
    }

    /// Reads a raw big-endian `u64`.
    pub fn read_u64(&mut self) -> (r: Result<u64, Error>)
        requires
            old(self).wf(),
        ensures
            stepped(*old(self), *final(self)),
            match r {
                Ok(v) => dec_raw_u64(old(self).remaining()) == Ok::<_, Error>((
                    v,
                    final(self).remaining(),
                )),
                Err(e) => dec_raw_u64(old(self).remaining()) == Err::<(u64, Seq<u8>), Error>(e),
            },
    {
        if self.limit - self.pos < 8 {
            return Err(Error::UnexpectedEnd);
        }
        let b0 = self.input[self.pos];
        let b1 = self.input[self.pos + 1];
        let b2 = self.input[self.pos + 2];
        let b3 = self.input[self.pos + 3];
        let b4 = self.input[self.pos + 4];
        let b5 = self.input[self.pos + 5];
        let b6 = self.input[self.pos + 6];
        let b7 = self.input[self.pos + 7];
        self.pos = self.pos + 8;
        let v = ((b0 as u64) << 56) | ((b1 as u64) << 48) | ((b2 as u64) << 40) | ((b3 as u64)
            << 32) | ((b4 as u64) << 24) | ((b5 as u64) << 16) | ((b6 as u64) << 8) | (b7 as u64);
        proof {
            let s = old(self).remaining();
            assert(s[0] == b0 && s[1] == b1 && s[2] == b2 && s[3] == b3 && s[4] == b4 && s[5] == b5
                && s[6] == b6 && s[7] == b7);
            assert(final(self).remaining() =~= s.skip(8));
        }
        Ok(v)
    }

    /// Copies `n` bytes out of the window.
    pub fn read_bytes(&mut self, n: usize) -> (r: Result<Vec<u8>, Error>)
        requires
            old(self).wf(),
        ensures
            stepped(*old(self), *final(self)),
            match r {
                Ok(v) => old(self).remaining().len() >= n && v@ == old(self).remaining().take(
                    n as int,
                ) && final(self).remaining() == old(self).remaining().skip(n as int),
                Err(e) => old(self).remaining().len() < n && e == Error::UnexpectedEnd,
            },
    {
        if self.limit - self.pos < n {
            return Err(Error::UnexpectedEnd);
        }
        let sl = vstd::slice::slice_subrange(self.input, self.pos, self.pos + n);
        let v = vstd::slice::slice_to_vec(sl);
        self.pos = self.pos + n;
        proof {
            assert(v@ =~= old(self).remaining().take(n as int));
            assert(final(self).remaining() =~= old(self).remaining().skip(n as int));
        }
        Ok(v)
    }

    pub fn peek_constructor(&self) -> (r: Result<u8, Error>)
        requires
            self.wf(),
        ensures
            match r {
                Ok(b) => match self.constructor {
                    Some(c) => b == c,
                    None => self.remaining().len() > 0 && b == self.remaining()[0],
                },
                Err(e) => self.constructor == None::<u8> && self.remaining().len() == 0 && e
                    == Error::UnexpectedEnd,
            },
    {
        match self.constructor {
            Some(c) => Ok(c),
            None => self.peek(),
        }
    }

    /// The next constructor: from the cell if hoisted, else from the stream.
    pub fn next_constructor(&mut self) -> (r: Result<u8, Error>)
        requires
            old(self).wf(),
        ensures
            stepped(*old(self), *final(self)),
            match r {
                Ok(b) => dec_ctor(old(self).constructor, old(self).remaining()) == Ok::<_, Error>(
                    (b, final(self).remaining()),
                ),
                Err(e) => dec_ctor(old(self).constructor, old(self).remaining()) == Err::<
                    (u8, Seq<u8>),
                    Error,
                >(e) && *final(self) == *old(self),
            },
    {
        match self.constructor {
            Some(c) => Ok(c),
            None => self.next(),
        }
    }

    pub fn parse_bool(&mut self) -> (r: Result<bool, Error>)
        requires
            old(self).wf(),
        ensures
            stepped(*old(self), *final(self)),
            match r {
                Ok(v) => dec_bool(old(self).constructor, old(self).remaining()) == Ok::<_, Error>(
                    (v, final(self).remaining()),
                ),
                Err(e) => dec_bool(old(self).constructor, old(self).remaining()) == Err::<
                    (bool, Seq<u8>),
                    Error,
                >(e),
            },
    {
        let t = self.next_constructor()?;
        if t == 0x56 {
            let b = self.next()?;
            if b == 0x01 {
                Ok(true)
            } else if b == 0x00 {
                Ok(false)
            } else {
                Err(Error::InvalidFormatCode(InvalidFormatCode {
                    expected: Expected::Bool,
                    code: b,
                }))
            }
        } else if t == 0x41 {
            Ok(true)
        } else if t == 0x42 {
            Ok(false)
        } else {
            Err(Error::InvalidFormatCode(InvalidFormatCode { expected: Expected::Bool, code: t }))
        }
    }

    pub fn parse_u8(&mut self) -> (r: Result<u8, Error>)
        requires
            old(self).wf(),
        ensures
            stepped(*old(self), *final(self)),
            match r {
                Ok(v) => dec_u8(old(self).remaining()) == Ok::<_, Error>((
                    v,
                    final(self).remaining(),
                )),
                Err(e) => dec_u8(old(self).remaining()) == Err::<(u8, Seq<u8>), Error>(e),
            },
    {
        self.expect(0x50, Expected::U8)?;
        self.next()
    }

    pub fn parse_u16(&mut self) -> (r: Result<u16, Error>)
        requires
            old(self).wf(),
        ensures
            stepped(*old(self), *final(self)),
            match r {
                Ok(v) => dec_u16(old(self).remaining()) == Ok::<_, Error>((
                    v,
                    final(self).remaining(),
                )),
                Err(e) => dec_u16(old(self).remaining()) == Err::<(u16, Seq<u8>), Error>(e),
            },
    {
        self.expect(0x60, Expected::U16)?;
        self.read_u16()
    }

    pub fn parse_u32(&mut self) -> (r: Result<u32, Error>)
        requires
            old(self).wf(),
        ensures
            stepped(*old(self), *final(self)),
            match r {
                Ok(v) => dec_u32(old(self).remaining()) == Ok::<_, Error>((
                    v,
                    final(self).remaining(),
                )),
                Err(e) => dec_u32(old(self).remaining()) == Err::<(u32, Seq<u8>), Error>(e),
            },
    {
        let t = self.next()?;
        if t == 0x43 {
            Ok(0)
        } else if t == 0x52 {
            let b = self.next()?;
            Ok(b as u32)
        } else if t == 0x70 {
            self.read_u32()
        } else {
            Err(Error::InvalidFormatCode(InvalidFormatCode { expected: Expected::U32, code: t }))
        }
    }

    pub fn parse_u64(&mut self) -> (r: Result<u64, Error>)
        requires
            old(self).wf(),
        ensures
            stepped(*old(self), *final(self)),
            match r {
                Ok(v) => dec_u64(old(self).remaining()) == Ok::<_, Error>((
                    v,
                    final(self).remaining(),
                )),
                Err(e) => dec_u64(old(self).remaining()) == Err::<(u64, Seq<u8>), Error>(e),
            },
    {
        let t = self.next()?;
        if t == 0x44 {
            Ok(0)
        } else if t == 0x53 {
            let b = self.next()?;
            Ok(b as u64)
        } else if t == 0x80 {
            self.read_u64()
        } else {
            Err(Error::InvalidFormatCode(InvalidFormatCode { expected: Expected::U64, code: t }))
        }
    }

    pub fn parse_i8(&mut self) -> (r: Result<i8, Error>)
        requires
            old(self).wf(),
        ensures
            stepped(*old(self), *final(self)),
            match r {
                Ok(v) => dec_i8(old(self).remaining()) == Ok::<_, Error>((
                    v,
                    final(self).remaining(),
                )),
                Err(e) => dec_i8(old(self).remaining()) == Err::<(i8, Seq<u8>), Error>(e),
            },
    {
        self.expect(0x51, Expected::I8)?;
        let b = self.next()?;
        Ok(b as i8)
    }

    pub fn parse_i16(&mut self) -> (r: Result<i16, Error>)
        requires
            old(self).wf(),
        ensures
            stepped(*old(self), *final(self)),
            match r {
                Ok(v) => dec_i16(old(self).remaining()) == Ok::<_, Error>((
                    v,
                    final(self).remaining(),
                )),
                Err(e) => dec_i16(old(self).remaining()) == Err::<(i16, Seq<u8>), Error>(e),
            },
    {
        self.expect(0x61, Expected::I16)?;
        let v = self.read_u16()?;
        Ok(v as i16)
    }

    pub fn parse_i32(&mut self) -> (r: Result<i32, Error>)
        requires
            old(self).wf(),
        ensures
            stepped(*old(self), *final(self)),
            match r {
                Ok(v) => dec_i32(old(self).remaining()) == Ok::<_, Error>((
                    v,
                    final(self).remaining(),
                )),
                Err(e) => dec_i32(old(self).remaining()) == Err::<(i32, Seq<u8>), Error>(e),
            },
    {
        let t = self.next()?;
        if t == 0x54 {
            let b = self.next()?;
            Ok(b as i32)
        } else if t == 0x71 {
            let v = self.read_u32()?;
            Ok(v as i32)
        } else {
            Err(Error::InvalidFormatCode(InvalidFormatCode { expected: Expected::I32, code: t }))
        }
    }

    pub fn parse_i64(&mut self) -> (r: Result<i64, Error>)
        requires
            old(self).wf(),
        ensures
            stepped(*old(self), *final(self)),
            match r {
                Ok(v) => dec_i64(old(self).remaining()) == Ok::<_, Error>((
                    v,
                    final(self).remaining(),
                )),
                Err(e) => dec_i64(old(self).remaining()) == Err::<(i64, Seq<u8>), Error>(e),
            },
    {
        let t = self.next()?;
        if t == 0x55 {
            let b = self.next()?;
            Ok(b as i64)
        } else if t == 0x81 || t == 0x83 {
            let v = self.read_u64()?;
            Ok(v as i64)
        } else {
            Err(Error::InvalidFormatCode(InvalidFormatCode { expected: Expected::I64, code: t }))
        }
    }

    /// Shared reader for the variable-width classes.
    fn parse_var(&mut self, small1: u8, small2: u8, large1: u8, large2: u8, exp: Expected) -> (r:
        Result<Vec<u8>, Error>)
        requires
            old(self).wf(),
        ensures
            stepped(*old(self), *final(self)),
            match r {
                Ok(v) => dec_var(
                    old(self).constructor,
                    small1,
                    small2,
                    large1,
                    large2,
                    exp,
                    old(self).remaining(),
                ) == Ok::<_, Error>((v@, final(self).remaining())),
                Err(e) => dec_var(
                    old(self).constructor,
                    small1,
                    small2,
                    large1,
                    large2,
                    exp,
                    old(self).remaining(),
                ) == Err::<(Seq<u8>, Seq<u8>), Error>(e),
            },
    {
        let t = self.next_constructor()?;
        if t == small1 || t == small2 {
            let n = self.next()?;
            self.read_bytes(n as usize)
        } else if t == large1 || t == large2 {
            let n = self.read_u32()?;
            self.read_bytes(n as usize)
        } else {
            Err(Error::InvalidFormatCode(InvalidFormatCode { expected: exp, code: t }))
        }
    }

    pub fn parse_str(&mut self) -> (r: Result<Vec<u8>, Error>)
        requires
            old(self).wf(),
        ensures
            stepped(*old(self), *final(self)),
            match r {
                Ok(v) => dec_str(old(self).constructor, old(self).remaining()) == Ok::<_, Error>((
                    v@,
                    final(self).remaining(),
                )),
                Err(e) => dec_str(old(self).constructor, old(self).remaining()) == Err::<
                    (Seq<u8>, Seq<u8>),
                    Error,
                >(e),
            },
    {
        self.parse_var(0xa1, 0xa3, 0xb1, 0xb3, Expected::Str)
    }

    pub fn parse_bytes(&mut self) -> (r: Result<Vec<u8>, Error>)
        requires
            old(self).wf(),
        ensures
            stepped(*old(self), *final(self)),
            match r {
                Ok(v) => dec_bin(old(self).constructor, old(self).remaining()) == Ok::<_, Error>((
                    v@,
                    final(self).remaining(),
                )),
                Err(e) => dec_bin(old(self).constructor, old(self).remaining()) == Err::<
                    (Seq<u8>, Seq<u8>),
                    Error,
                >(e),
            },
    {
        self.parse_var(0xa0, 0xa3, 0xb0, 0xb3, Expected::Bytes)
    }

    pub fn parse_descriptor(&mut self) -> (r: Result<Descriptor, Error>)
        requires
            old(self).wf(),
        ensures
            stepped(*old(self), *final(self)),
            match r {
                Ok(d) => dec_descriptor(old(self).constructor, old(self).remaining()) == Ok::<
                    _,
                    Error,
                >((d@, final(self).remaining())),
                Err(e) => dec_descriptor(old(self).constructor, old(self).remaining()) == Err::<
                    (DescriptorV, Seq<u8>),
                    Error,
                >(e),
            },
    {
        self.expect(0x00, Expected::Descriptor)?;
        let f = self.peek()?;
        if f == 0x44 || f == 0x53 || f == 0x80 {
            let v = self.parse_u64()?;
            Ok(Descriptor::Numeric(v))
        } else if f == 0xa3 || f == 0xb3 {
            let v = self.parse_bytes()?;
            Ok(Descriptor::Symbol(v))
        } else {
            Err(Error::InvalidFormatCode(InvalidFormatCode {
                expected: Expected::Descriptor,
                code: f,
            }))
        }
    }

    /// Reads a compound header: `(payload size, count, hoisted constructor)`.
    pub fn composite(&mut self) -> (r: Result<(u32, u32, Option<u8>), Error>)
        requires
            old(self).wf(),
        ensures
            stepped(*old(self), *final(self)),
            match r {
                Ok(v) => dec_compound(old(self).remaining()) == Ok::<_, Error>((
                    v,
                    final(self).remaining(),
                )),
                Err(e) => dec_compound(old(self).remaining()) == Err::<
                    ((u32, u32, Option<u8>), Seq<u8>),
                    Error,
                >(e),
            },
    {
        let t = self.next()?;
        if t == 0x45 {
            Ok((0, 0, None))
        } else if t == 0xc0 || t == 0xc1 {
            let size = self.next()?;
            let count = self.next()?;
            if size < 1 {
                Err(Error::InvalidData)
            } else {
                Ok(((size - 1) as u32, count as u32, None))
            }
        } else if t == 0xd0 || t == 0xd1 {
            let size = self.read_u32()?;
            let count = self.read_u32()?;
            if size < 4 {
                Err(Error::InvalidData)
            } else {
                Ok((size - 4, count, None))
            }
        } else if t == 0xe0 {
            let size = self.next()?;
            let count = self.next()?;
            let ctor = self.next()?;
            if size < 2 {
                Err(Error::InvalidData)
            } else {
                Ok(((size - 2) as u32, count as u32, Some(ctor)))
            }
        } else if t == 0xf0 {
            let size = self.read_u32()?;
            let count = self.read_u32()?;
            let ctor = self.read_u32()?;
            if size < 8 || ctor > 255 {
                Err(Error::InvalidData)
            } else {
                Ok((size - 8, count, Some(ctor as u8)))
            }
        } else {
            Err(Error::InvalidFormatCode(InvalidFormatCode {
                expected: Expected::Compound,
                code: t,
            }))
        }
    }

    pub fn parse_opt_bool(&mut self) -> (r: Result<Option<bool>, Error>)
        requires
            old(self).wf(),
        ensures
            stepped(*old(self), *final(self)),
            match r {
                Ok(v) => dec_opt_bool(old(self).constructor, old(self).remaining()) == Ok::<
                    _,
                    Error,
                >((v, final(self).remaining())),
                Err(e) => dec_opt_bool(old(self).constructor, old(self).remaining()) == Err::<
                    (Option<bool>, Seq<u8>),
                    Error,
                >(e),
            },
    {
        if self.at_end() {
            return Ok(None);
        }
        let b = self.peek()?;
        if b == 0x40 {
            let _ = self.next()?;
            return Ok(None);
        }
        match self.parse_bool() {
            Ok(v) => Ok(Some(v)),
            Err(e) => Err(e),
        }
    }

    pub fn parse_opt_u8(&mut self) -> (r: Result<Option<u8>, Error>)
        requires
            old(self).wf(),
        ensures
            stepped(*old(self), *final(self)),
            match r {
                Ok(v) => dec_opt_u8(old(self).remaining()) == Ok::<_, Error>((
                    v,
                    final(self).remaining(),
                )),
                Err(e) => dec_opt_u8(old(self).remaining()) == Err::<
                    (Option<u8>, Seq<u8>),
                    Error,
                >(e),
            },
    {
        if self.at_end() {
            return Ok(None);
        }
        let b = self.peek()?;
        if b == 0x40 {
            let _ = self.next()?;
            return Ok(None);
        }
        match self.parse_u8() {
            Ok(v) => Ok(Some(v)),
            Err(e) => Err(e),
        }
    }

    pub fn parse_opt_u16(&mut self) -> (r: Result<Option<u16>, Error>)
        requires
            old(self).wf(),
        ensures
            stepped(*old(self), *final(self)),
            match r {
                Ok(v) => dec_opt_u16(old(self).remaining()) == Ok::<_, Error>((
                    v,
                    final(self).remaining(),
                )),
                Err(e) => dec_opt_u16(old(self).remaining()) == Err::<
                    (Option<u16>, Seq<u8>),
                    Error,
                >(e),
            },
    {
        if self.at_end() {
            return Ok(None);
        }
        let b = self.peek()?;
        if b == 0x40 {
            let _ = self.next()?;
            return Ok(None);
        }
        match self.parse_u16() {
            Ok(v) => Ok(Some(v)),
            Err(e) => Err(e),
        }
    }

    pub fn parse_opt_u32(&mut self) -> (r: Result<Option<u32>, Error>)
        requires
            old(self).wf(),
        ensures
            stepped(*old(self), *final(self)),
            match r {
                Ok(v) => dec_opt_u32(old(self).remaining()) == Ok::<_, Error>((
                    v,
                    final(self).remaining(),
                )),
                Err(e) => dec_opt_u32(old(self).remaining()) == Err::<
                    (Option<u32>, Seq<u8>),
                    Error,
                >(e),
            },
    {
        if self.at_end() {
            return Ok(None);
        }
        let b = self.peek()?;
        if b == 0x40 {
            let _ = self.next()?;
            return Ok(None);
        }
        match self.parse_u32() {
            Ok(v) => Ok(Some(v)),
            Err(e) => Err(e),
        }
    }

    pub fn parse_opt_u64(&mut self) -> (r: Result<Option<u64>, Error>)
        requires
            old(self).wf(),
        ensures
            stepped(*old(self), *final(self)),
            match r {
                Ok(v) => dec_opt_u64(old(self).remaining()) == Ok::<_, Error>((
                    v,
                    final(self).remaining(),
                )),
                Err(e) => dec_opt_u64(old(self).remaining()) == Err::<
                    (Option<u64>, Seq<u8>),
                    Error,
                >(e),
            },
    {
        if self.at_end() {
            return Ok(None);
        }
        let b = self.peek()?;
        if b == 0x40 {
            let _ = self.next()?;
            return Ok(None);
        }
        match self.parse_u64() {
            Ok(v) => Ok(Some(v)),
            Err(e) => Err(e),
        }
    }

    pub fn parse_opt_i64(&mut self) -> (r: Result<Option<i64>, Error>)
        requires
            old(self).wf(),
        ensures
            stepped(*old(self), *final(self)),
            match r {
                Ok(v) => dec_opt_i64(old(self).remaining()) == Ok::<_, Error>((
                    v,
                    final(self).remaining(),
                )),
                Err(e) => dec_opt_i64(old(self).remaining()) == Err::<
                    (Option<i64>, Seq<u8>),
                    Error,
                >(e),
            },
    {
        if self.at_end() {
            return Ok(None);
        }
        let b = self.peek()?;
        if b == 0x40 {
            let _ = self.next()?;
            return Ok(None);
        }
        match self.parse_i64() {
            Ok(v) => Ok(Some(v)),
            Err(e) => Err(e),
        }
    }

    pub fn parse_opt_str(&mut self) -> (r: Result<Option<Vec<u8>>, Error>)
        requires
            old(self).wf(),
        ensures
            stepped(*old(self), *final(self)),
            match r {
                Ok(v) => dec_opt_str(old(self).constructor, old(self).remaining()) == Ok::<
                    _,
                    Error,
                >((crate::ser::view_opt_bytes(v), final(self).remaining())),
                Err(e) => dec_opt_str(old(self).constructor, old(self).remaining()) == Err::<
                    (Option<Seq<u8>>, Seq<u8>),
                    Error,
                >(e),
            },
    {
        proof {
            reveal(dec_opt_str);
        }
        if self.at_end() {
            return Ok(None);
        }
        let b = self.peek()?;
        if b == 0x40 {
            let _ = self.next()?;
            return Ok(None);
        }
        match self.parse_str() {
            Ok(v) => Ok(Some(v)),
            Err(e) => Err(e),
        }
    }

    pub fn parse_opt_bytes(&mut self) -> (r: Result<Option<Vec<u8>>, Error>)
        requires
            old(self).wf(),
        ensures
            stepped(*old(self), *final(self)),
            match r {
                Ok(v) => dec_opt_bin(old(self).constructor, old(self).remaining()) == Ok::<
                    _,
                    Error,
                >((crate::ser::view_opt_bytes(v), final(self).remaining())),
                Err(e) => dec_opt_bin(old(self).constructor, old(self).remaining()) == Err::<
                    (Option<Seq<u8>>, Seq<u8>),
                    Error,
                >(e),
            },
    {
        proof {
            reveal(dec_opt_bin);
        }
        if self.at_end() {
            return Ok(None);
        }
        let b = self.peek()?;
        if b == 0x40 {
            let _ = self.next()?;
            return Ok(None);
        }
        match self.parse_bytes() {
            Ok(v) => Ok(Some(v)),
            Err(e) => Err(e),
        }
    }

    /// Strips a redundant outer descriptor when one stands ahead of a
    /// compound.
    pub fn skip_redundant_descriptor(&mut self) -> (r: Result<(), Error>)
        requires
            old(self).wf(),
        ensures
            stepped(*old(self), *final(self)),
            match r {
                Ok(()) => dec_maybe_desc(old(self).constructor, old(self).remaining()) == Ok::<
                    Seq<u8>,
                    Error,
                >(final(self).remaining()),
                Err(e) => dec_maybe_desc(old(self).constructor, old(self).remaining()) == Err::<
                    Seq<u8>,
                    Error,
                >(e),
            },
    {
        let b = self.peek()?;
        if b == 0x00 {
            let _ = self.parse_descriptor()?;
        }
        Ok(())
    }

    /// Reads one descriptor and starts a section walk from it.
    pub fn reader(&mut self) -> (r: Result<DescribedReader, Error>)
        requires
            old(self).wf(),
        ensures
            stepped(*old(self), *final(self)),
            match r {
                Ok(rd) => match dec_descriptor(old(self).constructor, old(self).remaining()) {
                    Ok((d, rest)) => rd@ == Some(d) && final(self).remaining() == rest,
                    Err(_) => false,
                },
                Err(e) => dec_descriptor(old(self).constructor, old(self).remaining()) == Err::<
                    (DescriptorV, Seq<u8>),
                    Error,
                >(e),
            },
    {
        let d = self.parse_descriptor()?;
        Ok(DescribedReader::new(d))
    }

    /// Narrows a nested deserializer to the next `size` bytes, with the given
    /// hoisted constructor, and advances this cursor past them.
    pub fn window(&mut self, size: u32, ctor: Option<u8>) -> (r: Result<Deserializer<'a>, Error>)
        requires
            old(self).wf(),
        ensures
            stepped(*old(self), *final(self)),
            match r {
                Ok(w) => old(self).remaining().len() >= size && w.wf()
                    && w.remaining() == old(self).remaining().take(size as int)
                    && w.constructor == ctor
                    && final(self).remaining() == old(self).remaining().skip(size as int),
                Err(e) => old(self).remaining().len() < size && e == Error::UnexpectedEnd
                    && *final(self) == *old(self),
            },
    {
        if self.limit - self.pos < size as usize {
            return Err(Error::UnexpectedEnd);
        }
        let w = Deserializer {
            input: self.input,
            pos: self.pos,
            limit: self.pos + size as usize,
            constructor: ctor,
        };
        self.pos = self.pos + size as usize;
        proof {
            assert(w.remaining() =~= old(self).remaining().take(size as int));
            assert(final(self).remaining() =~= old(self).remaining().skip(size as int));
        }
        Ok(w)
    }
}

/// Walks the described sections of a message body: holds the descriptor most
/// recently read ahead of its value.
pub struct DescribedReader {
    pub descriptor: Option<Descriptor>,
}

impl View for DescribedReader {
    type V = Option<DescriptorV>;

    open spec fn view(&self) -> Option<DescriptorV> {
        match &self.descriptor {
            Some(d) => Some(d@),
            None => None,
        }
    }
}

impl DescribedReader {
    pub fn new(descriptor: Descriptor) -> (r: DescribedReader)
        ensures
            r@ == Some(descriptor@),
    {
        DescribedReader { descriptor: Some(descriptor) }
    }

    /// Pre-reads the next section's descriptor, or keeps the current one when
    /// the input is exhausted.
    pub fn next(&mut self, deserializer: &mut Deserializer) -> (r: Result<(), Error>)
        requires
            old(deserializer).wf(),
        ensures
            stepped(*old(deserializer), *final(deserializer)),
            match r {
                Ok(()) => if old(deserializer).remaining().len() == 0 {
                    *final(self) == *old(self) && *final(deserializer) == *old(deserializer)
                } else {
                    match dec_descriptor(
                        old(deserializer).constructor,
                        old(deserializer).remaining(),
                    ) {
                        Ok((d, rest)) => final(self)@ == Some(d) && final(deserializer).remaining()
                            == rest,
                        Err(_) => false,
                    }
                },
                Err(e) => old(deserializer).remaining().len() > 0 && dec_descriptor(
                    old(deserializer).constructor,
                    old(deserializer).remaining(),
                ) == Err::<(DescriptorV, Seq<u8>), Error>(e),
            },
    {
        if !deserializer.at_end() {
            let d = deserializer.parse_descriptor()?;
            self.descriptor = Some(d);
        }
        Ok(())
    }

    /// Whether the pre-read descriptor names the given numeric code.
    pub fn matches_code(&self, code: u64) -> (r: bool)
        ensures
            r <==> self@ == Some(DescriptorV::Numeric(code)),
    {
        match &self.descriptor {
            Some(Descriptor::Numeric(v)) => *v == code,
            _ => false,
        }
    }

    /// Whether the pre-read descriptor names the given symbolic name.
    pub fn matches_name(&self, name: &[u8]) -> (r: bool)
        ensures
            r <==> self@ == Some(DescriptorV::Symbol(name@)),
    {
        match &self.descriptor {
            Some(Descriptor::Symbol(v)) => crate::wire::bytes_eq(v.as_slice(), name),
            _ => false,
        }
    }
}

} // verus!
