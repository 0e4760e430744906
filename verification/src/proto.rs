//! Stream framing: length-prefixed frames with mid-stream protocol header
//! switching. The decoder recognises bare 8-byte protocol headers anywhere in
//! the stream by peeking for the `AMQP` magic before attempting a length
//! read.
use vstd::prelude::*;

use crate::amqp;
use crate::sasl;
use crate::de::{dec_raw_u16, Deserializer};
use crate::ser::Serializer;
use crate::wire::{be16, be32, push_all, push_be16, push_be32, sq_be32};
use crate::Error;

verus! {

/// The protocol dialect announced by an 8-byte header.
#[derive(Clone, Copy, Debug, PartialEq, Eq, Structural)]
pub enum Protocol {
    Sasl,
    Amqp,
}

/// The bytes `AMQP`.
pub open spec fn amqp_magic() -> Seq<u8> {
    seq![0x41u8, 0x4du8, 0x51u8, 0x50u8]
}

/// The 8-byte SASL protocol header `AMQP\x03\x01\x00\x00`.
pub open spec fn sasl_proto_header() -> Seq<u8> {
    seq![0x41u8, 0x4du8, 0x51u8, 0x50u8, 0x03u8, 0x01u8, 0x00u8, 0x00u8]
}

/// The 8-byte AMQP protocol header `AMQP\x00\x01\x00\x00`.
pub open spec fn amqp_proto_header() -> Seq<u8> {
    seq![0x41u8, 0x4du8, 0x51u8, 0x50u8, 0x00u8, 0x01u8, 0x00u8, 0x00u8]
}

pub open spec fn protocol_header(p: Protocol) -> Seq<u8> {
    match p {
        Protocol::Sasl => sasl_proto_header(),
        Protocol::Amqp => amqp_proto_header(),
    }
}

/// Reads a protocol header: exactly one of the two 8-byte sequences.
pub open spec fn dec_protocol(s: Seq<u8>) -> Result<Protocol, Error> {
    if s == sasl_proto_header() {
        Ok(Protocol::Sasl)
    } else if s == amqp_proto_header() {
        Ok(Protocol::Amqp)
    } else {
        Err(Error::InvalidData)
    }
}

impl Protocol {
    /// The 8 bytes this dialect announces itself with.
    pub fn header(&self) -> (r: [u8; 8])
        ensures
            r@ == protocol_header(*self),
    {
        match self {
            Protocol::Sasl => {
                let r: [u8; 8] = [0x41, 0x4d, 0x51, 0x50, 0x03, 0x01, 0x00, 0x00];
                proof {
                    assert(r@ =~= sasl_proto_header());
                }
                r
            },
            Protocol::Amqp => {
                let r: [u8; 8] = [0x41, 0x4d, 0x51, 0x50, 0x00, 0x01, 0x00, 0x00];
                proof {
                    assert(r@ =~= amqp_proto_header());
                }
                r
            },
        }
    }

    pub fn from_bytes(bytes: &[u8]) -> (r: Result<Protocol, Error>)
        ensures
            r == dec_protocol(bytes@),
    {
        let s = self_header_eq(bytes, true);
        if s {
            proof {
                assert(bytes@ =~= sasl_proto_header());
            }
            return Ok(Protocol::Sasl);
        }
        let a = self_header_eq(bytes, false);
        if a {
            proof {
                assert(bytes@ =~= amqp_proto_header());
            }
            return Ok(Protocol::Amqp);
        }
        proof {
            assert(bytes@ != sasl_proto_header() && bytes@ != amqp_proto_header());
        }
        Err(Error::InvalidData)
    }
}

/// Byte-for-byte comparison against one of the two protocol headers.
fn self_header_eq(bytes: &[u8], sasl_hdr: bool) -> (r: bool)
    ensures
        r <==> bytes@ == (if sasl_hdr {
            sasl_proto_header()
        } else {
            amqp_proto_header()
        }),
{
    let p = if sasl_hdr {
        Protocol::Sasl
    } else {
        Protocol::Amqp
    };
    let h = p.header();
    crate::wire::bytes_eq(bytes, h.as_slice())
}

/// A frame on the wire: a length-prefixed AMQP or SASL frame, or a bare
/// 8-byte protocol header.
#[derive(Clone, Debug, PartialEq, Eq)]
pub enum Frame {
    Amqp(amqp::Frame),
    Header(Protocol),
    Sasl(sasl::Frame),
}

pub enum FrameV {
    Amqp(amqp::FrameV),
    Header(Protocol),
    Sasl(sasl::FrameV),
}

impl View for Frame {
    type V = FrameV;

    open spec fn view(&self) -> FrameV {
        match self {
            Frame::Amqp(x) => FrameV::Amqp(x@),
            Frame::Header(p) => FrameV::Header(*p),
            Frame::Sasl(x) => FrameV::Sasl(x@),
        }
    }
}

/// The full encoding of a frame. Non-header frames open with the big-endian
/// total length, then data-offset 2, the type byte, and the channel (AMQP)
/// or two zero bytes (SASL); the extended header is never emitted.
pub open spec fn enc_frame(v: FrameV) -> Seq<u8> {
    match v {
        FrameV::Header(p) => protocol_header(p),
        FrameV::Amqp(f) => {
            let body = amqp::enc_performative(f.performative) + (match f.message {
                Some(m) => amqp::enc_message(m),
                None => Seq::empty(),
            });
            be32((8 + body.len()) as u32) + seq![0x02u8, 0x00u8] + be16(f.channel) + body
        },
        FrameV::Sasl(f) => {
            let body = sasl::enc_sasl_frame(f);
            be32((8 + body.len()) as u32) + seq![0x02u8, 0x01u8, 0x00u8, 0x00u8] + body
        },
    }
}

pub open spec fn enc_frame_ok(v: FrameV) -> bool {
    match v {
        FrameV::Header(_) => true,
        FrameV::Amqp(f) => amqp::enc_performative_ok(f.performative) && (match f.message {
            Some(m) => amqp::enc_message_ok(m),
            None => true,
        }) && enc_frame(v).len() <= 0xFFFF_FFFF,
        FrameV::Sasl(f) => sasl::enc_sasl_frame_ok(f) && enc_frame(v).len() <= 0xFFFF_FFFF,
    }
}

/// Parses one frame from a buffer whose length prefix has been stripped; an
/// 8-byte buffer opening with the magic is a protocol header.
pub open spec fn dec_frame(s: Seq<u8>) -> Result<FrameV, Error> {
    if s.len() >= 4 && s.take(4) == amqp_magic() {
        match dec_protocol(s) {
            Err(e) => Err(e),
            Ok(p) => Ok(FrameV::Header(p)),
        }
    } else if s.len() < 2 {
        Err(Error::UnexpectedEnd)
    } else {
        let doff = s[0];
        let ty = s[1];
        if doff < 2 {
            Err(Error::InvalidData)
        } else if ty == 0x00 {
            match amqp::dec_amqp_frame(doff, s.skip(2)) {
                Err(e) => Err(e),
                Ok(f) => Ok(FrameV::Amqp(f)),
            }
        } else if ty == 0x01 {
            if s.len() < 4 || s[2] != 0x00 || s[3] != 0x00 {
                Err(Error::InvalidData)
            } else {
                match sasl::dec_sasl_frame(s.skip(4)) {
                    Err(e) => Err(e),
                    Ok((f, rest)) => if rest.len() > 0 {
                        Err(Error::TrailingCharacters)
                    } else {
                        Ok(FrameV::Sasl(f))
                    },
                }
            }
        } else {
            Err(Error::InvalidData)
        }
    }
}

impl Frame {
    /// Parses one frame from a buffer whose length prefix has been stripped.
    pub fn decode(buf: &[u8]) -> (r: Result<Frame, Error>)
        ensures
            match r {
                Ok(v) => dec_frame(buf@) == Ok::<FrameV, Error>(v@),
                Err(e) => dec_frame(buf@) == Err::<FrameV, Error>(e),
            },
    {
        if buf.len() >= 4 && buf[0] == 0x41 && buf[1] == 0x4d && buf[2] == 0x51 && buf[3] == 0x50 {
            proof {
                assert(buf@.take(4) =~= amqp_magic());
            }
            let p = Protocol::from_bytes(buf)?;
            return Ok(Frame::Header(p));
        }
        proof {
            if buf@.len() >= 4 {
                assert(buf@.take(4)[0] == buf@[0] && buf@.take(4)[1] == buf@[1] && buf@.take(4)[2]
                    == buf@[2] && buf@.take(4)[3] == buf@[3]);
                assert(amqp_magic()[0] == 0x41 && amqp_magic()[1] == 0x4d && amqp_magic()[2]
                    == 0x51 && amqp_magic()[3] == 0x50);
            }
        }
        if buf.len() < 2 {
            return Err(Error::UnexpectedEnd);
        }
        let doff = buf[0];
        let ty = buf[1];
        if doff < 2 {
            return Err(Error::InvalidData);
        }
        if ty == 0x00 {
            let rest = vstd::slice::slice_subrange(buf, 2, buf.len());
            proof {
                assert(rest@ =~= buf@.skip(2));
            }
            let f = amqp::Frame::decode(doff, rest)?;
            Ok(Frame::Amqp(f))
        } else if ty == 0x01 {
            if buf.len() < 4 {
                return Err(Error::InvalidData);
            }
            if !(buf[2] == 0x00 && buf[3] == 0x00) {
                return Err(Error::InvalidData);
            }
            let rest = vstd::slice::slice_subrange(buf, 4, buf.len());
            proof {
                assert(rest@ =~= buf@.skip(4));
            }
            let mut d = Deserializer::from_bytes(rest);
            let f = sasl::Frame::decode(&mut d)?;
            if !d.at_end() {
                return Err(Error::TrailingCharacters);
            }
            Ok(Frame::Sasl(f))
        } else {
            Err(Error::InvalidData)
        }
    }

    /// Serializes the frame, length prefix included.
    pub fn to_vec(&self) -> (r: Result<Vec<u8>, Error>)
        ensures
            match r {
                Ok(v) => enc_frame_ok(self@) && v@ == enc_frame(self@),
                Err(e) => !enc_frame_ok(self@) && e == Error::InvalidData,
            },
    {
        match self {
            Frame::Header(p) => {
                let h = p.header();
                let v = vstd::slice::slice_to_vec(h.as_slice());
                Ok(v)
            },
            Frame::Amqp(f) => {
                let mut body = Serializer::new();
                f.encode_body(&mut body)?;
                if body.output.len() > 0xFFFF_FFF7usize {
                    return Err(Error::InvalidData);
                }
                let mut out: Vec<u8> = Vec::new();
                push_be32(&mut out, (body.output.len() as u32) + 8);
                out.push(0x02);
                out.push(0x00);
                push_be16(&mut out, f.channel);
                push_all(&mut out, body.output.as_slice());
                proof {
                    assert(out@ =~= enc_frame(self@));
                }
                Ok(out)
            },
            Frame::Sasl(f) => {
                let mut body = Serializer::new();
                f.encode(&mut body)?;
                if body.output.len() > 0xFFFF_FFF7usize {
                    return Err(Error::InvalidData);
                }
                let mut out: Vec<u8> = Vec::new();
                push_be32(&mut out, (body.output.len() as u32) + 8);
                out.push(0x02);
                out.push(0x01);
                out.push(0x00);
                out.push(0x00);
                push_all(&mut out, body.output.as_slice());
                proof {
                    assert(out@ =~= enc_frame(self@));
                }
                Ok(out)
            },
        }
    }
}

/// What one step of the stream decoder does to a buffer: either a frame and
/// the exact byte count it consumed, or a request for more bytes, or a
/// framing error.
pub open spec fn dec_stream(s: Seq<u8>) -> Result<Option<(FrameV, int)>, Error> {
    if s.len() < 4 {
        Ok(None)
    } else if s.take(4) == amqp_magic() && s.len() >= 8 {
        match dec_frame(s.take(8)) {
            Err(e) => Err(e),
            Ok(f) => Ok(Some((f, 8))),
        }
    } else {
        let n = sq_be32(s) as int;
        if s.len() < n {
            Ok(None)
        } else if n < 4 {
            Err(Error::InvalidData)
        } else {
            match dec_frame(s.take(n).skip(4)) {
                Err(e) => Err(e),
                Ok(f) => Ok(Some((f, n))),
            }
        }
    }
}

/// The duplex transformer over a raw byte stream: bytes in, frames out.
pub struct Codec;

impl Codec {
    /// Takes one frame off the front of `src` when a whole one is buffered;
    /// after a successful decode the buffer has advanced by exactly the
    /// frame's length.
    pub fn decode(&self, src: &mut Vec<u8>) -> (r: Result<Option<Frame>, Error>)
        ensures
            match r {
                Ok(Some(f)) => exists|n: int|
                    dec_stream(old(src)@) == Ok::<Option<(FrameV, int)>, Error>(
                        Some((f@, n)),
                    ) && final(src)@ == old(src)@.skip(n),
                Ok(None) => dec_stream(old(src)@) == Ok::<Option<(FrameV, int)>, Error>(None)
                    && *final(src) == *old(src),
                Err(e) => dec_stream(old(src)@) == Err::<Option<(FrameV, int)>, Error>(e),
            },
    {
        if src.len() < 4 {
            return Ok(None);
        }
        let is_magic = src[0] == 0x41 && src[1] == 0x4d && src[2] == 0x51 && src[3] == 0x50;
        proof {
            assert(old(src)@.take(4)[0] == old(src)@[0] && old(src)@.take(4)[1] == old(src)@[1]
                && old(src)@.take(4)[2] == old(src)@[2] && old(src)@.take(4)[3] == old(src)@[3]);
            assert(amqp_magic()[0] == 0x41 && amqp_magic()[1] == 0x4d && amqp_magic()[2] == 0x51
                && amqp_magic()[3] == 0x50);
            if is_magic {
                assert(old(src)@.take(4) =~= amqp_magic());
            }
        }
        if is_magic && src.len() >= 8 {
            let head = vstd::slice::slice_subrange(src.as_slice(), 0, 8);
            proof {
                assert(head@ =~= old(src)@.take(8));
            }
            let f = Frame::decode(head)?;
            drop_front(src, 8);
            return Ok(Some(f));
        }
        let b0 = src[0];
        let b1 = src[1];
        let b2 = src[2];
        let b3 = src[3];
        let n32 = ((b0 as u32) << 24) | ((b1 as u32) << 16) | ((b2 as u32) << 8) | (b3 as u32);
        let n = n32 as usize;
        proof {
            assert(n32 == sq_be32(old(src)@));
        }
        if src.len() < n {
            return Ok(None);
        }
        if n < 4 {
            return Err(Error::InvalidData);
        }
        let window = vstd::slice::slice_subrange(src.as_slice(), 4, n);
        proof {
            assert(window@ =~= old(src)@.take(n as int).skip(4));
        }
        let f = Frame::decode(window)?;
        drop_front(src, n);
        Ok(Some(f))
    }

    /// Serializes a frame onto the tail of the output buffer.
    pub fn encode(&self, item: &Frame, dst: &mut Vec<u8>) -> (r: Result<(), Error>)
        ensures
            match r {
                Ok(()) => enc_frame_ok(item@) && final(dst)@ == old(dst)@ + enc_frame(item@),
                Err(e) => !enc_frame_ok(item@) && e == Error::InvalidData && *final(dst) == *old(
                    dst,
                ),
            },
    {
        let buf = item.to_vec()?;
        push_all(dst, buf.as_slice());
        Ok(())
    }
}

/// Removes the first `n` bytes of a buffer.
fn drop_front(v: &mut Vec<u8>, n: usize)
    requires
        n <= old(v)@.len(),
    ensures
        final(v)@ == old(v)@.skip(n as int),
{
    let mut rest = v.split_off(n);
    v.clear();
    v.append(&mut rest);
    proof {
        assert(v@ =~= old(v)@.skip(n as int));
    }
}

} // verus!
