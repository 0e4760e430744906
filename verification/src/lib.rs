//! A client-side speaker of the AMQP 1.0 wire protocol carrying the Corda RPC
//! message envelope.
//!
//! The crate is organised leaves first: `wire` holds byte-order helpers,
//! `ser` and `de` the primitive codec for AMQP 1.0's self-describing type
//! system, `amqp` and `sasl` the wire type model (performatives, message
//! sections, SASL frames), `proto` the length-prefixed stream framing,
//! `driver` the connection-lifecycle state machine, `types` and
//! `network_map_snapshot` the Corda envelope and the typed RPC surface, and
//! `client` the builders for a full RPC exchange.
//!
//! Every encoder's contract gives the exact byte sequence produced, every
//! decoder's contract equates the result with a specification-level parser
//! over the input bytes, and `laws` proves the round-trip statements that
//! relate the two.
use vstd::prelude::*;

pub mod amqp;
pub mod client;
pub mod de;
pub mod driver;
pub mod laws;
pub mod network_map_snapshot;
pub mod proto;
pub mod sasl;
pub mod ser;
pub mod types;
pub mod wire;

verus! {

/// The primitive class a decoder expected when it met a format code outside
/// the allowed set.
#[derive(Clone, Copy, Debug, PartialEq, Eq, Structural)]
pub enum Expected {
    Bool,
    U8,
    U16,
    U32,
    U64,
    I8,
    I16,
    I32,
    I64,
    Str,
    Bytes,
    Descriptor,
    Compound,
    Any,
    VariantId,
    Null,
}

/// A primitive decode expected one of a set of format codes and got none of
/// them; carries the class that was expected and the code that was read.
#[derive(Clone, Copy, Debug, PartialEq, Eq, Structural)]
pub struct InvalidFormatCode {
    pub expected: Expected,
    pub code: u8,
}

impl InvalidFormatCode {
    pub fn new(expected: Expected, code: u8) -> (r: InvalidFormatCode)
        ensures
            r == (InvalidFormatCode { expected, code }),
    {
        InvalidFormatCode { expected, code }
    }
}

/// The error taxonomy of the codec stack.
///
/// `InvalidData` covers a field value or length inconsistent with the wire
/// format, `InvalidFormatCode` an unexpected format code, `UnexpectedEnd` an
/// input that stopped mid-value, `TrailingCharacters` bytes left over after a
/// decode that should have consumed its whole input, `Io` a failed stream
/// (never produced by this crate's own code; the unverified shell maps stream
/// failures to it), and `PeerError` an Error composite surfaced by the broker.
#[derive(Clone, Debug, PartialEq, Eq)]
pub enum Error {
    InvalidData,
    InvalidFormatCode(InvalidFormatCode),
    UnexpectedEnd,
    TrailingCharacters,
    Io,
    PeerError { condition: Vec<u8>, description: Vec<u8> },
}

pub open spec fn ifc(expected: Expected, code: u8) -> Error {
    Error::InvalidFormatCode(InvalidFormatCode { expected, code })
}

/// A type with an exact wire codec: `enc` gives the bytes its encoder
/// appends, `enc_ok` when encoding can succeed, and `dec` the
/// specification-level parser its decoder implements. Lists and maps of such
/// types share one generic codec.
pub trait Codec: Sized + View {
    spec fn enc(v: Self::V) -> Seq<u8>;

    spec fn enc_ok(v: Self::V) -> bool;

    spec fn dec(c: Option<u8>, s: Seq<u8>) -> Result<(Self::V, Seq<u8>), Error>;

    fn encode(&self, s: &mut crate::ser::Serializer) -> (r: Result<(), Error>)
        ensures
            match r {
                Ok(()) => Self::enc_ok(self@) && final(s).bytes() == old(s).bytes() + Self::enc(
                    self@,
                ),
                Err(e) => !Self::enc_ok(self@) && e == Error::InvalidData && *final(s) == *old(s),
            },
    ;

    fn decode<'x>(d: &mut crate::de::Deserializer<'x>) -> (r: Result<Self, Error>)
        requires
            old(d).wf(),
        ensures
            crate::de::stepped(*old(d), *final(d)),
            match r {
                Ok(v) => Self::dec(old(d).constructor, old(d).remaining()) == Ok::<_, Error>((
                    v@,
                    final(d).remaining(),
                )),
                Err(e) => Self::dec(old(d).constructor, old(d).remaining()) == Err::<
                    (Self::V, Seq<u8>),
                    Error,
                >(e),
            },
    ;
}

/// A described composite: a `Codec` whose encoding opens with a descriptor,
/// keyed by a numeric code, a symbolic name, or both.
pub trait Described: Codec {
    spec fn descriptor_code() -> Option<u64>;

    spec fn descriptor_name() -> Option<Seq<u8>>;
}

} // verus!
