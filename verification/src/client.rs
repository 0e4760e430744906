//! Builders for a full RPC exchange: the fresh call identifiers, the
//! metadata header, and the attach, flow and transfer records the call
//! sends.
//!
//! Everything that depends on randomness or the clock comes in through a
//! trusted wrapper; every value built from those inputs is constructed and
//! specified here.
use vstd::prelude::*;

use crate::amqp::{
    Any, ApplicationProperties, Attach, AnyV, Body, BodyV, Data, Message, Properties, Role,
    Source, Target, Transfer,
};
use crate::ser::enc_var_ok;
use crate::wire::push_all;
use crate::Error;

verus! {

/// The byte string `_AMQ_VALIDATED_USER`.
pub open spec fn key_validated_user() -> Seq<u8> {
    seq![0x5fu8, 0x41u8, 0x4du8, 0x51u8, 0x5fu8, 0x56u8, 0x41u8, 0x4cu8, 0x49u8, 0x44u8, 0x41u8, 0x54u8, 0x45u8, 0x44u8, 0x5fu8, 0x55u8, 0x53u8, 0x45u8, 0x52u8]
}

pub fn key_validated_user_arr() -> (r: [u8; 19])
    ensures
        r@ == key_validated_user(),
{
    let r: [u8; 19] = [0x5f, 0x41, 0x4d, 0x51, 0x5f, 0x56, 0x41, 0x4c, 0x49, 0x44, 0x41, 0x54, 0x45, 0x44, 0x5f, 0x55, 0x53, 0x45, 0x52];
    assert(r@ =~= key_validated_user());
    r
}

/// The byte string `tag`.
pub open spec fn key_tag() -> Seq<u8> {
    seq![0x74u8, 0x61u8, 0x67u8]
}

pub fn key_tag_arr() -> (r: [u8; 3])
    ensures
        r@ == key_tag(),
{
    let r: [u8; 3] = [0x74, 0x61, 0x67];
    assert(r@ =~= key_tag());
    r
}

/// The byte string `method-name`.
pub open spec fn key_method_name() -> Seq<u8> {
    seq![0x6du8, 0x65u8, 0x74u8, 0x68u8, 0x6fu8, 0x64u8, 0x2du8, 0x6eu8, 0x61u8, 0x6du8, 0x65u8]
}

pub fn key_method_name_arr() -> (r: [u8; 11])
    ensures
        r@ == key_method_name(),
{
    let r: [u8; 11] = [0x6d, 0x65, 0x74, 0x68, 0x6f, 0x64, 0x2d, 0x6e, 0x61, 0x6d, 0x65];
    assert(r@ =~= key_method_name());
    r
}

/// The byte string `rpc-id`.
pub open spec fn key_rpc_id() -> Seq<u8> {
    seq![0x72u8, 0x70u8, 0x63u8, 0x2du8, 0x69u8, 0x64u8]
}

pub fn key_rpc_id_arr() -> (r: [u8; 6])
    ensures
        r@ == key_rpc_id(),
{
    let r: [u8; 6] = [0x72, 0x70, 0x63, 0x2d, 0x69, 0x64];
    assert(r@ =~= key_rpc_id());
    r
}

/// The byte string `rpc-id-timestamp`.
pub open spec fn key_rpc_id_timestamp() -> Seq<u8> {
    seq![0x72u8, 0x70u8, 0x63u8, 0x2du8, 0x69u8, 0x64u8, 0x2du8, 0x74u8, 0x69u8, 0x6du8, 0x65u8, 0x73u8, 0x74u8, 0x61u8, 0x6du8, 0x70u8]
}

pub fn key_rpc_id_timestamp_arr() -> (r: [u8; 16])
    ensures
        r@ == key_rpc_id_timestamp(),
{
    let r: [u8; 16] = [0x72, 0x70, 0x63, 0x2d, 0x69, 0x64, 0x2d, 0x74, 0x69, 0x6d, 0x65, 0x73, 0x74, 0x61, 0x6d, 0x70];
    assert(r@ =~= key_rpc_id_timestamp());
    r
}

/// The byte string `rpc-session-id`.
pub open spec fn key_rpc_session_id() -> Seq<u8> {
    seq![0x72u8, 0x70u8, 0x63u8, 0x2du8, 0x73u8, 0x65u8, 0x73u8, 0x73u8, 0x69u8, 0x6fu8, 0x6eu8, 0x2du8, 0x69u8, 0x64u8]
}

pub fn key_rpc_session_id_arr() -> (r: [u8; 14])
    ensures
        r@ == key_rpc_session_id(),
{
    let r: [u8; 14] = [0x72, 0x70, 0x63, 0x2d, 0x73, 0x65, 0x73, 0x73, 0x69, 0x6f, 0x6e, 0x2d, 0x69, 0x64];
    assert(r@ =~= key_rpc_session_id());
    r
}

/// The byte string `rpc-session-id-timestamp`.
pub open spec fn key_rpc_session_id_timestamp() -> Seq<u8> {
    seq![0x72u8, 0x70u8, 0x63u8, 0x2du8, 0x73u8, 0x65u8, 0x73u8, 0x73u8, 0x69u8, 0x6fu8, 0x6eu8, 0x2du8, 0x69u8, 0x64u8, 0x2du8, 0x74u8, 0x69u8, 0x6du8, 0x65u8, 0x73u8, 0x74u8, 0x61u8, 0x6du8, 0x70u8]
}

pub fn key_rpc_session_id_timestamp_arr() -> (r: [u8; 24])
    ensures
        r@ == key_rpc_session_id_timestamp(),
{
    let r: [u8; 24] = [0x72, 0x70, 0x63, 0x2d, 0x73, 0x65, 0x73, 0x73, 0x69, 0x6f, 0x6e, 0x2d, 0x69, 0x64, 0x2d, 0x74, 0x69, 0x6d, 0x65, 0x73, 0x74, 0x61, 0x6d, 0x70];
    assert(r@ =~= key_rpc_session_id_timestamp());
    r
}

/// The byte string `deduplication-sequence-number`.
pub open spec fn key_dedup_seq() -> Seq<u8> {
    seq![0x64u8, 0x65u8, 0x64u8, 0x75u8, 0x70u8, 0x6cu8, 0x69u8, 0x63u8, 0x61u8, 0x74u8, 0x69u8, 0x6fu8, 0x6eu8, 0x2du8, 0x73u8, 0x65u8, 0x71u8, 0x75u8, 0x65u8, 0x6eu8, 0x63u8, 0x65u8, 0x2du8, 0x6eu8, 0x75u8, 0x6du8, 0x62u8, 0x65u8, 0x72u8]
}

pub fn key_dedup_seq_arr() -> (r: [u8; 29])
    ensures
        r@ == key_dedup_seq(),
{
    let r: [u8; 29] = [0x64, 0x65, 0x64, 0x75, 0x70, 0x6c, 0x69, 0x63, 0x61, 0x74, 0x69, 0x6f, 0x6e, 0x2d, 0x73, 0x65, 0x71, 0x75, 0x65, 0x6e, 0x63, 0x65, 0x2d, 0x6e, 0x75, 0x6d, 0x62, 0x65, 0x72];
    assert(r@ =~= key_dedup_seq());
    r
}

/// The byte string `rpc.server`.
pub open spec fn addr_rpc_server() -> Seq<u8> {
    seq![0x72u8, 0x70u8, 0x63u8, 0x2eu8, 0x73u8, 0x65u8, 0x72u8, 0x76u8, 0x65u8, 0x72u8]
}

pub fn addr_rpc_server_arr() -> (r: [u8; 10])
    ensures
        r@ == addr_rpc_server(),
{
    let r: [u8; 10] = [0x72, 0x70, 0x63, 0x2e, 0x73, 0x65, 0x72, 0x76, 0x65, 0x72];
    assert(r@ =~= addr_rpc_server());
    r
}

/// The byte string `rpc.client.`.
pub open spec fn rpc_client_prefix() -> Seq<u8> {
    seq![0x72u8, 0x70u8, 0x63u8, 0x2eu8, 0x63u8, 0x6cu8, 0x69u8, 0x65u8, 0x6eu8, 0x74u8, 0x2eu8]
}

pub fn rpc_client_prefix_arr() -> (r: [u8; 11])
    ensures
        r@ == rpc_client_prefix(),
{
    let r: [u8; 11] = [0x72, 0x70, 0x63, 0x2e, 0x63, 0x6c, 0x69, 0x65, 0x6e, 0x74, 0x2e];
    assert(r@ =~= rpc_client_prefix());
    r
}

// ---------------------------------------------------------------------------
// Outside sources of randomness and time
// ---------------------------------------------------------------------------
/// Relies on uuid::Uuid::new_v4 and Uuid::into_bytes: sixteen random bytes
/// with the version nibble forced to 4 and the variant bits to 10.
#[verifier::external_body]
fn fresh_uuid_bytes() -> (r: [u8; 16])
    ensures
        r@[6] & 0xf0 == 0x40,
        r@[8] & 0xc0 == 0x80,
{
    uuid::Uuid::new_v4().into_bytes()
}

/// Relies on rand::random: a 64-bit value drawn from the thread-local
/// generator; nothing is promised of it.
#[verifier::external_body]
fn random_u64() -> (r: u64) {
    rand::random::<u64>()
}

/// Relies on std::time::SystemTime::now and duration_since: the
/// milliseconds since the Unix epoch, clamped into a non-negative i64; a
/// clock before the epoch reads as zero.
#[verifier::external_body]
fn now_millis() -> (r: i64)
    ensures
        r >= 0,
{
    match std::time::SystemTime::now().duration_since(std::time::UNIX_EPOCH) {
        Ok(d) => {
            let m = d.as_millis();
            if m > 0x7FFF_FFFF_FFFF_FFFFu128 {
                i64::MAX
            } else {
                m as i64
            }
        },
        Err(_) => 0,
    }
}

// ---------------------------------------------------------------------------
// Verified formatting
// ---------------------------------------------------------------------------
/// The lowercase hex digit of a nibble.
pub open spec fn hex_digit(n: u8) -> u8
    recommends
        n < 16,
{
    if n < 10 {
        (0x30 + n) as u8
    } else {
        (0x57 + n) as u8
    }
}

/// The two hex digits of a byte.
pub open spec fn hex_byte(b: u8) -> Seq<u8> {
    seq![hex_digit(b / 16), hex_digit((b % 16) as u8)]
}

/// The hex digits of a byte run.
pub open spec fn hex_of(s: Seq<u8>) -> Seq<u8>
    decreases s.len(),
{
    if s.len() == 0 {
        Seq::empty()
    } else {
        hex_byte(s[0]) + hex_of(s.skip(1))
    }
}

/// The 36-character hyphenated form of a 16-byte identifier.
pub open spec fn uuid_hyphenated(b: Seq<u8>) -> Seq<u8>
    recommends
        b.len() == 16,
{
    hex_of(b.take(4)) + seq![0x2du8] + hex_of(b.subrange(4, 6)) + seq![0x2du8] + hex_of(
        b.subrange(6, 8),
    ) + seq![0x2du8] + hex_of(b.subrange(8, 10)) + seq![0x2du8] + hex_of(b.subrange(10, 16))
}

/// Appends the hex digits of a byte run.
fn push_hex(out: &mut Vec<u8>, s: &[u8])
    ensures
        final(out)@ == old(out)@ + hex_of(s@),
    decreases s@.len(),
{
    let mut i: usize = 0;
    while i < s.len()
        invariant
            i <= s@.len(),
            out@ == old(out)@ + hex_of(s@.take(i as int)),
        decreases s@.len() - i,
    {
        let b = s[i];
        let hi = b / 16;
        let lo = b % 16;
        out.push(if hi < 10 {
            0x30 + hi
        } else {
            0x57 + hi
        });
        out.push(if lo < 10 {
            0x30 + lo
        } else {
            0x57 + lo
        });
        proof {
            lemma_hex_of_take(s@, i as int);
            assert(out@ =~= old(out)@ + hex_of(s@.take(i + 1)));
        }
        i = i + 1;
    }
    proof {
        assert(s@.take(s@.len() as int) =~= s@);
    }
}

proof fn lemma_hex_of_take(s: Seq<u8>, i: int)
    requires
        0 <= i < s.len(),
    ensures
        hex_of(s.take(i + 1)) == hex_of(s.take(i)) + hex_byte(s[i]),
    decreases i,
{
    let t1 = s.take(i + 1);
    if i == 0 {
        assert(t1 =~= seq![s[0]]);
        assert(t1.skip(1) =~= Seq::<u8>::empty());
        assert(s.take(0) =~= Seq::<u8>::empty());
        assert(hex_of(t1) =~= hex_of(s.take(0)) + hex_byte(s[0]));
    } else {
        assert(t1[0] == s[0]);
        assert(t1.skip(1) =~= s.skip(1).take(i));
        assert(s.take(i)[0] == s[0]);
        assert(s.take(i).skip(1) =~= s.skip(1).take(i - 1));
        lemma_hex_of_take(s.skip(1), i - 1);
        assert(s.skip(1)[i - 1] == s[i]);
        assert(hex_of(t1) =~= hex_byte(s[0]) + (hex_of(s.skip(1).take(i - 1)) + hex_byte(s[i])));
        assert(hex_of(s.take(i)) + hex_byte(s[i]) =~= hex_byte(s[0]) + (hex_of(
            s.skip(1).take(i - 1),
        ) + hex_byte(s[i])));
    }
}

/// Formats a 16-byte identifier in the lowercase hyphenated form.
pub fn format_uuid(b: &[u8]) -> (r: Vec<u8>)
    requires
        b@.len() == 16,
    ensures
        r@ == uuid_hyphenated(b@),
        r@.len() == 36,
{
    let mut out: Vec<u8> = Vec::new();
    let part = vstd::slice::slice_subrange(b, 0, 4);
    push_hex(&mut out, part);
    out.push(0x2d);
    let part = vstd::slice::slice_subrange(b, 4, 6);
    push_hex(&mut out, part);
    out.push(0x2d);
    let part = vstd::slice::slice_subrange(b, 6, 8);
    push_hex(&mut out, part);
    out.push(0x2d);
    let part = vstd::slice::slice_subrange(b, 8, 10);
    push_hex(&mut out, part);
    out.push(0x2d);
    let part = vstd::slice::slice_subrange(b, 10, 16);
    push_hex(&mut out, part);
    proof {
        assert(b@.take(4) =~= b@.subrange(0, 4));
        assert(out@ =~= uuid_hyphenated(b@));
        lemma_hex_of_len(b@.subrange(0, 4));
        lemma_hex_of_len(b@.subrange(4, 6));
        lemma_hex_of_len(b@.subrange(6, 8));
        lemma_hex_of_len(b@.subrange(8, 10));
        lemma_hex_of_len(b@.subrange(10, 16));
    }
    out
}

proof fn lemma_hex_of_len(s: Seq<u8>)
    ensures
        hex_of(s).len() == 2 * s.len(),
    decreases s.len(),
{
    if s.len() > 0 {
        lemma_hex_of_len(s.skip(1));
    }
}

/// The decimal digits of an unsigned number.
pub open spec fn dec_str_u64(n: u64) -> Seq<u8>
    decreases n,
{
    if n < 10 {
        seq![(0x30 + n) as u8]
    } else {
        dec_str_u64(n / 10) + seq![(0x30 + (n % 10)) as u8]
    }
}

/// Formats an unsigned number in decimal.
pub fn format_u64(n: u64) -> (r: Vec<u8>)
    ensures
        r@ == dec_str_u64(n),
    decreases n,
{
    if n < 10 {
        let mut v: Vec<u8> = Vec::new();
        v.push(0x30 + (n as u8));
        proof {
            assert(v@ =~= dec_str_u64(n));
        }
        v
    } else {
        let mut v = format_u64(n / 10);
        v.push(0x30 + ((n % 10) as u8));
        proof {
            assert(v@ =~= dec_str_u64(n));
        }
        v
    }
}

// ---------------------------------------------------------------------------
// Fresh call identifiers
// ---------------------------------------------------------------------------
/// The identifiers a call draws afresh: the rpc and session ids in their
/// hyphenated form, the raw delivery tag, the timestamp, and the raw value
/// the receive-queue suffix is made of.
pub struct CallIds {
    pub rpc_id: Vec<u8>,
    pub rpc_session_id: Vec<u8>,
    pub delivery_tag: Vec<u8>,
    pub timestamp: i64,
    pub queue_rand: u64,
}

/// Draws the identifiers for one call. The values come from the outside
/// sources above, so nothing is promised of their content beyond shape.
pub fn fresh_call_ids() -> (r: CallIds)
    ensures
        r.rpc_id@.len() == 36,
        r.rpc_session_id@.len() == 36,
        r.delivery_tag@.len() == 16,
        r.timestamp >= 0,
{
    let a = fresh_uuid_bytes();
    let rpc_id = format_uuid(a.as_slice());
    let b = fresh_uuid_bytes();
    let rpc_session_id = format_uuid(b.as_slice());
    let c = fresh_uuid_bytes();
    let delivery_tag = vstd::slice::slice_to_vec(c.as_slice());
    let timestamp = now_millis();
    let queue_rand = random_u64();
    CallIds { rpc_id, rpc_session_id, delivery_tag, timestamp, queue_rand }
}

/// The byte string `corda-rpc-`.
pub open spec fn sender_link_prefix() -> Seq<u8> {
    seq![0x63u8, 0x6fu8, 0x72u8, 0x64u8, 0x61u8, 0x2du8, 0x72u8, 0x70u8, 0x63u8, 0x2du8]
}

pub fn sender_link_prefix_arr() -> (r: [u8; 10])
    ensures
        r@ == sender_link_prefix(),
{
    let r: [u8; 10] = [0x63, 0x6f, 0x72, 0x64, 0x61, 0x2d, 0x72, 0x70, 0x63, 0x2d];
    assert(r@ =~= sender_link_prefix());
    r
}

/// The unique sender link name a new client draws: `corda-rpc-` and a fresh
/// identifier in its hyphenated form.
pub fn sender_link_name() -> (r: Vec<u8>)
    ensures
        r@.len() == 46,
        r@.take(10) == sender_link_prefix(),
{
    let a = fresh_uuid_bytes();
    let hyph = format_uuid(a.as_slice());
    let mut out: Vec<u8> = Vec::new();
    let p = sender_link_prefix_arr();
    push_all(&mut out, p.as_slice());
    push_all(&mut out, hyph.as_slice());
    proof {
        assert(out@.take(10) =~= sender_link_prefix());
    }
    out
}

// ---------------------------------------------------------------------------
// The records a call sends
// ---------------------------------------------------------------------------
/// The unique receive-queue name: `rpc.client.`, the user, a dot, and the
/// masked random suffix in decimal.
pub open spec fn queue_name_of(user: Seq<u8>, raw: u64) -> Seq<u8> {
    rpc_client_prefix() + user + seq![0x2eu8] + dec_str_u64(raw & 0xefff_ffff_ffff_ffff)
}

pub fn rpc_queue_name(user: &[u8], raw: u64) -> (r: Vec<u8>)
    ensures
        r@ == queue_name_of(user@, raw),
{
    let mut out: Vec<u8> = Vec::new();
    let p = rpc_client_prefix_arr();
    push_all(&mut out, p.as_slice());
    push_all(&mut out, user);
    out.push(0x2e);
    let digits = format_u64(raw & 0xefff_ffff_ffff_ffff);
    push_all(&mut out, digits.as_slice());
    proof {
        assert(out@ =~= queue_name_of(user@, raw));
    }
    out
}

/// The metadata header every request carries, in its fixed key order.
pub open spec fn call_properties_spec(
    user: Seq<u8>,
    method: Seq<u8>,
    rpc_id: Seq<u8>,
    rpc_session_id: Seq<u8>,
    timestamp: i64,
) -> Seq<(Seq<u8>, AnyV)> {
    seq![
        (key_validated_user(), AnyV::Str(user)),
        (key_tag(), AnyV::I32(0)),
        (key_method_name(), AnyV::Str(method)),
        (key_rpc_id(), AnyV::Str(rpc_id)),
        (key_rpc_id_timestamp(), AnyV::I64(timestamp)),
        (key_rpc_session_id(), AnyV::Str(rpc_session_id)),
        (key_rpc_session_id_timestamp(), AnyV::I64(timestamp)),
        (key_dedup_seq(), AnyV::I64(0)),
    ]
}

pub fn call_properties(
    user: &[u8],
    method: &[u8],
    rpc_id: &[u8],
    rpc_session_id: &[u8],
    timestamp: i64,
) -> (r: ApplicationProperties)
    ensures
        r@ == call_properties_spec(user@, method@, rpc_id@, rpc_session_id@, timestamp),
{
    let mut m: Vec<(Vec<u8>, Any)> = Vec::new();
    let k = key_validated_user_arr();
    m.push((vstd::slice::slice_to_vec(k.as_slice()), Any::Str(vstd::slice::slice_to_vec(user))));
    let k = key_tag_arr();
    m.push((vstd::slice::slice_to_vec(k.as_slice()), Any::I32(0)));
    let k = key_method_name_arr();
    m.push((vstd::slice::slice_to_vec(k.as_slice()), Any::Str(vstd::slice::slice_to_vec(method))));
    let k = key_rpc_id_arr();
    m.push((vstd::slice::slice_to_vec(k.as_slice()), Any::Str(vstd::slice::slice_to_vec(rpc_id))));
    let k = key_rpc_id_timestamp_arr();
    m.push((vstd::slice::slice_to_vec(k.as_slice()), Any::I64(timestamp)));
    let k = key_rpc_session_id_arr();
    m.push((
        vstd::slice::slice_to_vec(k.as_slice()),
        Any::Str(vstd::slice::slice_to_vec(rpc_session_id)),
    ));
    let k = key_rpc_session_id_timestamp_arr();
    m.push((vstd::slice::slice_to_vec(k.as_slice()), Any::I64(timestamp)));
    let k = key_dedup_seq_arr();
    m.push((vstd::slice::slice_to_vec(k.as_slice()), Any::I64(0)));
    let r = ApplicationProperties(m);
    proof {
        assert(r@ =~= call_properties_spec(user@, method@, rpc_id@, rpc_session_id@, timestamp));
    }
    r
}

/// The sender attach of a new client: handle 0, the container as source,
/// the RPC server queue as target, delivery count zero.
pub fn sender_attach(link_name: Vec<u8>, container: Vec<u8>) -> (r: Attach)
    ensures
        r@.name == link_name@,
        r@.handle == 0,
        r@.role == Role::Sender,
        r@.source matches Some(s) && s.address == Some(container@),
        r@.target matches Some(t) && t.address == Some(addr_rpc_server()),
        r@.initial_delivery_count == Some(0u32),
        r@.snd_settle_mode is None && r@.rcv_settle_mode is None && r@.unsettled is None
            && r@.incomplete_unsettled is None && r@.max_message_size is None
            && r@.offered_capabilities is None && r@.desired_capabilities is None
            && r@.properties is None,
    {
    let mut source = Source::default();
    source.address = Some(container);
    let mut target = Target::default();
    let t = addr_rpc_server_arr();
    target.address = Some(vstd::slice::slice_to_vec(t.as_slice()));
    Attach {
        name: link_name,
        handle: 0,
        role: Role::Sender,
        snd_settle_mode: None,
        rcv_settle_mode: None,
        source: Some(source),
        target: Some(target),
        unsettled: None,
        incomplete_unsettled: None,
        initial_delivery_count: Some(0),
        max_message_size: None,
        offered_capabilities: None,
        desired_capabilities: None,
        properties: None,
    }
}

/// The receiver attach of a call: handle 1, the fresh queue as both name
/// and source, the container as target.
pub fn receiver_attach(queue_name: Vec<u8>, container: Vec<u8>) -> (r: Attach)
    ensures
        r@.name == queue_name@,
        r@.handle == 1,
        r@.role == Role::Receiver,
        r@.source matches Some(s) && s.address == Some(queue_name@),
        r@.target matches Some(t) && t.address == Some(container@),
        r@.initial_delivery_count is None,
        r@.snd_settle_mode is None && r@.rcv_settle_mode is None && r@.unsettled is None
            && r@.incomplete_unsettled is None && r@.max_message_size is None
            && r@.offered_capabilities is None && r@.desired_capabilities is None
            && r@.properties is None,
{
    let source_name = queue_name.clone();
    let mut source = Source::default();
    source.address = Some(source_name);
    let mut target = Target::default();
    target.address = Some(container);
    proof {
        assert(queue_name@ =~= queue_name@);
    }
    Attach {
        name: queue_name,
        handle: 1,
        role: Role::Receiver,
        snd_settle_mode: None,
        rcv_settle_mode: None,
        source: Some(source),
        target: Some(target),
        unsettled: None,
        incomplete_unsettled: None,
        initial_delivery_count: None,
        max_message_size: None,
        offered_capabilities: None,
        desired_capabilities: None,
        properties: None,
    }
}

/// The static receiver flow of a call: wide-open windows on handle 1 with a
/// thousand credits.
pub fn receiver_flow() -> (r: crate::amqp::Flow)
    ensures
        r@.next_incoming_id == Some(1u32),
        r@.incoming_window == 2147483647,
        r@.next_outgoing_id == 1,
        r@.outgoing_window == 2147483647,
        r@.handle == Some(1u32),
        r@.delivery_count == Some(0u32),
        r@.link_credit == Some(1000u32),
        r@.available is None && r@.drain is None && r@.echo is None && r@.properties is None,
{
    crate::amqp::Flow {
        next_incoming_id: Some(1),
        incoming_window: 2147483647,
        next_outgoing_id: 1,
        outgoing_window: 2147483647,
        handle: Some(1),
        delivery_count: Some(0),
        link_credit: Some(1000),
        available: None,
        drain: None,
        echo: None,
        properties: None,
    }
}

/// The transfer record of a call: handle 0, delivery id 0, the fresh tag,
/// message format 0.
pub fn call_transfer(delivery_tag: Vec<u8>) -> (r: Transfer)
    ensures
        r@.handle == 0,
        r@.delivery_id == Some(0u32),
        r@.delivery_tag == Some(delivery_tag@),
        r@.message_format == Some(0u32),
        r@.settled is None && r@.more is None && r@.rcv_settle_mode is None && r@.state is None
            && r@.resume is None && r@.aborted is None && r@.batchable is None,
{
    Transfer {
        handle: 0,
        delivery_id: Some(0),
        delivery_tag: Some(delivery_tag),
        message_format: Some(0),
        settled: None,
        more: None,
        rcv_settle_mode: None,
        state: None,
        resume: None,
        aborted: None,
        batchable: None,
    }
}

/// The message of a call: properties carrying the rpc id, the reply queue
/// and the user, the metadata header, and the encoded envelope as the data
/// body.
pub fn call_message(
    user: &[u8],
    rpc_id: &[u8],
    queue_name: &[u8],
    props: ApplicationProperties,
    body: Vec<u8>,
) -> (r: Message)
    ensures
        r@.header is None && r@.delivery_annotations is None && r@.message_annotations is None
            && r@.footer is None,
        r@.properties matches Some(p) && p.message_id == Some(rpc_id@) && p.reply_to == Some(
            queue_name@,
        ) && p.user_id == Some(user@),
        r@.application_properties == Some(props@),
        r@.body == Some(BodyV::Data(body@)),
{
    let mut properties = Properties::default();
    properties.message_id = Some(vstd::slice::slice_to_vec(rpc_id));
    properties.reply_to = Some(vstd::slice::slice_to_vec(queue_name));
    properties.user_id = Some(vstd::slice::slice_to_vec(user));
    Message {
        header: None,
        delivery_annotations: None,
        message_annotations: None,
        properties: Some(properties),
        application_properties: Some(props),
        body: Some(Body::Data(Data(body))),
        footer: None,
    }
}

} // verus!
