use corda_rpc::amqp::{self, Any, List};
use corda_rpc::client;
use corda_rpc::network_map_snapshot::{NetworkMapSnapshot, NodeInfo};
use corda_rpc::types::{Envelope, ObjectList, Success, Try};
use corda_rpc::Error;

#[test]
fn envelope_encode_matches_the_documented_prefix() {
    let call = NetworkMapSnapshot;
    let env = call.request();
    let mut buf: Vec<u8> = Vec::new();
    env.encode(&mut buf).unwrap();
    assert!(buf.starts_with(b"corda\x01\x00\x00\x00\x80\xc5\x62\x00\x00\x00\x00\x00\x01\xd0"));
    let back = Envelope::<ObjectList>::decode(buf.as_slice()).unwrap();
    assert_eq!(back, env);
}

#[test]
fn envelope_rejects_bad_magic() {
    assert_eq!(
        Envelope::<ObjectList>::decode(b"cordb\x01\x00\x00"),
        Err(Error::InvalidData)
    );
    let call = NetworkMapSnapshot;
    let mut buf: Vec<u8> = Vec::new();
    call.request().encode(&mut buf).unwrap();
    buf.push(0xff);
    assert_eq!(
        Envelope::<ObjectList>::decode(buf.as_slice()),
        Err(Error::TrailingCharacters)
    );
}

fn reply_frame(obj: Try<List<NodeInfo>, ()>) -> corda_rpc::proto::Frame {
    let call = NetworkMapSnapshot;
    let schema = call.request().schema;
    let env: Envelope<Try<List<NodeInfo>, ()>> =
        Envelope { obj, schema, transforms_schema: None };
    let mut body: Vec<u8> = Vec::new();
    env.encode(&mut body).unwrap();
    corda_rpc::proto::Frame::Amqp(amqp::Frame {
        channel: 0,
        extended_header: None,
        performative: amqp::Performative::Transfer(amqp::Transfer {
            handle: 1,
            ..Default::default()
        }),
        message: Some(amqp::Message {
            application_properties: Some(amqp::ApplicationProperties(Vec::new())),
            body: Some(amqp::Body::Data(amqp::Data(body))),
            ..Default::default()
        }),
    })
}

#[test]
fn response_decodes_a_successful_reply() {
    let frame = reply_frame(Try::Success(Success { value: List(Vec::new()) }));
    let call = NetworkMapSnapshot;
    let nodes = call.response(&frame).unwrap();
    assert_eq!(nodes, Vec::<NodeInfo>::new());
}

#[test]
fn response_surfaces_a_failed_reply() {
    let frame = reply_frame(Try::Failure(corda_rpc::types::Failure { value: () }));
    let call = NetworkMapSnapshot;
    assert_eq!(call.response(&frame), Err(Error::InvalidData));
}

#[test]
fn reply_frame_round_trips_through_the_codec() {
    let frame = reply_frame(Try::Success(Success { value: List(Vec::new()) }));
    let bytes = frame.to_vec().unwrap();
    let codec = corda_rpc::proto::Codec;
    let mut buf = bytes.clone();
    let back = codec.decode(&mut buf).unwrap().unwrap();
    assert_eq!(back, frame);
    assert!(buf.is_empty());
}

#[test]
fn method_name_is_fixed() {
    let call = NetworkMapSnapshot;
    assert_eq!(call.method(), b"networkMapSnapshot".to_vec());
}

#[test]
fn fresh_ids_have_the_documented_shape() {
    let ids = client::fresh_call_ids();
    assert_eq!(ids.rpc_id.len(), 36);
    assert_eq!(ids.rpc_session_id.len(), 36);
    assert_eq!(ids.delivery_tag.len(), 16);
    assert!(ids.timestamp >= 0);
    // hyphens in the hyphenated positions, the version nibble reads 4
    for pos in [8, 13, 18, 23] {
        assert_eq!(ids.rpc_id[pos], b'-');
    }
    assert_eq!(ids.rpc_id[14], b'4');
    for (i, b) in ids.rpc_id.iter().enumerate() {
        if ![8, 13, 18, 23].contains(&i) {
            assert!(b.is_ascii_hexdigit() && !b.is_ascii_uppercase());
        }
    }
}

#[test]
fn queue_name_carries_user_and_masked_suffix() {
    let name = client::rpc_queue_name(b"user1", 0xffff_ffff_ffff_ffff);
    let expect = format!("rpc.client.user1.{}", 0xefff_ffff_ffff_ffffu64);
    assert_eq!(name, expect.into_bytes());
    let name = client::rpc_queue_name(b"alice", 7);
    assert_eq!(name, b"rpc.client.alice.7".to_vec());
}

#[test]
fn call_properties_carry_the_metadata_header() {
    let props = client::call_properties(
        b"user1",
        b"networkMapSnapshot",
        b"rid",
        b"sid",
        123,
    );
    let entries = props.0;
    assert_eq!(entries.len(), 8);
    assert_eq!(entries[0], (b"_AMQ_VALIDATED_USER".to_vec(), Any::Str(b"user1".to_vec())));
    assert_eq!(entries[1], (b"tag".to_vec(), Any::I32(0)));
    assert_eq!(entries[2], (b"method-name".to_vec(), Any::Str(b"networkMapSnapshot".to_vec())));
    assert_eq!(entries[3], (b"rpc-id".to_vec(), Any::Str(b"rid".to_vec())));
    assert_eq!(entries[4], (b"rpc-id-timestamp".to_vec(), Any::I64(123)));
    assert_eq!(entries[5], (b"rpc-session-id".to_vec(), Any::Str(b"sid".to_vec())));
    assert_eq!(entries[6], (b"rpc-session-id-timestamp".to_vec(), Any::I64(123)));
    assert_eq!(entries[7], (b"deduplication-sequence-number".to_vec(), Any::I64(0)));
}

#[test]
fn call_message_shape() {
    let props = client::call_properties(b"u", b"m", b"rid", b"sid", 1);
    let msg = client::call_message(b"u", b"rid", b"rpc.client.u.1", props, b"payload".to_vec());
    let p = msg.properties.unwrap();
    assert_eq!(p.message_id, Some(b"rid".to_vec()));
    assert_eq!(p.reply_to, Some(b"rpc.client.u.1".to_vec()));
    assert_eq!(p.user_id, Some(b"u".to_vec()));
    assert_eq!(msg.body, Some(amqp::Body::Data(amqp::Data(b"payload".to_vec()))));
    assert!(msg.header.is_none() && msg.footer.is_none());
}

#[test]
fn sender_link_name_has_the_documented_shape() {
    let name = client::sender_link_name();
    assert_eq!(name.len(), 46);
    assert!(name.starts_with(b"corda-rpc-"));
    // the tail is a hyphenated identifier
    assert_eq!(name[10 + 8], b'-');
    assert_eq!(name[10 + 14], b'4');
}
