use corda_rpc::amqp;
use corda_rpc::driver::{Driver, DriverState};
use corda_rpc::proto::{Frame, Protocol};
use corda_rpc::sasl;
use corda_rpc::Error;

fn mechanisms_frame() -> Frame {
    Frame::Sasl(sasl::Frame::Mechanisms(sasl::Mechanisms {
        sasl_server_mechanisms: vec![sasl::Mechanism::Plain],
    }))
}

fn outcome_frame(code: sasl::Code) -> Frame {
    Frame::Sasl(sasl::Frame::Outcome(sasl::Outcome { code, additional_data: None }))
}

fn amqp_frame(p: amqp::Performative) -> Frame {
    Frame::Amqp(amqp::Frame { channel: 0, extended_header: None, performative: p, message: None })
}

#[test]
fn login_consumes_exactly_the_handshake_frames() {
    let mut drv = Driver::new();
    assert_eq!(drv.state(), DriverState::Start);
    let header = drv.connect_ok();
    assert_eq!(header, b"AMQP\x03\x01\x00\x00".to_vec());
    assert_eq!(drv.state(), DriverState::SaslHeaderSent);

    assert_eq!(drv.handle_frame(&Frame::Header(Protocol::Sasl)).unwrap(), None);
    assert_eq!(drv.state(), DriverState::SaslMechanisms);
    assert_eq!(drv.handle_frame(&mechanisms_frame()).unwrap(), None);
    assert_eq!(drv.state(), DriverState::SaslInitReady);

    let init = drv.login(b"user1", b"psswd").unwrap();
    assert_eq!(
        &init[4..],
        &b"\x02\x01\x00\x00\x00SA\xd0\x00\x00\x00\x1a\x00\x00\x00\x03\xa3\x05PLAIN\xa0\x0c\x00user1\x00psswd@"[..],
    );
    assert_eq!(drv.state(), DriverState::SaslOutcomeWait);

    assert_eq!(drv.handle_frame(&outcome_frame(sasl::Code::Accepted)).unwrap(), None);
    assert_eq!(drv.state(), DriverState::SaslOutcomeOk);
    let reply = drv.handle_frame(&Frame::Header(Protocol::Amqp)).unwrap();
    assert_eq!(reply, Some(b"AMQP\x00\x01\x00\x00".to_vec()));
    assert_eq!(drv.state(), DriverState::AmqpHeaderSent);
}

#[test]
fn rejected_outcome_fails_the_driver() {
    let mut drv = Driver::new();
    drv.connect_ok();
    drv.handle_frame(&Frame::Header(Protocol::Sasl)).unwrap();
    drv.handle_frame(&mechanisms_frame()).unwrap();
    drv.login(b"u", b"p").unwrap();
    assert_eq!(
        drv.handle_frame(&outcome_frame(sasl::Code::Auth)),
        Err(Error::InvalidData)
    );
    assert_eq!(drv.state(), DriverState::Failed);
}

fn driver_at_mapped() -> Driver {
    let mut drv = Driver::new();
    drv.connect_ok();
    drv.handle_frame(&Frame::Header(Protocol::Sasl)).unwrap();
    drv.handle_frame(&mechanisms_frame()).unwrap();
    drv.login(b"user1", b"psswd").unwrap();
    drv.handle_frame(&outcome_frame(sasl::Code::Accepted)).unwrap();
    drv.handle_frame(&Frame::Header(Protocol::Amqp)).unwrap();
    drv.open(b"source").unwrap();
    drv.handle_frame(&amqp_frame(amqp::Performative::Open(amqp::Open {
        container_id: b"broker".to_vec(),
        ..Default::default()
    })))
    .unwrap();
    drv.begin().unwrap();
    drv.handle_frame(&amqp_frame(amqp::Performative::Begin(amqp::Begin {
        remote_channel: Some(0),
        next_outgoing_id: 1,
        incoming_window: 8,
        outgoing_window: 8,
        ..Default::default()
    })))
    .unwrap();
    assert_eq!(drv.state(), DriverState::Mapped);
    drv
}

fn peer_attach() -> Frame {
    amqp_frame(amqp::Performative::Attach(amqp::Attach {
        name: b"link".to_vec(),
        handle: 0,
        role: amqp::Role::Receiver,
        snd_settle_mode: None,
        rcv_settle_mode: None,
        source: None,
        target: None,
        unsettled: None,
        incomplete_unsettled: None,
        initial_delivery_count: None,
        max_message_size: None,
        offered_capabilities: None,
        desired_capabilities: None,
        properties: None,
    }))
}

fn peer_flow() -> Frame {
    amqp_frame(amqp::Performative::Flow(amqp::Flow {
        next_incoming_id: Some(1),
        incoming_window: 8,
        next_outgoing_id: 1,
        outgoing_window: 8,
        handle: Some(0),
        delivery_count: None,
        link_credit: Some(100),
        available: None,
        drain: None,
        echo: None,
        properties: None,
    }))
}

#[test]
fn sender_attach_expects_attach_then_flow() {
    let mut drv = driver_at_mapped();
    let attach = corda_rpc::client::sender_attach(b"snd".to_vec(), b"source".to_vec());
    drv.attach(attach).unwrap();
    assert_eq!(drv.state(), DriverState::ReplyWaitAttachFlow);
    drv.handle_frame(&peer_attach()).unwrap();
    assert_eq!(drv.state(), DriverState::AwaitFlow);
    // only a Flow is accepted as the next unread frame
    let mut probe = driver_at_mapped();
    let attach = corda_rpc::client::sender_attach(b"snd".to_vec(), b"source".to_vec());
    probe.attach(attach).unwrap();
    probe.handle_frame(&peer_attach()).unwrap();
    assert!(probe.handle_frame(&peer_attach()).is_err());
    assert_eq!(probe.state(), DriverState::Failed);
    drv.handle_frame(&peer_flow()).unwrap();
    assert_eq!(drv.state(), DriverState::Mapped);
}

#[test]
fn transfer_expects_disposition() {
    let mut drv = driver_at_mapped();
    let attach = corda_rpc::client::receiver_attach(b"q".to_vec(), b"source".to_vec());
    drv.attach(attach).unwrap();
    assert_eq!(drv.state(), DriverState::ReplyWaitAttach);
    drv.handle_frame(&peer_attach()).unwrap();
    assert_eq!(drv.state(), DriverState::Mapped);
    let flow = corda_rpc::client::receiver_flow();
    drv.flow(flow).unwrap();
    assert_eq!(drv.state(), DriverState::Mapped);
    let transfer = corda_rpc::client::call_transfer(b"tag".to_vec());
    let message = amqp::Message::default();
    drv.transfer(transfer, message).unwrap();
    assert_eq!(drv.state(), DriverState::ExpectDisposition);
    drv.handle_frame(&amqp_frame(amqp::Performative::Disposition(amqp::Disposition {
        role: amqp::Role::Receiver,
        first: 0,
        last: Some(0),
        settled: Some(true),
        state: Some(amqp::DeliveryState::Accepted(amqp::Accepted {})),
        batchable: None,
    })))
    .unwrap();
    assert_eq!(drv.state(), DriverState::Mapped);
}

#[test]
fn peer_error_is_terminal() {
    let mut drv = driver_at_mapped();
    let close = amqp_frame(amqp::Performative::Close(amqp::Close {
        error: Some(amqp::ErrorCondition {
            condition: b"amqp:internal-error".to_vec(),
            description: b"boom".to_vec(),
            info: None,
        }),
    }));
    match drv.handle_frame(&close) {
        Err(Error::PeerError { condition, description }) => {
            assert_eq!(condition, b"amqp:internal-error".to_vec());
            assert_eq!(description, b"boom".to_vec());
        },
        other => panic!("unexpected result: {:?}", other),
    }
    assert_eq!(drv.state(), DriverState::Failed);
}
