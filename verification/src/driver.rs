//! The connection-lifecycle state machine: header exchange, SASL, open,
//! begin, attach, flow, transfer, receive.
//!
//! The driver is a pure decision core: commands produce the exact bytes to
//! write, `handle_frame` consumes one received frame and yields the bytes to
//! send in response, if any. The unverified shell owns the stream and
//! alternates writing and reading. A ghost log records the kind of every
//! frame the driver has consumed.
use vstd::prelude::*;

use crate::amqp::{self, Attach, ErrorConditionV, Flow, Message, Open, PerformativeV, Role, Transfer};
use crate::proto::{
    amqp_proto_header, enc_frame, enc_frame_ok, sasl_proto_header, Frame, FrameV, Protocol,
};
use crate::sasl::{self, InitV, Mechanism};
use crate::wire::push_all;
use crate::Error;

verus! {

/// The connection lifecycle states.
#[derive(Clone, Copy, Debug, PartialEq, Eq, Structural)]
pub enum DriverState {
    Start,
    SaslHeaderSent,
    SaslMechanisms,
    SaslInitReady,
    SaslOutcomeWait,
    SaslOutcomeOk,
    AmqpHeaderSent,
    OpenSent,
    Opened,
    BeginSent,
    Mapped,
    ReplyWaitAttachFlow,
    AwaitFlow,
    ReplyWaitAttach,
    ExpectDisposition,
    Failed,
}

/// The kind of a received frame, as the consumed-frame log records it.
#[derive(Clone, Copy, Debug, PartialEq, Eq, Structural)]
pub enum FrameKind {
    HeaderSasl,
    HeaderAmqp,
    Mechanisms,
    SaslOutcome,
    OpenPerf,
    BeginPerf,
    AttachPerf,
    FlowPerf,
    DispositionPerf,
    Other,
}

pub open spec fn frame_kind(f: FrameV) -> FrameKind {
    match f {
        FrameV::Header(Protocol::Sasl) => FrameKind::HeaderSasl,
        FrameV::Header(Protocol::Amqp) => FrameKind::HeaderAmqp,
        FrameV::Sasl(sasl::FrameV::Mechanisms(_)) => FrameKind::Mechanisms,
        FrameV::Sasl(sasl::FrameV::Outcome(_)) => FrameKind::SaslOutcome,
        FrameV::Sasl(sasl::FrameV::Init(_)) => FrameKind::Other,
        FrameV::Amqp(af) => match af.performative {
            PerformativeV::Open(_) => FrameKind::OpenPerf,
            PerformativeV::Begin(_) => FrameKind::BeginPerf,
            PerformativeV::Attach(_) => FrameKind::AttachPerf,
            PerformativeV::Flow(_) => FrameKind::FlowPerf,
            PerformativeV::Disposition(_) => FrameKind::DispositionPerf,
            _ => FrameKind::Other,
        },
    }
}

/// An Error composite surfaced by the peer on Close or Detach.
pub open spec fn peer_error_of(f: FrameV) -> Option<ErrorConditionV> {
    match f {
        FrameV::Amqp(af) => match af.performative {
            PerformativeV::Close(c) => c.error,
            PerformativeV::Detach(d) => d.error,
            _ => None,
        },
        _ => None,
    }
}

/// What consuming one frame does: whether the frame is accepted, the state
/// that follows, whether the AMQP protocol header must be sent in reply, and
/// the peer-surfaced error if one arrived.
pub struct Step {
    pub accepted: bool,
    pub next: DriverState,
    pub send_header: bool,
    pub peer: Option<ErrorConditionV>,
}

/// The receive half of the state table. A peer-surfaced error is terminal
/// whatever the state; otherwise exactly the expected frame advances, and
/// everything else rejects into the terminal state.
pub open spec fn drive(st: DriverState, f: FrameV) -> Step {
    if peer_error_of(f) is Some {
        Step { accepted: false, next: DriverState::Failed, send_header: false, peer: peer_error_of(f) }
    } else {
        let k = frame_kind(f);
        if st == DriverState::SaslHeaderSent && k == FrameKind::HeaderSasl {
            Step { accepted: true, next: DriverState::SaslMechanisms, send_header: false, peer: None }
        } else if st == DriverState::SaslMechanisms && k == FrameKind::Mechanisms {
            Step { accepted: true, next: DriverState::SaslInitReady, send_header: false, peer: None }
        } else if st == DriverState::SaslOutcomeWait && k == FrameKind::SaslOutcome
            && sasl_outcome_accepted(f) {
            Step { accepted: true, next: DriverState::SaslOutcomeOk, send_header: false, peer: None }
        } else if st == DriverState::SaslOutcomeOk && k == FrameKind::HeaderAmqp {
            Step { accepted: true, next: DriverState::AmqpHeaderSent, send_header: true, peer: None }
        } else if st == DriverState::OpenSent && k == FrameKind::OpenPerf {
            Step { accepted: true, next: DriverState::Opened, send_header: false, peer: None }
        } else if st == DriverState::BeginSent && k == FrameKind::BeginPerf {
            Step { accepted: true, next: DriverState::Mapped, send_header: false, peer: None }
        } else if st == DriverState::ReplyWaitAttachFlow && k == FrameKind::AttachPerf {
            Step { accepted: true, next: DriverState::AwaitFlow, send_header: false, peer: None }
        } else if st == DriverState::AwaitFlow && k == FrameKind::FlowPerf {
            Step { accepted: true, next: DriverState::Mapped, send_header: false, peer: None }
        } else if st == DriverState::ReplyWaitAttach && k == FrameKind::AttachPerf {
            Step { accepted: true, next: DriverState::Mapped, send_header: false, peer: None }
        } else if st == DriverState::ExpectDisposition && k == FrameKind::DispositionPerf {
            Step { accepted: true, next: DriverState::Mapped, send_header: false, peer: None }
        } else {
            Step { accepted: false, next: DriverState::Failed, send_header: false, peer: None }
        }
    }
}

pub open spec fn sasl_outcome_accepted(f: FrameV) -> bool {
    match f {
        FrameV::Sasl(sasl::FrameV::Outcome(o)) => o.code == sasl::Code::Accepted,
        _ => false,
    }
}

/// The SASL PLAIN initial response: a zero byte, the user, a zero byte, the
/// password.
pub open spec fn plain_response(user: Seq<u8>, password: Seq<u8>) -> Seq<u8> {
    seq![0u8] + user + seq![0u8] + password
}

/// The SaslInit frame a login sends.
pub open spec fn login_frame(user: Seq<u8>, password: Seq<u8>) -> FrameV {
    FrameV::Sasl(
        sasl::FrameV::Init(
            InitV {
                mechanism: Mechanism::Plain,
                initial_response: Some(plain_response(user, password)),
                hostname: None,
            },
        ),
    )
}

/// An Open that carries only the container id.
pub open spec fn plain_open(container_id: Seq<u8>) -> amqp::OpenV {
    amqp::OpenV {
        container_id,
        hostname: None,
        max_frame_size: None,
        channel_max: None,
        idle_timeout: None,
        outgoing_locales: None,
        incoming_locales: None,
        offered_capabilities: None,
        properties: None,
    }
}

/// The Begin with the driver's static windows.
pub open spec fn static_begin() -> amqp::BeginV {
    amqp::BeginV {
        remote_channel: None,
        next_outgoing_id: 1,
        incoming_window: 8,
        outgoing_window: 8,
        handle_max: None,
        offered_capabilities: None,
        desired_capabilities: None,
        properties: None,
    }
}

/// The client-side protocol driver.
pub struct Driver {
    pub state: DriverState,
    pub consumed: Ghost<Seq<FrameKind>>,
}

impl Driver {
    pub fn new() -> (r: Driver)
        ensures
            r.state == DriverState::Start,
            r.consumed@ == Seq::<FrameKind>::empty(),
    {
        Driver { state: DriverState::Start, consumed: Ghost(Seq::empty()) }
    }

    pub fn state(&self) -> (r: DriverState)
        ensures
            r == self.state,
    {
        self.state
    }

    /// The stream is connected: the SASL protocol header goes out first.
    pub fn connect_ok(&mut self) -> (r: Vec<u8>)
        requires
            old(self).state == DriverState::Start,
        ensures
            r@ == sasl_proto_header(),
            final(self).state == DriverState::SaslHeaderSent,
            final(self).consumed == old(self).consumed,
    {
        self.state = DriverState::SaslHeaderSent;
        let h = Protocol::Sasl.header();
        vstd::slice::slice_to_vec(h.as_slice())
    }

    /// Sends SASL PLAIN credentials once the mechanisms have arrived.
    pub fn login(&mut self, user: &[u8], password: &[u8]) -> (r: Result<Vec<u8>, Error>)
        requires
            old(self).state == DriverState::SaslInitReady,
        ensures
            final(self).consumed == old(self).consumed,
            match r {
                Ok(v) => enc_frame_ok(login_frame(user@, password@)) && v@ == enc_frame(
                    login_frame(user@, password@),
                ) && final(self).state == DriverState::SaslOutcomeWait,
                Err(e) => !enc_frame_ok(login_frame(user@, password@)) && e == Error::InvalidData
                    && final(self).state == old(self).state,
            },
    {
        let mut response: Vec<u8> = Vec::new();
        response.push(0);
        push_all(&mut response, user);
        response.push(0);
        push_all(&mut response, password);
        proof {
            assert(response@ =~= plain_response(user@, password@));
        }
        let frame = Frame::Sasl(
            sasl::Frame::Init(
                sasl::Init {
                    mechanism: Mechanism::Plain,
                    initial_response: Some(response),
                    hostname: None,
                },
            ),
        );
        let v = frame.to_vec()?;
        self.state = DriverState::SaslOutcomeWait;
        Ok(v)
    }

    /// Opens the connection with the given container id.
    pub fn open(&mut self, container_id: &[u8]) -> (r: Result<Vec<u8>, Error>)
        requires
            old(self).state == DriverState::AmqpHeaderSent,
        ensures
            final(self).consumed == old(self).consumed,
            match r {
                Ok(v) => final(self).state == DriverState::OpenSent && enc_frame_ok(
                    open_frame(plain_open(container_id@)),
                ) && v@ == enc_frame(open_frame(plain_open(container_id@))),
                Err(e) => !enc_frame_ok(open_frame(plain_open(container_id@))) && e
                    == Error::InvalidData && final(self).state == old(self).state,
            },
    {
        let mut open = Open::default();
        open.container_id = vstd::slice::slice_to_vec(container_id);
        proof {
            assert(open@ == plain_open(container_id@));
        }
        let frame = Frame::Amqp(
            amqp::Frame {
                channel: 0,
                extended_header: None,
                performative: amqp::Performative::Open(open),
                message: None,
            },
        );
        let v = frame.to_vec()?;
        self.state = DriverState::OpenSent;
        Ok(v)
    }

    /// Begins the session with the static windows.
    pub fn begin(&mut self) -> (r: Result<Vec<u8>, Error>)
        requires
            old(self).state == DriverState::Opened,
        ensures
            final(self).consumed == old(self).consumed,
            match r {
                Ok(v) => final(self).state == DriverState::BeginSent && enc_frame_ok(
                    begin_frame(static_begin()),
                ) && v@ == enc_frame(begin_frame(static_begin())),
                Err(e) => !enc_frame_ok(begin_frame(static_begin())) && e == Error::InvalidData
                    && final(self).state == old(self).state,
            },
    {
        let mut begin = amqp::Begin::default();
        begin.next_outgoing_id = 1;
        begin.incoming_window = 8;
        begin.outgoing_window = 8;
        proof {
            assert(begin@ == static_begin());
        }
        let frame = Frame::Amqp(
            amqp::Frame {
                channel: 0,
                extended_header: None,
                performative: amqp::Performative::Begin(begin),
                message: None,
            },
        );
        let v = frame.to_vec()?;
        self.state = DriverState::BeginSent;
        Ok(v)
    }

    /// Attaches a link; a sender expects the peer's Attach and then a Flow,
    /// a receiver only the Attach.
    pub fn attach(&mut self, attach: Attach) -> (r: Result<Vec<u8>, Error>)
        requires
            old(self).state == DriverState::Mapped,
        ensures
            final(self).consumed == old(self).consumed,
            match r {
                Ok(v) => enc_frame_ok(attach_frame(attach@)) && v@ == enc_frame(
                    attach_frame(attach@),
                ) && final(self).state == (if attach@.role == Role::Sender {
                    DriverState::ReplyWaitAttachFlow
                } else {
                    DriverState::ReplyWaitAttach
                }),
                Err(e) => !enc_frame_ok(attach_frame(attach@)) && e == Error::InvalidData && final(self).state == old(self).state,
            },
    {
        let is_sender = match attach.role {
            Role::Sender => true,
            Role::Receiver => false,
        };
        let frame = Frame::Amqp(
            amqp::Frame {
                channel: 0,
                extended_header: None,
                performative: amqp::Performative::Attach(attach),
                message: None,
            },
        );
        let v = frame.to_vec()?;
        self.state = if is_sender {
            DriverState::ReplyWaitAttachFlow
        } else {
            DriverState::ReplyWaitAttach
        };
        Ok(v)
    }

    /// Grants credit on a receiving link; no reply is expected.
    pub fn flow(&mut self, flow: Flow) -> (r: Result<Vec<u8>, Error>)
        requires
            old(self).state == DriverState::Mapped,
        ensures
            final(self).consumed == old(self).consumed,
            final(self).state == old(self).state,
            match r {
                Ok(v) => enc_frame_ok(flow_frame(flow@)) && v@ == enc_frame(flow_frame(flow@)),
                Err(e) => !enc_frame_ok(flow_frame(flow@)) && e == Error::InvalidData,
            },
    {
        let frame = Frame::Amqp(
            amqp::Frame {
                channel: 0,
                extended_header: None,
                performative: amqp::Performative::Flow(flow),
                message: None,
            },
        );
        let v = frame.to_vec()?;
        Ok(v)
    }

    /// Sends a transfer with its message and awaits the disposition.
    pub fn transfer(&mut self, transfer: Transfer, message: Message) -> (r: Result<Vec<u8>, Error>)
        requires
            old(self).state == DriverState::Mapped,
        ensures
            final(self).consumed == old(self).consumed,
            match r {
                Ok(v) => enc_frame_ok(transfer_frame(transfer@, message@)) && v@ == enc_frame(
                    transfer_frame(transfer@, message@),
                ) && final(self).state == DriverState::ExpectDisposition,
                Err(e) => !enc_frame_ok(transfer_frame(transfer@, message@)) && e
                    == Error::InvalidData && final(self).state == old(self).state,
            },
    {
        let frame = Frame::Amqp(
            amqp::Frame {
                channel: 0,
                extended_header: None,
                performative: amqp::Performative::Transfer(transfer),
                message: Some(message),
            },
        );
        let v = frame.to_vec()?;
        self.state = DriverState::ExpectDisposition;
        Ok(v)
    }

    /// Consumes one received frame: advances by the state table, records the
    /// frame's kind in the consumed log, and yields the AMQP protocol header
    /// when the SASL exchange has just completed.
    pub fn handle_frame(&mut self, f: &Frame) -> (r: Result<Option<Vec<u8>>, Error>)
        ensures
            ({
                let step = drive(old(self).state, f@);
                &&& final(self).state == step.next
                &&& if step.accepted {
                    &&& final(self).consumed@ == old(self).consumed@.push(frame_kind(f@))
                    &&& match r {
                        Ok(o) => if step.send_header {
                            match o {
                                Some(v) => v@ == amqp_proto_header(),
                                None => false,
                            }
                        } else {
                            o is None
                        },
                        Err(_) => false,
                    }
                } else {
                    &&& final(self).consumed == old(self).consumed
                    &&& match (r, step.peer) {
                        (Err(Error::PeerError { condition, description }), Some(ec)) => condition@
                            == ec.condition && description@ == ec.description,
                        (Err(e), None) => e == Error::InvalidData,
                        _ => false,
                    }
                }
            }),
    {
        match peer_error_surfaced(f) {
            Some(e) => {
                self.state = DriverState::Failed;
                return Err(e);
            },
            None => (),
        }
        let k = exec_frame_kind(f);
        let outcome_ok = match f {
            Frame::Sasl(sasl::Frame::Outcome(o)) => match o.code {
                sasl::Code::Accepted => true,
                _ => false,
            },
            _ => false,
        };
        let st = self.state;
        if st == DriverState::SaslHeaderSent && k == FrameKind::HeaderSasl {
            self.advance(DriverState::SaslMechanisms, Ghost(frame_kind(f@)));
            Ok(None)
        } else if st == DriverState::SaslMechanisms && k == FrameKind::Mechanisms {
            self.advance(DriverState::SaslInitReady, Ghost(frame_kind(f@)));
            Ok(None)
        } else if st == DriverState::SaslOutcomeWait && k == FrameKind::SaslOutcome && outcome_ok {
            self.advance(DriverState::SaslOutcomeOk, Ghost(frame_kind(f@)));
            Ok(None)
        } else if st == DriverState::SaslOutcomeOk && k == FrameKind::HeaderAmqp {
            self.advance(DriverState::AmqpHeaderSent, Ghost(frame_kind(f@)));
            let h = Protocol::Amqp.header();
            Ok(Some(vstd::slice::slice_to_vec(h.as_slice())))
        } else if st == DriverState::OpenSent && k == FrameKind::OpenPerf {
            self.advance(DriverState::Opened, Ghost(frame_kind(f@)));
            Ok(None)
        } else if st == DriverState::BeginSent && k == FrameKind::BeginPerf {
            self.advance(DriverState::Mapped, Ghost(frame_kind(f@)));
            Ok(None)
        } else if st == DriverState::ReplyWaitAttachFlow && k == FrameKind::AttachPerf {
            self.advance(DriverState::AwaitFlow, Ghost(frame_kind(f@)));
            Ok(None)
        } else if st == DriverState::AwaitFlow && k == FrameKind::FlowPerf {
            self.advance(DriverState::Mapped, Ghost(frame_kind(f@)));
            Ok(None)
        } else if st == DriverState::ReplyWaitAttach && k == FrameKind::AttachPerf {
            self.advance(DriverState::Mapped, Ghost(frame_kind(f@)));
            Ok(None)
        } else if st == DriverState::ExpectDisposition && k == FrameKind::DispositionPerf {
            self.advance(DriverState::Mapped, Ghost(frame_kind(f@)));
            Ok(None)
        } else {
            self.state = DriverState::Failed;
            Err(Error::InvalidData)
        }
    }

    fn advance(&mut self, next: DriverState, k: Ghost<FrameKind>)
        ensures
            final(self).state == next,
            final(self).consumed@ == old(self).consumed@.push(k@),
    {
        self.state = next;
        proof {
            self.consumed@ = self.consumed@.push(k@);
        }
    }
}

/// The frames the driver sends, as whole wire frames on channel 0.
pub open spec fn open_frame(o: amqp::OpenV) -> FrameV {
    FrameV::Amqp(
        amqp::FrameV {
            channel: 0,
            extended_header: None,
            performative: PerformativeV::Open(o),
            message: None,
        },
    )
}

pub open spec fn begin_frame(b: amqp::BeginV) -> FrameV {
    FrameV::Amqp(
        amqp::FrameV {
            channel: 0,
            extended_header: None,
            performative: PerformativeV::Begin(b),
            message: None,
        },
    )
}

pub open spec fn attach_frame(a: amqp::AttachV) -> FrameV {
    FrameV::Amqp(
        amqp::FrameV {
            channel: 0,
            extended_header: None,
            performative: PerformativeV::Attach(a),
            message: None,
        },
    )
}

pub open spec fn flow_frame(x: amqp::FlowV) -> FrameV {
    FrameV::Amqp(
        amqp::FrameV {
            channel: 0,
            extended_header: None,
            performative: PerformativeV::Flow(x),
            message: None,
        },
    )
}

pub open spec fn transfer_frame(t: amqp::TransferV, m: amqp::MessageV) -> FrameV {
    FrameV::Amqp(
        amqp::FrameV {
            channel: 0,
            extended_header: None,
            performative: PerformativeV::Transfer(t),
            message: Some(m),
        },
    )
}

/// Extracts a peer-surfaced error from a received frame.
fn peer_error_surfaced(f: &Frame) -> (r: Option<Error>)
    ensures
        match peer_error_of(f@) {
            Some(ec) => match r {
                Some(Error::PeerError { condition, description }) => condition@ == ec.condition
                    && description@ == ec.description,
                _ => false,
            },
            None => r is None,
        },
{
    match f {
        Frame::Amqp(af) => match &af.performative {
            amqp::Performative::Close(c) => match &c.error {
                Some(ec) => Some(
                    Error::PeerError {
                        condition: vstd::slice::slice_to_vec(ec.condition.as_slice()),
                        description: vstd::slice::slice_to_vec(ec.description.as_slice()),
                    },
                ),
                None => None,
            },
            amqp::Performative::Detach(dt) => match &dt.error {
                Some(ec) => Some(
                    Error::PeerError {
                        condition: vstd::slice::slice_to_vec(ec.condition.as_slice()),
                        description: vstd::slice::slice_to_vec(ec.description.as_slice()),
                    },
                ),
                None => None,
            },
            _ => None,
        },
        _ => None,
    }
}

/// Classifies a received frame.
fn exec_frame_kind(f: &Frame) -> (r: FrameKind)
    ensures
        r == frame_kind(f@),
{
    match f {
        Frame::Header(Protocol::Sasl) => FrameKind::HeaderSasl,
        Frame::Header(Protocol::Amqp) => FrameKind::HeaderAmqp,
        Frame::Sasl(sasl::Frame::Mechanisms(_)) => FrameKind::Mechanisms,
        Frame::Sasl(sasl::Frame::Outcome(_)) => FrameKind::SaslOutcome,
        Frame::Sasl(sasl::Frame::Init(_)) => FrameKind::Other,
        Frame::Amqp(af) => match &af.performative {
            amqp::Performative::Open(_) => FrameKind::OpenPerf,
            amqp::Performative::Begin(_) => FrameKind::BeginPerf,
            amqp::Performative::Attach(_) => FrameKind::AttachPerf,
            amqp::Performative::Flow(_) => FrameKind::FlowPerf,
            amqp::Performative::Disposition(_) => FrameKind::DispositionPerf,
            _ => FrameKind::Other,
        },
    }
}

/// A successful login exchange consumes one SASL header, one Mechanisms,
/// one accepted Outcome and one AMQP header — and nothing else: those are
/// the only frames the four states on the way accept, and the last step
/// hands back the AMQP protocol header to send.
pub proof fn lemma_login_consumes(f1: FrameV, f2: FrameV, f3: FrameV, f4: FrameV)
    requires
        drive(DriverState::SaslHeaderSent, f1).accepted,
        drive(drive(DriverState::SaslHeaderSent, f1).next, f2).accepted,
        drive(drive(drive(DriverState::SaslHeaderSent, f1).next, f2).next, f3).accepted,
        drive(
            drive(drive(drive(DriverState::SaslHeaderSent, f1).next, f2).next, f3).next,
            f4,
        ).accepted,
    ensures
        frame_kind(f1) == FrameKind::HeaderSasl,
        frame_kind(f2) == FrameKind::Mechanisms,
        frame_kind(f3) == FrameKind::SaslOutcome,
        sasl_outcome_accepted(f3),
        frame_kind(f4) == FrameKind::HeaderAmqp,
        drive(
            drive(drive(drive(DriverState::SaslHeaderSent, f1).next, f2).next, f3).next,
            f4,
        ).next == DriverState::AmqpHeaderSent,
        drive(
            drive(drive(drive(DriverState::SaslHeaderSent, f1).next, f2).next, f3).next,
            f4,
        ).send_header,
{
    assert(drive(DriverState::SaslHeaderSent, f1).next == DriverState::SaslMechanisms);
    assert(drive(DriverState::SaslMechanisms, f2).next == DriverState::SaslInitReady);
}

/// The receive half of a login: from the state after the SaslInit was sent,
/// only an accepted Outcome advances, and only an AMQP header after it.
pub proof fn lemma_login_outcome_gate(f: FrameV)
    requires
        drive(DriverState::SaslOutcomeWait, f).accepted,
    ensures
        sasl_outcome_accepted(f),
        drive(DriverState::SaslOutcomeWait, f).next == DriverState::SaslOutcomeOk,
{
}

/// After a successful sender attach the driver stands in the state that
/// accepts only the peer's Attach, and after that only a Flow: the next
/// unread frame after the attach exchange must be the peer's Flow.
pub proof fn lemma_sender_attach_then_flow(f1: FrameV, f2: FrameV)
    requires
        drive(DriverState::ReplyWaitAttachFlow, f1).accepted,
        drive(drive(DriverState::ReplyWaitAttachFlow, f1).next, f2).accepted,
    ensures
        frame_kind(f1) == FrameKind::AttachPerf,
        drive(DriverState::ReplyWaitAttachFlow, f1).next == DriverState::AwaitFlow,
        frame_kind(f2) == FrameKind::FlowPerf,
        drive(drive(DriverState::ReplyWaitAttachFlow, f1).next, f2).next == DriverState::Mapped,
{
}

} // verus!
