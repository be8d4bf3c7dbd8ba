//! The session state machine: one linear pass over a client connection,
//! greeting → request → connect → reply → forward. Each step consumes an
//! observed event (bytes read, a completed write, the dialer's outcome) and
//! yields the next state together with the single action the driver must
//! perform next. All protocol decisions are made here; the driver only
//! performs I/O as directed.

use vstd::prelude::*;
use crate::protocol::{
    ProtocolError, AddrKind, SOCKS_VERSION, CMD_CONNECT, ATYP_IPV4, ATYP_DOMAIN, auth_reply,
    auth_reply_spec, connect_reply, connect_reply_spec, parse_greeting, parse_request_header,
};
use crate::target::{ipv4_target, ipv4_target_spec, domain_target, domain_target_spec, port_val};

verus! {

/// Where a session stands. A session starts in `AwaitGreeting` and moves
/// through these states in one pass; `Forwarding` and `Failed` are terminal.
#[derive(Debug, Clone, Copy, PartialEq, Eq, Structural)]
pub enum State {
    /// Expecting the 2-byte greeting header: version, method count.
    AwaitGreeting,
    /// Expecting the `nmethods` offered method bytes, which are discarded.
    AwaitMethods { nmethods: u8 },
    /// The auth reply is being written.
    SendingAuthReply,
    /// Expecting the 4-byte request header: version, command, reserved,
    /// address type.
    AwaitRequest,
    /// Expecting 4 IPv4 address bytes and 2 port bytes.
    AwaitIpv4,
    /// Expecting the 1-byte domain name length.
    AwaitDomainLen,
    /// Expecting `len` domain name bytes and 2 port bytes.
    AwaitDomain { len: u8 },
    /// The dialer is connecting to the target.
    Connecting,
    /// The success reply is being written.
    SendingSuccessReply,
    /// The failure reply is being written.
    SendingFailureReply,
    /// Both streams belong to the forwarder now; the session's protocol
    /// work is done.
    Forwarding,
    /// The session is over with an error.
    Failed,
}

/// What the driver observed while performing the last action.
#[derive(Debug, PartialEq, Eq)]
pub enum Event {
    /// The requested number of bytes, read in full.
    Bytes(Vec<u8>),
    /// The requested frame was written in full.
    WriteDone,
    /// The dialer yielded a stream to the target.
    ConnectOk,
    /// The dialer failed; the driver keeps the underlying error.
    ConnectFailed,
}

/// The mathematical value of an [`Event`].
pub ghost enum EventModel {
    Bytes(Seq<u8>),
    WriteDone,
    ConnectOk,
    ConnectFailed,
}

impl View for Event {
    type V = EventModel;

    open spec fn view(&self) -> EventModel {
        match self {
            Event::Bytes(b) => EventModel::Bytes(b@),
            Event::WriteDone => EventModel::WriteDone,
            Event::ConnectOk => EventModel::ConnectOk,
            Event::ConnectFailed => EventModel::ConnectFailed,
        }
    }
}

/// What the driver must do next.
#[derive(Debug, PartialEq, Eq)]
pub enum Action {
    /// Read exactly this many bytes from the client and report them.
    Read(usize),
    /// Write exactly these bytes to the client and report completion.
    Write(Vec<u8>),
    /// Dial this `host:port` target and report the outcome.
    Connect(String),
    /// Hand both streams to the bidirectional forwarder; the session's
    /// protocol work is complete.
    Forward,
    /// Terminate the session with this protocol error.
    FailProtocol(ProtocolError),
    /// Terminate the session, propagating the dialer's error.
    FailConnect,
}

/// The mathematical value of an [`Action`].
pub ghost enum ActionModel {
    Read(nat),
    Write(Seq<u8>),
    Connect(Seq<char>),
    Forward,
    FailProtocol(ProtocolError),
    FailConnect,
}

impl View for Action {
    type V = ActionModel;

    open spec fn view(&self) -> ActionModel {
        match self {
            Action::Read(n) => ActionModel::Read(*n as nat),
            Action::Write(b) => ActionModel::Write(b@),
            Action::Connect(t) => ActionModel::Connect(t@),
            Action::Forward => ActionModel::Forward,
            Action::FailProtocol(e) => ActionModel::FailProtocol(*e),
            Action::FailConnect => ActionModel::FailConnect,
        }
    }
}

/// Whether `e` is the event the machine awaits in state `s`: the driver
/// reports exactly the bytes that were asked for, a write completion only
/// while a write is pending, and a dial outcome only while connecting.
/// Terminal states accept no event.
pub open spec fn event_fits(s: State, e: EventModel) -> bool {
    match (s, e) {
        (State::AwaitGreeting, EventModel::Bytes(b)) => b.len() == 2,
        (State::AwaitMethods { nmethods }, EventModel::Bytes(b)) => b.len() == nmethods as nat,
        (State::SendingAuthReply, EventModel::WriteDone) => true,
        (State::AwaitRequest, EventModel::Bytes(b)) => b.len() == 4,
        (State::AwaitIpv4, EventModel::Bytes(b)) => b.len() == 6,
        (State::AwaitDomainLen, EventModel::Bytes(b)) => b.len() == 1,
        (State::AwaitDomain { len }, EventModel::Bytes(b)) => b.len() == len as nat + 2,
        (State::Connecting, EventModel::ConnectOk) => true,
        (State::Connecting, EventModel::ConnectFailed) => true,
        (State::SendingSuccessReply, EventModel::WriteDone) => true,
        (State::SendingFailureReply, EventModel::WriteDone) => true,
        _ => false,
    }
}

/// The transition relation of the session, as a function on models. It is
/// meaningful only for pairs admitted by [`event_fits`]; every other pair is
/// mapped to the failed state.
pub open spec fn step_model(s: State, e: EventModel) -> (State, ActionModel) {
    match (s, e) {
        (State::AwaitGreeting, EventModel::Bytes(b)) => {
            if b[0] == SOCKS_VERSION {
                ((State::AwaitMethods { nmethods: b[1] }), ActionModel::Read(b[1] as nat))
            } else {
                (State::Failed, ActionModel::FailProtocol(ProtocolError::BadVersion))
            }
        },
        (State::AwaitMethods { nmethods: _ }, EventModel::Bytes(_)) => (
            State::SendingAuthReply,
            ActionModel::Write(auth_reply_spec()),
        ),
        (State::SendingAuthReply, EventModel::WriteDone) => (
            State::AwaitRequest,
            ActionModel::Read(4),
        ),
        (State::AwaitRequest, EventModel::Bytes(b)) => {
            if b[0] != SOCKS_VERSION {
                (State::Failed, ActionModel::FailProtocol(ProtocolError::BadVersion))
            } else if b[1] != CMD_CONNECT {
                (State::Failed, ActionModel::FailProtocol(ProtocolError::UnsupportedCommand))
            } else if b[3] == ATYP_IPV4 {
                (State::AwaitIpv4, ActionModel::Read(6))
            } else if b[3] == ATYP_DOMAIN {
                (State::AwaitDomainLen, ActionModel::Read(1))
            } else {
                (State::Failed, ActionModel::FailProtocol(ProtocolError::UnsupportedAddressType))
            }
        },
        (State::AwaitIpv4, EventModel::Bytes(b)) => (
            State::Connecting,
            ActionModel::Connect(ipv4_target_spec(b[0], b[1], b[2], b[3], port_val(b[4], b[5]))),
        ),
        (State::AwaitDomainLen, EventModel::Bytes(b)) => (
            (State::AwaitDomain { len: b[0] }),
            ActionModel::Read(b[0] as nat + 2),
        ),
        (State::AwaitDomain { len }, EventModel::Bytes(b)) => (
            State::Connecting,
            ActionModel::Connect(
                domain_target_spec(
                    b.subrange(0, b.len() as int - 2),
                    port_val(b[b.len() as int - 2], b[b.len() as int - 1]),
                ),
            ),
        ),
        (State::Connecting, EventModel::ConnectOk) => (
            State::SendingSuccessReply,
            ActionModel::Write(connect_reply_spec(true)),
        ),
        (State::Connecting, EventModel::ConnectFailed) => (
            State::SendingFailureReply,
            ActionModel::Write(connect_reply_spec(false)),
        ),
        (State::SendingSuccessReply, EventModel::WriteDone) => (
            State::Forwarding,
            ActionModel::Forward,
        ),
        (State::SendingFailureReply, EventModel::WriteDone) => (
            State::Failed,
            ActionModel::FailConnect,
        ),
        _ => (State::Failed, ActionModel::FailConnect),
    }
}

/// How far through its single pass a session has come. Distinct phases are
/// ordered; the two states that await a destination descriptor share one
/// rank, as do the two reply-writing states and the two terminal states —
/// no session visits both members of such a pair.
pub open spec fn phase(s: State) -> nat {
    match s {
        State::AwaitGreeting => 0,
        State::AwaitMethods { .. } => 1,
        State::SendingAuthReply => 2,
        State::AwaitRequest => 3,
        State::AwaitIpv4 => 4,
        State::AwaitDomainLen => 4,
        State::AwaitDomain { .. } => 5,
        State::Connecting => 6,
        State::SendingSuccessReply => 7,
        State::SendingFailureReply => 7,
        State::Forwarding => 8,
        State::Failed => 8,
    }
}

/// Where a session begins: awaiting the 2-byte greeting header.
pub fn session_start() -> (r: (State, Action))
    ensures
        r.0 == State::AwaitGreeting,
        r.1@ == ActionModel::Read(2),
{
    (State::AwaitGreeting, Action::Read(2))
}

/// Advances the session by one step, exactly as [`step_model`] says.
pub fn step(s: State, e: Event) -> (r: (State, Action))
    requires
        event_fits(s, e@),
    ensures
        r.0 == step_model(s, e@).0,
        r.1@ == step_model(s, e@).1,
{
    match (s, e) {
        (State::AwaitGreeting, Event::Bytes(b)) => match parse_greeting(&b) {
            Ok(n) => ((State::AwaitMethods { nmethods: n }), Action::Read(n as usize)),
            Err(err) => (State::Failed, Action::FailProtocol(err)),
        },
        (State::AwaitMethods { nmethods: _ }, Event::Bytes(_)) => (
            State::SendingAuthReply,
            Action::Write(auth_reply()),
        ),
        (State::SendingAuthReply, Event::WriteDone) => (State::AwaitRequest, Action::Read(4)),
        (State::AwaitRequest, Event::Bytes(b)) => match parse_request_header(&b) {
            Ok(AddrKind::Ipv4) => (State::AwaitIpv4, Action::Read(6)),
            Ok(AddrKind::Domain) => (State::AwaitDomainLen, Action::Read(1)),
            Err(err) => (State::Failed, Action::FailProtocol(err)),
        },
        (State::AwaitIpv4, Event::Bytes(b)) => (
            State::Connecting,
            Action::Connect(ipv4_target(&b)),
        ),
        (State::AwaitDomainLen, Event::Bytes(b)) => {
            let len = b[0];
            ((State::AwaitDomain { len }), Action::Read(len as usize + 2))
        },
        (State::AwaitDomain { len: _ }, Event::Bytes(b)) => (
            State::Connecting,
            Action::Connect(domain_target(&b)),
        ),
        (State::Connecting, Event::ConnectOk) => (
            State::SendingSuccessReply,
            Action::Write(connect_reply(true)),
        ),
        (State::Connecting, Event::ConnectFailed) => (
            State::SendingFailureReply,
            Action::Write(connect_reply(false)),
        ),
        (State::SendingSuccessReply, Event::WriteDone) => (State::Forwarding, Action::Forward),
        (State::SendingFailureReply, Event::WriteDone) => (State::Failed, Action::FailConnect),
        _ => (State::Failed, Action::FailConnect),
    }
}

/// A session never branches back: every step moves to a strictly later
/// phase. A write is issued only on entering the auth-reply state and on
/// entering one of the two connect-reply states, so each session writes the
/// auth reply at most once and a CONNECT reply at most once.
pub proof fn lemma_single_pass(s: State, e: EventModel)
    requires
        event_fits(s, e),
    ensures
        phase(step_model(s, e).0) > phase(s),
        step_model(s, e).1 is Write ==> s is AwaitMethods || s is Connecting,
        s is AwaitMethods ==> step_model(s, e).1 == ActionModel::Write(auth_reply_spec()),
        s is Connecting ==> step_model(s, e).1 == ActionModel::Write(
            connect_reply_spec(e is ConnectOk),
        ),
{
}

/// For every valid greeting — version 5, any NMETHODS in 0..=255 — the
/// machine asks to read exactly NMETHODS method bytes, and once they arrive,
/// whatever they hold, the next action is to write exactly the auth reply
/// `[0x05, 0x00]`.
pub proof fn lemma_greeting_consumes_methods(g: Seq<u8>, methods: Seq<u8>)
    requires
        g.len() == 2,
        g[0] == SOCKS_VERSION,
        methods.len() == g[1] as nat,
    ensures
        step_model(State::AwaitGreeting, EventModel::Bytes(g)) == ((
            State::AwaitMethods { nmethods: g[1] }
        ), ActionModel::Read(g[1] as nat)),
        event_fits((State::AwaitMethods { nmethods: g[1] }), EventModel::Bytes(methods)),
        step_model((State::AwaitMethods { nmethods: g[1] }), EventModel::Bytes(methods)) == (
            State::SendingAuthReply,
            ActionModel::Write(auth_reply_spec()),
        ),
        auth_reply_spec() == seq![0x05u8, 0x00u8],
{
    assert(auth_reply_spec() =~= seq![0x05u8, 0x00u8]);
}

/// A greeting whose version byte is not 5 terminates the session at once
/// with a protocol error: the action is not a write — no bytes go to the
/// client — and the failed state accepts no further event.
pub proof fn lemma_bad_greeting_version_writes_nothing(g: Seq<u8>)
    requires
        g.len() == 2,
        g[0] != SOCKS_VERSION,
    ensures
        step_model(State::AwaitGreeting, EventModel::Bytes(g)) == (
            State::Failed,
            ActionModel::FailProtocol(ProtocolError::BadVersion),
        ),
        forall|e: EventModel| !event_fits(State::Failed, e),
{
}

/// A CONNECT request naming an unsupported address type — IPv6, or any
/// value other than IPv4 and domain — fails with an unsupported-address-type
/// error; no CONNECT reply (no write at all) is issued, and the failed state
/// accepts no further event.
pub proof fn lemma_unsupported_atyp_no_reply(h: Seq<u8>)
    requires
        h.len() == 4,
        h[0] == SOCKS_VERSION,
        h[1] == CMD_CONNECT,
        h[3] != ATYP_IPV4,
        h[3] != ATYP_DOMAIN,
    ensures
        step_model(State::AwaitRequest, EventModel::Bytes(h)) == (
            State::Failed,
            ActionModel::FailProtocol(ProtocolError::UnsupportedAddressType),
        ),
        forall|e: EventModel| !event_fits(State::Failed, e),
{
}

/// When the dialer fails, the machine writes exactly the failure reply
/// `[0x05, 0x04, 0x00, 0x01, 0,0,0,0, 0,0]` to the client and then
/// terminates the session, propagating the dialer's error.
pub proof fn lemma_connect_failure_reply()
    ensures
        step_model(State::Connecting, EventModel::ConnectFailed) == (
            State::SendingFailureReply,
            ActionModel::Write(connect_reply_spec(false)),
        ),
        connect_reply_spec(false) == seq![
            0x05u8,
            0x04u8,
            0x00u8,
            0x01u8,
            0u8,
            0u8,
            0u8,
            0u8,
            0u8,
            0u8,
        ],
        step_model(State::SendingFailureReply, EventModel::WriteDone) == (
            State::Failed,
            ActionModel::FailConnect,
        ),
{
    assert(connect_reply_spec(false) =~= seq![
        0x05u8,
        0x04u8,
        0x00u8,
        0x01u8,
        0u8,
        0u8,
        0u8,
        0u8,
        0u8,
        0u8,
    ]);
}

/// When the dialer succeeds, the machine writes exactly the success reply
/// `[0x05, 0x00, 0x00, 0x01, 0,0,0,0, 0,0]` to the client and then hands
/// both streams to the bidirectional forwarder.
pub proof fn lemma_connect_success_then_forward()
    ensures
        step_model(State::Connecting, EventModel::ConnectOk) == (
            State::SendingSuccessReply,
            ActionModel::Write(connect_reply_spec(true)),
        ),
        connect_reply_spec(true) == seq![
            0x05u8,
            0x00u8,
            0x00u8,
            0x01u8,
            0u8,
            0u8,
            0u8,
            0u8,
            0u8,
            0u8,
        ],
        step_model(State::SendingSuccessReply, EventModel::WriteDone) == (
            State::Forwarding,
            ActionModel::Forward,
        ),
{
    assert(connect_reply_spec(true) =~= seq![
        0x05u8,
        0x00u8,
        0x00u8,
        0x01u8,
        0u8,
        0u8,
        0u8,
        0u8,
        0u8,
        0u8,
    ]);
}

} // verus!
