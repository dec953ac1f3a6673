//! The dispatcher: one invocation of the bridge as a sequence of steps.
//!
//! A [`Session`] performs nothing itself. It hands the driver one [`Action`] at
//! a time; the driver performs it and reports the [`Event`] that it led to,
//! until the action is [`Action::Finish`]. The driver then prints the output,
//! if there is one, closes the channel if it opened one, and exits with the
//! status of the error.
//!
//! | command     | steps                                             | output            |
//! |-------------|---------------------------------------------------|-------------------|
//! | `connect`   | connect, retrying                                 | none              |
//! | `init`      | launch, connect, retrying                         | the new address   |
//! | `exec`      | connect once, send `response:<payload>`, receive  | the reply         |
//! | `terminate` | connect once, send `terminate:<message>`, receive | `0x`              |

use crate::abi::{abi_string, address_output, empty_output, output_text, ABI_TEXT_MAX};
use crate::address::{
    address_text, channel_address, lemma_address_shape, platform_name_kind, random_suffix,
    NameKind,
};
use crate::command::{
    parse_invocation, parsed_invocation, request_text, Invocation, InvocationView,
};
use crate::connector::{Connector, Decision, HANDSHAKE_RETRIES, RETRY_INTERVAL_MS};
use crate::error::{frame_failure, BridgeError};
use crate::frame::{
    decode_frame, encode_frame, is_payload, lemma_frame_round_trip, received_frame, wire_frame,
    RECEIVE_LIMIT,
};
use crate::launcher::{companion_arguments, launch_arguments};
use vstd::prelude::*;
use vstd::string::*;
use vstd::utf8::*;

verus! {

/// What a session is waiting for.
#[derive(Clone, Copy, Debug, PartialEq, Eq, Structural)]
pub enum Phase {
    /// The companion is being started.
    Launching,
    /// An attempt to open the channel is under way.
    Connecting,
    /// The wait before the next attempt is under way.
    Waiting,
    /// The request is being written.
    Sending,
    /// The reply is being read.
    Receiving,
    /// The invocation is over.
    Finished,
}

/// What the driver reports of the action it performed.
#[derive(Debug, PartialEq, Eq)]
pub enum Event {
    /// The companion was started.
    Launched,
    /// The companion could not be started.
    LaunchFailed,
    /// The channel is open.
    Connected,
    /// The channel could not be opened.
    ConnectFailed,
    /// The wait is over.
    Slept,
    /// The bytes were written.
    Sent,
    /// Writing failed.
    SendFailed,
    /// What was read: the bytes up to and including the first delimiter, or
    /// up to where the peer closed the channel, or as many as the limit.
    Received { bytes: Vec<u8> },
    /// Reading failed.
    ReceiveFailed,
}

/// An event as plain values.
pub enum EventView {
    Launched,
    LaunchFailed,
    Connected,
    ConnectFailed,
    Slept,
    Sent,
    SendFailed,
    Received { bytes: Seq<u8> },
    ReceiveFailed,
}

impl View for Event {
    type V = EventView;

    open spec fn view(&self) -> EventView {
        match self {
            Event::Launched => EventView::Launched,
            Event::LaunchFailed => EventView::LaunchFailed,
            Event::Connected => EventView::Connected,
            Event::ConnectFailed => EventView::ConnectFailed,
            Event::Slept => EventView::Slept,
            Event::Sent => EventView::Sent,
            Event::SendFailed => EventView::SendFailed,
            Event::Received { bytes } => EventView::Received { bytes: bytes@ },
            Event::ReceiveFailed => EventView::ReceiveFailed,
        }
    }
}

/// What the driver is to do next.
#[derive(Debug, PartialEq, Eq)]
pub enum Action {
    /// Start the program with these arguments, its standard streams
    /// discarded, and do not wait for it.
    Launch { program: String, args: Vec<String> },
    /// Try once to open the channel.
    Connect { address: String },
    /// Wait.
    Sleep { millis: u64 },
    /// Write these bytes to the channel.
    Send { bytes: Vec<u8> },
    /// Read from the channel up to and including the first delimiter, and no
    /// more than `limit` bytes.
    Receive { limit: usize },
    /// Print the output, if any, to standard output, and exit: with status
    /// zero without an error, non-zero with one.
    Finish { output: Option<String>, error: Option<BridgeError> },
}

/// An action as plain values.
pub enum ActionView {
    Launch { program: Seq<char>, args: Seq<Seq<char>> },
    Connect { address: Seq<char> },
    Sleep { millis: u64 },
    Send { bytes: Seq<u8> },
    Receive { limit: usize },
    Finish { output: Option<Seq<char>>, error: Option<BridgeError> },
}

impl View for Action {
    type V = ActionView;

    open spec fn view(&self) -> ActionView {
        match self {
            Action::Launch { program, args } => ActionView::Launch {
                program: program@,
                args: args.deep_view(),
            },
            Action::Connect { address } => ActionView::Connect { address: address@ },
            Action::Sleep { millis } => ActionView::Sleep { millis: *millis },
            Action::Send { bytes } => ActionView::Send { bytes: bytes@ },
            Action::Receive { limit } => ActionView::Receive { limit: *limit },
            Action::Finish { output, error } => ActionView::Finish {
                output: match output {
                    Some(text) => Some(text@),
                    None => None,
                },
                error: *error,
            },
        }
    }
}

/// One invocation of the bridge, between two steps.
pub struct Session {
    invocation: Invocation,
    address: String,
    connector: Connector,
    phase: Phase,
}

/// A session as plain values.
pub struct SessionView {
    /// What was asked for.
    pub invocation: InvocationView,
    /// The channel of this invocation: the one named on the command line, or
    /// for `init` the new one.
    pub address: Seq<char>,
    /// The retries that are left.
    pub connector: Connector,
    /// What the session is waiting for.
    pub phase: Phase,
}

impl View for Session {
    type V = SessionView;

    closed spec fn view(&self) -> SessionView {
        SessionView {
            invocation: self.invocation@,
            address: self.address@,
            connector: self.connector,
            phase: self.phase,
        }
    }
}

/// The first step of an invocation. `fresh` is the address to give to a new
/// companion; only `init` uses it.
pub open spec fn begun(invocation: InvocationView, fresh: Seq<char>) -> (SessionView, ActionView) {
    match invocation {
        InvocationView::Init { program, args } => (
            SessionView {
                invocation,
                address: fresh,
                connector: Connector {
                    retries_left: HANDSHAKE_RETRIES,
                    interval_ms: RETRY_INTERVAL_MS,
                },
                phase: Phase::Launching,
            },
            ActionView::Launch { program, args: launch_arguments(args, fresh) },
        ),
        InvocationView::Connect { address } => (
            SessionView {
                invocation,
                address,
                connector: Connector {
                    retries_left: HANDSHAKE_RETRIES,
                    interval_ms: RETRY_INTERVAL_MS,
                },
                phase: Phase::Connecting,
            },
            ActionView::Connect { address },
        ),
        InvocationView::Exec { address, payload } => (
            SessionView {
                invocation,
                address,
                connector: Connector { retries_left: 0, interval_ms: RETRY_INTERVAL_MS },
                phase: Phase::Connecting,
            },
            ActionView::Connect { address },
        ),
        InvocationView::Terminate { address, message } => (
            SessionView {
                invocation,
                address,
                connector: Connector { retries_left: 0, interval_ms: RETRY_INTERVAL_MS },
                phase: Phase::Connecting,
            },
            ActionView::Connect { address },
        ),
    }
}

/// The end of an invocation.
pub open spec fn finished(
    s: SessionView,
    output: Option<Seq<char>>,
    error: Option<BridgeError>,
) -> (SessionView, ActionView) {
    (SessionView { phase: Phase::Finished, ..s }, ActionView::Finish { output, error })
}

/// One more attempt to open the channel.
pub open spec fn attempting(s: SessionView) -> (SessionView, ActionView) {
    (SessionView { phase: Phase::Connecting, ..s }, ActionView::Connect { address: s.address })
}

/// After an attempt was refused: wait and try again while the connector
/// allows it, else fail.
pub open spec fn refused(s: SessionView) -> (SessionView, ActionView) {
    match s.connector.after_refusal() {
        (connector, Decision::RetryAfter { millis }) => (
            SessionView { phase: Phase::Waiting, connector, ..s },
            ActionView::Sleep { millis },
        ),
        (_, Decision::GiveUp) => finished(s, None, Some(BridgeError::ConnectExhausted)),
    }
}

/// After the channel was opened: send the request where the command has one.
/// For `init` the open channel is the whole handshake and the new address is
/// the output; for `connect` there is no output.
pub open spec fn connected(s: SessionView) -> (SessionView, ActionView) {
    match request_text(s.invocation) {
        Some(text) => (
            SessionView { phase: Phase::Sending, ..s },
            ActionView::Send { bytes: wire_frame(text) },
        ),
        None => match s.invocation {
            InvocationView::Init { program, args } => finished(
                s,
                Some(output_text(abi_string(s.address))),
                None,
            ),
            _ => finished(s, None, None),
        },
    }
}

/// After the reply was read: an `exec` hands on the reply's text as it came,
/// a `terminate` drops it and prints `0x`. What is no frame fails either.
pub open spec fn replied(s: SessionView, received: Seq<u8>) -> (SessionView, ActionView) {
    match received_frame(received) {
        Ok(reply) => match s.invocation {
            InvocationView::Terminate { address, message } => finished(s, Some("0x"@), None),
            _ => finished(s, Some(reply), None),
        },
        Err(e) => finished(s, None, Some(frame_failure(e))),
    }
}

/// The session after an event, and the next action.
pub open spec fn stepped(s: SessionView, event: EventView) -> (SessionView, ActionView) {
    match (s.phase, event) {
        (Phase::Launching, EventView::Launched) => attempting(s),
        (Phase::Launching, EventView::LaunchFailed) => finished(
            s,
            None,
            Some(BridgeError::LaunchFailed),
        ),
        (Phase::Connecting, EventView::Connected) => connected(s),
        (Phase::Connecting, EventView::ConnectFailed) => refused(s),
        (Phase::Waiting, EventView::Slept) => attempting(s),
        (Phase::Sending, EventView::Sent) => (
            SessionView { phase: Phase::Receiving, ..s },
            ActionView::Receive { limit: RECEIVE_LIMIT },
        ),
        (Phase::Sending, EventView::SendFailed) => finished(s, None, Some(BridgeError::Transport)),
        (Phase::Receiving, EventView::Received { bytes }) => replied(s, bytes),
        (Phase::Receiving, EventView::ReceiveFailed) => finished(
            s,
            None,
            Some(BridgeError::Transport),
        ),
        _ => finished(s, None, Some(BridgeError::OutOfTurn)),
    }
}

/// What a session does while every attempt to open the channel is refused:
/// the milliseconds it has the driver wait in all, and the action it ends on.
pub open spec fn refused_run(s: SessionView) -> (nat, ActionView)
    decreases s.connector.retries_left,
{
    let (waiting, first) = stepped(s, EventView::ConnectFailed);
    if s.phase == Phase::Connecting && first is Sleep {
        let (retrying, _) = stepped(waiting, EventView::Slept);
        let (wait, last) = refused_run(retrying);
        (first->millis as nat + wait, last)
    } else {
        (0, first)
    }
}

/// A session whose channel never accepts waits for exactly the interval times
/// the retries it was given, and then fails for want of a connection, with
/// nothing to print.
pub proof fn lemma_refused_session(s: SessionView)
    requires
        s.phase == Phase::Connecting,
    ensures
        refused_run(s).0 == s.connector.retries_left * s.connector.interval_ms,
        refused_run(s).1 == (ActionView::Finish {
            output: None,
            error: Some(BridgeError::ConnectExhausted),
        }),
    decreases s.connector.retries_left,
{
    let (waiting, first) = stepped(s, EventView::ConnectFailed);
    if s.connector.retries_left > 0 {
        let (retrying, _) = stepped(waiting, EventView::Slept);
        lemma_refused_session(retrying);
        let fewer = retrying.connector.retries_left;
        let interval = s.connector.interval_ms;
        assert(s.connector.retries_left * interval == interval + fewer * interval)
            by (nonlinear_arith)
            requires
                fewer == s.connector.retries_left - 1,
        ;
    }
}

/// An invocation that fails prints nothing: no action carries both an output
/// and an error.
pub proof fn lemma_failure_prints_nothing(s: SessionView, event: EventView)
    ensures
        stepped(s, event).1 matches ActionView::Finish { output, error } ==> !(output is Some
            && error is Some),
{
}

/// A session that has finished stays so: whatever is reported to it, it
/// prints nothing more.
pub proof fn lemma_finished_is_final(s: SessionView, event: EventView)
    requires
        s.phase == Phase::Finished,
    ensures
        stepped(s, event) == finished(s, None, Some(BridgeError::OutOfTurn)),
        stepped(s, event).0 == s,
{
}

/// On one channel there is one write and then one read: a request is sent
/// only once the channel is open, a reply is read only once the request is
/// sent, and what is read ends the invocation.
pub proof fn lemma_one_write_then_one_read(s: SessionView, event: EventView)
    ensures
        stepped(s, event).1 is Send ==> s.phase == Phase::Connecting && event is Connected
            && stepped(s, event).0.phase == Phase::Sending,
        stepped(s, event).1 is Receive ==> s.phase == Phase::Sending && event is Sent && stepped(
            s,
            event,
        ).0.phase == Phase::Receiving,
        s.phase == Phase::Receiving ==> stepped(s, event).1 is Finish,
{
}

/// An `exec` puts exactly one frame on the wire: the tag `response:`, the
/// payload, and the delimiter. A `terminate` does so with the tag
/// `terminate:` and its message.
pub proof fn lemma_tagged_request(s: SessionView)
    requires
        s.phase == Phase::Connecting,
    ensures
        s.invocation matches InvocationView::Exec { address, payload } ==> stepped(
            s,
            EventView::Connected,
        ).1 == (ActionView::Send { bytes: wire_frame("response:"@ + payload) }),
        s.invocation matches InvocationView::Terminate { address, message } ==> stepped(
            s,
            EventView::Connected,
        ).1 == (ActionView::Send { bytes: wire_frame("terminate:"@ + message) }),
{
}

/// An `exec` hands the host the companion's reply as it was sent.
pub proof fn lemma_exec_forwards_reply(s: SessionView, reply: Seq<char>)
    requires
        s.phase == Phase::Receiving,
        s.invocation is Exec,
        is_payload(reply),
    ensures
        stepped(s, EventView::Received { bytes: wire_frame(reply) }).1 == (ActionView::Finish {
            output: Some(reply),
            error: None,
        }),
{
    lemma_frame_round_trip(reply);
}

/// A `terminate` prints `0x` whatever frame the companion replied with.
pub proof fn lemma_terminate_prints_empty(s: SessionView, received: Seq<u8>)
    requires
        s.phase == Phase::Receiving,
        s.invocation is Terminate,
        received_frame(received) is Ok,
    ensures
        stepped(s, EventView::Received { bytes: received }).1 == (ActionView::Finish {
            output: Some("0x"@),
            error: None,
        }),
{
}

impl Session {
    /// The address of an `init` is one that the bridge made itself, short
    /// enough for the encoder.
    #[verifier::type_invariant]
    spec fn well_formed(self) -> bool {
        self.invocation is Init ==> encode_utf8(self.address@).len() <= ABI_TEXT_MAX
    }

    /// What the session is waiting for.
    pub fn phase(&self) -> (phase: Phase)
        ensures
            phase == self@.phase,
    {
        self.phase
    }

    /// The channel of this invocation.
    pub fn address(&self) -> (address: &str)
        ensures
            address@ == self@.address,
    {
        self.address.as_str()
    }

    /// Begins an invocation. `kind` and `suffix` name the channel of a new
    /// companion; only `init` uses them.
    pub fn begin(invocation: Invocation, kind: NameKind, suffix: u32) -> (first: (Session, Action))
        ensures
            (first.0@, first.1@) == begun(invocation@, address_text(kind, suffix)),
    {
        match &invocation {
            Invocation::Init { program, args } => {
                let address = channel_address(kind, suffix);
                proof {
                    lemma_address_shape(kind, suffix);
                }
                let action = Action::Launch {
                    program: program.clone(),
                    args: companion_arguments(args.as_slice(), address.as_str()),
                };
                let session = Session {
                    invocation,
                    address,
                    connector: Connector::handshake(),
                    phase: Phase::Launching,
                };
                (session, action)
            },
            Invocation::Connect { address } => {
                let action = Action::Connect { address: address.clone() };
                let session = Session {
                    address: address.clone(),
                    invocation,
                    connector: Connector::handshake(),
                    phase: Phase::Connecting,
                };
                (session, action)
            },
            Invocation::Exec { address, payload } => {
                let action = Action::Connect { address: address.clone() };
                let session = Session {
                    address: address.clone(),
                    invocation,
                    connector: Connector::single_attempt(),
                    phase: Phase::Connecting,
                };
                (session, action)
            },
            Invocation::Terminate { address, message } => {
                let action = Action::Connect { address: address.clone() };
                let session = Session {
                    address: address.clone(),
                    invocation,
                    connector: Connector::single_attempt(),
                    phase: Phase::Connecting,
                };
                (session, action)
            },
        }
    }

    /// Ends the invocation.
    fn finish(self, output: Option<String>, error: Option<BridgeError>) -> (last: (Session, Action))
        ensures
            (last.0@, last.1@) == finished(
                self@,
                match output {
                    Some(text) => Some(text@),
                    None => None,
                },
                error,
            ),
    {
        proof {
            use_type_invariant(&self);
        }
        let mut session = self;
        session.phase = Phase::Finished;
        (session, Action::Finish { output, error })
    }

    /// Orders one more attempt to open the channel.
    fn attempt(self) -> (next: (Session, Action))
        ensures
            (next.0@, next.1@) == attempting(self@),
    {
        proof {
            use_type_invariant(&self);
        }
        let mut session = self;
        session.phase = Phase::Connecting;
        let address = session.address.clone();
        (session, Action::Connect { address })
    }

    /// Takes the driver's report of the last action and gives the next one.
    pub fn step(self, event: Event) -> (next: (Session, Action))
        ensures
            (next.0@, next.1@) == stepped(self@, event@),
    {
        proof {
            use_type_invariant(&self);
        }
        let mut session = self;
        match (session.phase, event) {
            (Phase::Launching, Event::Launched) => session.attempt(),
            (Phase::Launching, Event::LaunchFailed) => session.finish(
                None,
                Some(BridgeError::LaunchFailed),
            ),
            (Phase::Connecting, Event::Connected) => {
                match session.invocation.request() {
                    Some(text) => {
                        let bytes = encode_frame(text.as_str());
                        session.phase = Phase::Sending;
                        (session, Action::Send { bytes })
                    },
                    None => {
                        let output = match &session.invocation {
                            Invocation::Init { program, args } => Some(
                                address_output(session.address.as_str()),
                            ),
                            _ => None,
                        };
                        session.finish(output, None)
                    },
                }
            },
            (Phase::Connecting, Event::ConnectFailed) => {
                let mut connector = session.connector;
                match connector.refused() {
                    Decision::RetryAfter { millis } => {
                        session.connector = connector;
                        session.phase = Phase::Waiting;
                        (session, Action::Sleep { millis })
                    },
                    Decision::GiveUp => session.finish(None, Some(BridgeError::ConnectExhausted)),
                }
            },
            (Phase::Waiting, Event::Slept) => session.attempt(),
            (Phase::Sending, Event::Sent) => {
                session.phase = Phase::Receiving;
                (session, Action::Receive { limit: RECEIVE_LIMIT })
            },
            (Phase::Sending, Event::SendFailed) => session.finish(
                None,
                Some(BridgeError::Transport),
            ),
            (Phase::Receiving, Event::Received { bytes }) => {
                match decode_frame(bytes.as_slice()) {
                    Ok(reply) => {
                        let output = match &session.invocation {
                            Invocation::Terminate { address, message } => empty_output(),
                            _ => reply,
                        };
                        session.finish(Some(output), None)
                    },
                    Err(e) => session.finish(None, Some(BridgeError::of_frame(e))),
                }
            },
            (Phase::Receiving, Event::ReceiveFailed) => session.finish(
                None,
                Some(BridgeError::Transport),
            ),
            _ => session.finish(None, Some(BridgeError::OutOfTurn)),
        }
    }
}

/// Reads the command line and begins the invocation it asks for. `args` are
/// the arguments after the program's own name.
///
/// For `init` the channel is named for this platform with a random suffix.
/// A command line that cannot be read begins nothing: the error is all there
/// is, and nothing is printed.
pub fn open(args: &[String]) -> (opened: Result<(Session, Action), BridgeError>)
    ensures
        match opened {
            Ok((session, action)) => exists|kind: NameKind, suffix: u32|
                parsed_invocation(args.deep_view()) matches Ok(invocation) && (session@, action@)
                    == begun(invocation, #[trigger] address_text(kind, suffix)),
            Err(e) => parsed_invocation(args.deep_view()) == Err::<InvocationView, BridgeError>(e),
        },
{
    match parse_invocation(args) {
        Ok(invocation) => {
            let (kind, suffix) = match &invocation {
                Invocation::Init { program, args } => (platform_name_kind(), random_suffix()),
                _ => (NameKind::Both, 0u32),
            };
            Ok(Session::begin(invocation, kind, suffix))
        },
        Err(e) => Err(e),
    }
}

} // verus!
