//! The first exchange of a connection: ask `wl_display` for the registry and
//! take in what the compositor answers.
//!
//! Nothing here touches the socket. The driver is told what the transport
//! did and says what to do next; whoever owns the socket does the reading
//! and the writing.

use vstd::prelude::*;
use crate::protocol::display::request::{display_request, get_registry_request, Opcode};
use crate::protocol::error::{view_some, WlError, WlErrorView};
use crate::protocol::message::{
    front_header, malformed_front, message_wire, parse_message, WlMessageHeader, WlMessageIter,
};
use crate::protocol::types::WlNewId;
use crate::protocol::{dispatch, dispatch_outcome, EventView, WlEvent};

verus! {

/// Why the exchange ended, and the header of the message at which it did,
/// where a message was at fault.
#[derive(Debug, Clone, PartialEq, Eq)]
pub struct Failure {
    /// What went wrong.
    pub error: WlError,
    /// The header of the offending message: its object id, opcode and
    /// declared length.
    pub header: Option<WlMessageHeader>,
}

/// A failure, apart from how it is held in memory.
pub ghost struct FailureView {
    pub error: WlErrorView,
    pub header: Option<WlMessageHeader>,
}

impl View for Failure {
    type V = FailureView;

    open spec fn view(&self) -> FailureView {
        FailureView { error: self.error@, header: self.header }
    }
}

/// The views of the events in `events`, in the same order.
pub open spec fn event_views(events: Seq<WlEvent>) -> Seq<EventView> {
    events.map_values(|e: WlEvent| e@)
}

/// What a buffer of received bytes comes to: the events of the messages
/// that could be taken off its front, in the order in which they arrived;
/// the failure that stopped the taking, if one did; and the bytes that stay
/// buffered.
pub ghost struct Burst {
    pub events: Seq<EventView>,
    pub failure: Option<FailureView>,
    pub rest: Seq<u8>,
}

/// Takes messages off the front of `buf` and dispatches each, until no whole
/// message is left or one fails.
///
/// A message that cannot be dispatched ends the burst with its error and its
/// header. So does a header that declares less than eight bytes: the stream
/// is then out of step for good. Bytes that are the beginning of a message
/// stay buffered and are no failure.
pub open spec fn drain_outcome(buf: Seq<u8>) -> Burst
    decreases buf.len(),
{
    match parse_message(buf) {
        Err(_) => Burst {
            events: Seq::empty(),
            failure: if malformed_front(buf) {
                Some(
                    FailureView {
                        error: WlErrorView::TruncatedBuffer,
                        header: Some(front_header(buf)),
                    },
                )
            } else {
                None
            },
            rest: buf,
        },
        Ok(m) => {
            let rest = buf.skip(8 + m.payload.len() as int);
            match dispatch_outcome(m) {
                Err(e) => Burst {
                    events: Seq::empty(),
                    failure: Some(
                        FailureView { error: e, header: Some(front_header(buf)) },
                    ),
                    rest,
                },
                Ok(event) => {
                    let later = drain_outcome(rest);
                    Burst {
                        events: seq![event] + later.events,
                        failure: later.failure,
                        rest: later.rest,
                    }
                },
            }
        },
    }
}

/// Takes every whole message off the front of `stream` and dispatches it.
/// Gives the decoded events in the order of arrival, and the failure that
/// ended the burst, if one did.
pub fn drain(stream: &mut WlMessageIter) -> (r: (Vec<WlEvent>, Option<Failure>))
    ensures
        event_views(r.0@) == drain_outcome(old(stream)@).events,
        view_some(r.1) == drain_outcome(old(stream)@).failure,
        final(stream)@ == drain_outcome(old(stream)@).rest,
{
    let mut events: Vec<WlEvent> = Vec::new();
    let ghost whole = drain_outcome(stream@);
    assert(event_views(events@) =~= Seq::<EventView>::empty());
    assert(Seq::<EventView>::empty() + whole.events =~= whole.events);
    loop
        invariant
            whole == drain_outcome(old(stream)@),
            whole.events == event_views(events@) + drain_outcome(stream@).events,
            whole.failure == drain_outcome(stream@).failure,
            whole.rest == drain_outcome(stream@).rest,
        decreases stream@.len(),
    {
        let ghost before = stream@;
        let ghost seen = events@;
        match stream.next() {
            None => {
                let failure = if stream.is_malformed() {
                    match WlMessageHeader::from_bytes(stream.remaining()) {
                        Ok(header) => Some(
                            Failure { error: WlError::TruncatedBuffer, header: Some(header) },
                        ),
                        Err(e) => Some(Failure { error: e, header: None }),
                    }
                } else {
                    None
                };
                assert(event_views(events@) + Seq::<EventView>::empty() =~= event_views(
                    events@,
                ));
                return (events, failure);
            },
            Some(msg) => {
                let header = msg.header();
                assert(parse_message(before) == Ok::<_, WlErrorView>(msg@));
                assert(header == front_header(before));
                match dispatch(msg) {
                    Err(e) => {
                        assert(event_views(events@) + Seq::<EventView>::empty()
                            =~= event_views(events@));
                        return (events, Some(Failure { error: e, header: Some(header) }));
                    },
                    Ok(event) => {
                        events.push(event);
                        assert(event_views(events@) =~= event_views(seen) + seq![event@]);
                        assert(event_views(seen) + (seq![event@] + drain_outcome(stream@).events)
                            =~= event_views(events@) + drain_outcome(stream@).events);
                    },
                }
            },
        }
    }
}

/// Where the exchange stands.
#[derive(Debug, Clone, Copy, PartialEq, Eq, Structural)]
pub enum State {
    /// The request has not gone out in full.
    Idle,
    /// The request is out; the answer has not come in.
    AwaitingResponse,
    /// A burst of events has been taken in without a failure.
    Done,
    /// The exchange has failed and the connection must be closed.
    Failed,
}

/// What the transport did since the driver last said what to do.
#[derive(Debug, Clone, PartialEq, Eq)]
pub enum Input {
    /// Nothing yet: the caller is ready to begin.
    Start,
    /// The transport took this many of the bytes it was handed.
    Written(usize),
    /// The transport delivered these bytes.
    Received(Vec<u8>),
    /// A read or a write failed.
    TransportFailed,
}

/// An input, apart from how it is held in memory.
pub ghost enum InputView {
    Start,
    Written(usize),
    Received(Seq<u8>),
    TransportFailed,
}

impl View for Input {
    type V = InputView;

    open spec fn view(&self) -> InputView {
        match self {
            Input::Start => InputView::Start,
            Input::Written(n) => InputView::Written(*n),
            Input::Received(bytes) => InputView::Received(bytes@),
            Input::TransportFailed => InputView::TransportFailed,
        }
    }
}

/// What the caller is to do next.
#[derive(Debug, Clone, PartialEq, Eq)]
pub enum Action {
    /// Write these bytes and report how many the transport took.
    Write(Vec<u8>),
    /// The transport took fewer bytes than it was handed, which `short`
    /// records. Write the unsent rest and report how many it took.
    Retry { short: WlError, bytes: Vec<u8> },
    /// Read what the compositor sent and report the bytes.
    Read,
    /// The burst is over. These events arrived, in this order.
    Finish(Vec<WlEvent>),
    /// The exchange failed after these events. Close the connection.
    Fail(Vec<WlEvent>, Failure),
    /// The input does not apply where the exchange stands. Nothing changed.
    Ignore,
}

/// An action, apart from how it is held in memory.
pub ghost enum ActionView {
    Write(Seq<u8>),
    Retry { short: WlErrorView, bytes: Seq<u8> },
    Read,
    Finish(Seq<EventView>),
    Fail(Seq<EventView>, FailureView),
    Ignore,
}

impl View for Action {
    type V = ActionView;

    open spec fn view(&self) -> ActionView {
        match self {
            Action::Write(bytes) => ActionView::Write(bytes@),
            Action::Retry { short, bytes } => ActionView::Retry { short: short@, bytes: bytes@ },
            Action::Read => ActionView::Read,
            Action::Finish(events) => ActionView::Finish(event_views(events@)),
            Action::Fail(events, failure) => ActionView::Fail(event_views(events@), failure@),
            Action::Ignore => ActionView::Ignore,
        }
    }
}

/// The `get_registry` request as it goes on the wire: twelve bytes.
pub open spec fn request_wire(new_id: WlNewId) -> Seq<u8> {
    message_wire(display_request(Opcode::GetRegistry, new_id))
}

/// Bytes on their way out, and how many of them the transport has taken.
#[derive(Debug)]
pub struct Outgoing {
    bytes: Vec<u8>,
    sent: usize,
}

impl Outgoing {
    #[verifier::type_invariant]
    spec fn well_formed(&self) -> bool {
        self.sent <= self.bytes@.len()
    }

    /// All the bytes that are to go out.
    pub closed spec fn bytes(&self) -> Seq<u8> {
        self.bytes@
    }

    /// How many of them the transport has taken.
    pub closed spec fn sent(&self) -> nat {
        self.sent as nat
    }

    /// Nothing of `bytes` has gone out yet.
    pub fn new(bytes: Vec<u8>) -> (out: Outgoing)
        ensures
            out.bytes() == bytes@,
            out.sent() == 0,
    {
        Outgoing { bytes, sent: 0 }
    }

    /// How many bytes the transport has still to take.
    pub fn pending(&self) -> (n: usize)
        ensures
            self.sent() <= self.bytes().len(),
            n == self.bytes().len() - self.sent(),
    {
        proof {
            use_type_invariant(self);
        }
        self.bytes.len() - self.sent
    }

    /// A copy of the bytes that the transport has still to take.
    pub fn unsent(&self) -> (rest: Vec<u8>)
        ensures
            self.sent() <= self.bytes().len(),
            rest@ == self.bytes().skip(self.sent() as int),
    {
        proof {
            use_type_invariant(self);
        }
        let mut rest: Vec<u8> = Vec::new();
        let mut i: usize = self.sent;
        while i < self.bytes.len()
            invariant
                self.sent <= i <= self.bytes@.len(),
                rest@ == self.bytes@.subrange(self.sent as int, i as int),
            decreases self.bytes@.len() - i,
        {
            rest.push(self.bytes[i]);
            i += 1;
            assert(rest@ =~= self.bytes@.subrange(self.sent as int, i as int));
        }
        assert(rest@ =~= self.bytes@.skip(self.sent as int));
        rest
    }

    /// Counts `n` more bytes as taken, or all of them where `n` is more than
    /// were pending.
    pub fn advance(&mut self, n: usize)
        ensures
            final(self).bytes() == old(self).bytes(),
            final(self).sent() == if old(self).sent() + n >= old(self).bytes().len() {
                old(self).bytes().len() as int
            } else {
                old(self).sent() + n
            },
    {
        proof {
            use_type_invariant(&*self);
        }
        if n >= self.bytes.len() - self.sent {
            self.sent = self.bytes.len();
        } else {
            self.sent = self.sent + n;
        }
    }
}

/// The driver, apart from how it is held in memory.
pub ghost struct BootstrapView {
    /// Where the exchange stands.
    pub state: State,
    /// The request that the exchange begins with, as it goes on the wire.
    pub request: Seq<u8>,
    /// How many bytes of the request the transport has taken.
    pub sent: nat,
    /// The received bytes that no message has been taken from yet.
    pub buffered: Seq<u8>,
}

/// The driver's rule: where the exchange goes on an input, and what the
/// caller is to do then.
///
/// - Once failed, the exchange stays failed and every input is ignored.
/// - A failure of the transport fails the exchange from any other state.
/// - `Start` while idle asks for the unsent part of the request to be
///   written.
/// - `Written` while idle counts the bytes. When the whole request is out,
///   the exchange awaits the response and asks for a read; else it stays
///   idle and asks for the rest to be written.
/// - `Received` once the request is out puts the bytes behind those already
///   buffered and drains the buffer. A failure among the messages fails the
///   exchange; else it is done. Further bytes may be handed in when done.
/// - Any other input is ignored.
pub open spec fn step_outcome(d: BootstrapView, input: InputView) -> (BootstrapView, ActionView) {
    if d.state == State::Failed {
        (d, ActionView::Ignore)
    } else {
        match input {
            InputView::TransportFailed => (
                BootstrapView { state: State::Failed, ..d },
                ActionView::Fail(
                    Seq::empty(),
                    FailureView { error: WlErrorView::Io, header: None },
                ),
            ),
            InputView::Start => if d.state == State::Idle {
                (d, ActionView::Write(d.request.skip(d.sent as int)))
            } else {
                (d, ActionView::Ignore)
            },
            InputView::Written(n) => if d.state == State::Idle {
                if d.sent + n >= d.request.len() {
                    (
                        BootstrapView {
                            state: State::AwaitingResponse,
                            sent: d.request.len(),
                            ..d
                        },
                        ActionView::Read,
                    )
                } else {
                    (
                        BootstrapView { sent: (d.sent + n) as nat, ..d },
                        ActionView::Retry {
                            short: WlErrorView::ShortWrite {
                                requested: (d.request.len() - d.sent) as usize,
                                written: n,
                            },
                            bytes: d.request.skip(d.sent + n),
                        },
                    )
                }
            } else {
                (d, ActionView::Ignore)
            },
            InputView::Received(bytes) => if d.state == State::Idle {
                (d, ActionView::Ignore)
            } else {
                let burst = drain_outcome(d.buffered + bytes);
                match burst.failure {
                    Some(failure) => (
                        BootstrapView { state: State::Failed, buffered: burst.rest, ..d },
                        ActionView::Fail(burst.events, failure),
                    ),
                    None => (
                        BootstrapView { state: State::Done, buffered: burst.rest, ..d },
                        ActionView::Finish(burst.events),
                    ),
                }
            },
        }
    }
}

/// How far an exchange has come: the states in the order in which an
/// exchange can pass through them.
pub open spec fn progress(state: State) -> nat {
    match state {
        State::Idle => 0,
        State::AwaitingResponse => 1,
        State::Done => 2,
        State::Failed => 3,
    }
}

/// An exchange never goes back: no input takes it to a state that it has
/// left. A failed exchange stays failed, and nothing about it changes.
pub proof fn lemma_step_never_goes_back(d: BootstrapView, input: InputView)
    ensures
        progress(step_outcome(d, input).0.state) >= progress(d.state),
        d.state == State::Failed ==> step_outcome(d, input) == (d, ActionView::Ignore),
        step_outcome(d, input).0.request == d.request,
{
}

/// The request goes out in full and in order, however the transport cuts it
/// up: after every `Written` the bytes counted as sent and the bytes that
/// the caller is told to write next make up the request, and the exchange
/// awaits the response only when nothing is left to write.
pub proof fn lemma_written_resumes_at_the_unsent_offset(d: BootstrapView, n: usize)
    requires
        d.state == State::Idle,
        d.sent <= d.request.len(),
    ensures
        ({
            let (after, action) = step_outcome(d, InputView::Written(n));
            &&& after.sent <= d.request.len()
            &&& after.sent == d.request.len() <==> action == ActionView::Read
            &&& after.sent == d.request.len() <==> after.state == State::AwaitingResponse
            &&& action matches ActionView::Retry { short, bytes } ==> {
                &&& d.request.take(after.sent as int) + bytes == d.request
                &&& after.sent == d.sent + n
                &&& after.state == State::Idle
            }
        }),
{
    let (after, action) = step_outcome(d, InputView::Written(n));
    if d.sent + n < d.request.len() {
        assert(d.request.take(after.sent as int) + d.request.skip(after.sent as int)
            =~= d.request);
    }
}

/// Drives the first exchange of a connection.
#[derive(Debug)]
pub struct Bootstrap {
    state: State,
    request: Outgoing,
    stream: WlMessageIter,
}

impl View for Bootstrap {
    type V = BootstrapView;

    closed spec fn view(&self) -> BootstrapView {
        BootstrapView {
            state: self.state,
            request: self.request.bytes(),
            sent: self.request.sent(),
            buffered: self.stream@,
        }
    }
}

impl Bootstrap {
    /// A driver that will ask for the registry to be created under
    /// `new_id`. Nothing has been sent or received.
    pub fn new(new_id: WlNewId) -> (d: Bootstrap)
        ensures
            d@ == (BootstrapView {
                state: State::Idle,
                request: request_wire(new_id),
                sent: 0,
                buffered: Seq::empty(),
            }),
    {
        Bootstrap {
            state: State::Idle,
            request: Outgoing::new(get_registry_request(new_id).to_bytes()),
            stream: WlMessageIter::new(Vec::new()),
        }
    }

    /// Where the exchange stands.
    pub fn state(&self) -> (state: State)
        ensures
            state == self@.state,
    {
        self.state
    }

    /// Takes in what the transport did and says what to do next.
    pub fn step(&mut self, input: Input) -> (action: Action)
        ensures
            (final(self)@, action@) == step_outcome(old(self)@, input@),
            final(self)@.sent <= final(self)@.request.len(),
    {
        let pending: usize = self.request.pending();
        if let State::Failed = self.state {
            return Action::Ignore;
        }
        match input {
            Input::TransportFailed => {
                self.state = State::Failed;
                let events: Vec<WlEvent> = Vec::new();
                assert(event_views(events@) =~= Seq::<EventView>::empty());
                Action::Fail(events, Failure { error: WlError::Io, header: None })
            },
            Input::Start => {
                if let State::Idle = self.state {
                    Action::Write(self.request.unsent())
                } else {
                    Action::Ignore
                }
            },
            Input::Written(n) => {
                if let State::Idle = self.state {
                    self.request.advance(n);
                    if n >= pending {
                        self.state = State::AwaitingResponse;
                        Action::Read
                    } else {
                        Action::Retry {
                            short: WlError::ShortWrite { requested: pending, written: n },
                            bytes: self.request.unsent(),
                        }
                    }
                } else {
                    Action::Ignore
                }
            },
            Input::Received(bytes) => {
                if let State::Idle = self.state {
                    Action::Ignore
                } else {
                    self.stream.extend(bytes.as_slice());
                    let (events, failure) = drain(&mut self.stream);
                    match failure {
                        Some(failure) => {
                            self.state = State::Failed;
                            Action::Fail(events, failure)
                        },
                        None => {
                            self.state = State::Done;
                            Action::Finish(events)
                        },
                    }
                }
            },
        }
    }
}

} // verus!
