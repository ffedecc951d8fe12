//! The connection manager of one peer.
//!
//! A manager owns the single connection to a peer and serves the requests for
//! new streams on it, one at a time and in the order in which they came. It
//! performs no I/O itself: its owner dials, pings and opens streams, and
//! tells the manager what happened; the manager answers with what to do next.

use vstd::prelude::*;
use vstd::utf8::{decode_utf8, valid_utf8};
use crate::frame::{ack_token, encode_header, is_ack, spec_encode_header, string_from_utf8};
use crate::tag::ProtocolHeader;

verus! {

/// Seconds without a request after which the connection is pinged.
pub const IDLE_TICK_SECS: u64 = 12;

/// Successful pings in a row after which an unused connection is given up.
pub const IDLE_BUDGET: u32 = 5;

/// Requests that may wait for a manager besides the one it is serving.
pub const CHANNEL_CAPACITY: usize = 1;

/// Why a stream could not be had.
#[derive(Clone, Copy, Debug, PartialEq, Eq, Structural)]
pub enum FailureKind {
    /// The peer could not be dialled.
    Dial,
    /// The connection did not answer a ping.
    Ping,
    /// The stream could not be opened, written to or read from.
    Handshake,
    /// The peer answered the header with something other than `ack`.
    AckMismatch,
    /// The manager ended without an error before it served the request.
    Closed,
}

/// Where a manager stands.
#[derive(Clone, Copy, Debug, PartialEq, Eq, Structural)]
pub enum Phase {
    /// Waiting for the owner to report on the dial.
    Dialing,
    /// Connected; waiting for shutdown, the idle timer or a request.
    Idle,
    /// Waiting for the owner to report on a ping.
    Pinging,
    /// Waiting for the owner to report on the handshake of one request.
    Handshaking,
    /// Ended without an error: shut down, or evicted for idleness.
    Closed,
    /// Ended with an error.
    Failed(FailureKind),
}

/// A request for a stream: the header to open it with, and the ticket of the
/// one-shot channel on which the caller waits.
#[derive(Debug)]
pub struct StreamRequest {
    pub header: ProtocolHeader,
    pub reply: u64,
}

/// What the caller that holds a ticket is told.
#[derive(Clone, Copy, Debug, PartialEq, Eq, Structural)]
pub enum ReplyOutcome {
    /// The stream is open and acknowledged: it is handed over.
    Stream,
    Failed(FailureKind),
}

#[derive(Clone, Copy, Debug, PartialEq, Eq, Structural)]
pub struct Reply {
    pub reply: u64,
    pub outcome: ReplyOutcome,
}

/// The error that ended a manager.
#[derive(Debug)]
pub struct Failure {
    pub kind: FailureKind,
    pub detail: String,
}

/// How a manager ended, and the replies that it still owes.
#[derive(Debug)]
pub struct ManagerExit {
    /// `None` where the manager ended without an error.
    pub failure: Option<Failure>,
    /// One reply for each request that had not been served.
    pub replies: Vec<Reply>,
}

/// What the owner reports to the manager.
#[derive(Debug)]
pub enum ManagerEvent {
    Dialed,
    DialFailed(String),
    /// Graceful shutdown was asked for.
    Cancelled,
    /// No caller can reach the manager any more.
    SendersGone,
    /// The idle timer fired with no request waiting.
    IdleTick,
    /// A request may be waiting.
    RequestReady,
    PingSucceeded,
    PingFailed(String),
    /// The header was written and the peer answered with this line.
    AckRead(Vec<u8>),
    /// The stream could not be opened, written to or read from.
    HandshakeFailed(String),
}

/// What the owner is to do next.
#[derive(Debug)]
pub enum ManagerAction {
    /// Wait for shutdown, for `IDLE_TICK_SECS` to pass, or for a request.
    Wait,
    /// Ping the peer on a fresh stream.
    Ping,
    /// Open a stream, write these bytes and read one line back.
    Handshake(Vec<u8>),
    /// Hand the stream to the caller that holds this ticket, then wait.
    Deliver(u64),
    /// Send these replies, forget the manager and leave the connection be.
    Exit(ManagerExit),
    /// The event does not belong to the manager's phase: nothing changed.
    Unexpected,
}

/// A manager, as the contracts see it.
pub struct ManagerView {
    pub phase: Phase,
    /// Successful pings since the last request.
    pub idle: nat,
    /// The requests that wait, oldest first.
    pub queue: Seq<StreamRequest>,
    /// The request that is being served.
    pub current: Option<StreamRequest>,
}

pub struct ConnectionManager {
    phase: Phase,
    idle_counter: u32,
    queue: Vec<StreamRequest>,
    current: Option<StreamRequest>,
}

/// Why a request was not taken.
#[derive(Debug)]
pub enum SubmitError {
    /// The manager has ended; the request is handed back.
    Closed(StreamRequest),
    /// As many requests wait as may; the request is handed back.
    Full(StreamRequest),
}

impl ManagerView {
    pub open spec fn has_ended(self) -> bool {
        self.phase is Closed || self.phase is Failed
    }

    /// The requests that are owed a reply, in the order in which they came.
    pub open spec fn pending(self) -> Seq<StreamRequest> {
        match self.current {
            Some(request) => seq![request] + self.queue,
            None => self.queue,
        }
    }

    pub open spec fn wf(self) -> bool {
        &&& self.queue.len() <= CHANNEL_CAPACITY
        &&& self.current.is_some() <==> self.phase is Handshaking
        &&& self.has_ended() ==> self.queue.len() == 0
        &&& self.has_ended() || self.idle < IDLE_BUDGET
    }

    /// The manager once it has ended in `phase`: nothing waits any more.
    pub open spec fn ended(self, phase: Phase) -> ManagerView {
        ManagerView { phase, idle: self.idle, queue: Seq::empty(), current: None }
    }

    /// The phase in which a failed acknowledgement ends the manager.
    pub open spec fn ack_failure(line: Seq<u8>) -> FailureKind {
        if valid_utf8(line) {
            FailureKind::AckMismatch
        } else {
            FailureKind::Handshake
        }
    }

    /// The manager after an event.
    pub open spec fn next(self, event: ManagerEvent) -> ManagerView {
        match (self.phase, event) {
            (Phase::Dialing, ManagerEvent::Dialed) => ManagerView { phase: Phase::Idle, ..self },
            (Phase::Dialing, ManagerEvent::DialFailed(_)) => self.ended(
                Phase::Failed(FailureKind::Dial),
            ),
            (Phase::Idle, ManagerEvent::Cancelled) => self.ended(Phase::Closed),
            (Phase::Idle, ManagerEvent::SendersGone) => self.ended(Phase::Closed),
            (Phase::Idle, ManagerEvent::IdleTick) => ManagerView { phase: Phase::Pinging, ..self },
            (Phase::Idle, ManagerEvent::RequestReady) => if self.queue.len() > 0 {
                ManagerView {
                    phase: Phase::Handshaking,
                    idle: 0,
                    queue: self.queue.drop_first(),
                    current: Some(self.queue[0]),
                }
            } else {
                self
            },
            (Phase::Pinging, ManagerEvent::PingSucceeded) => if self.idle + 1 >= IDLE_BUDGET {
                self.ended(Phase::Closed)
            } else {
                ManagerView { phase: Phase::Idle, idle: self.idle + 1, ..self }
            },
            (Phase::Pinging, ManagerEvent::PingFailed(_)) => self.ended(
                Phase::Failed(FailureKind::Ping),
            ),
            (Phase::Handshaking, ManagerEvent::AckRead(line)) => if line@ == ack_token() {
                ManagerView { phase: Phase::Idle, current: None, ..self }
            } else {
                self.ended(Phase::Failed(Self::ack_failure(line@)))
            },
            (Phase::Handshaking, ManagerEvent::HandshakeFailed(_)) => self.ended(
                Phase::Failed(FailureKind::Handshake),
            ),
            _ => self,
        }
    }

    /// Whether the event belongs to the phase.
    pub open spec fn expects(self, event: ManagerEvent) -> bool {
        match (self.phase, event) {
            (Phase::Dialing, ManagerEvent::Dialed) => true,
            (Phase::Dialing, ManagerEvent::DialFailed(_)) => true,
            (Phase::Idle, ManagerEvent::Cancelled) => true,
            (Phase::Idle, ManagerEvent::SendersGone) => true,
            (Phase::Idle, ManagerEvent::IdleTick) => true,
            (Phase::Idle, ManagerEvent::RequestReady) => true,
            (Phase::Pinging, ManagerEvent::PingSucceeded) => true,
            (Phase::Pinging, ManagerEvent::PingFailed(_)) => true,
            (Phase::Handshaking, ManagerEvent::AckRead(_)) => true,
            (Phase::Handshaking, ManagerEvent::HandshakeFailed(_)) => true,
            _ => false,
        }
    }

    /// The error text that ends the manager with the event, where an error
    /// does.
    pub open spec fn failure_detail(event: ManagerEvent) -> Seq<char> {
        match event {
            ManagerEvent::DialFailed(text) => text@,
            ManagerEvent::PingFailed(text) => text@,
            ManagerEvent::HandshakeFailed(text) => text@,
            ManagerEvent::AckRead(line) => if valid_utf8(line@) {
                decode_utf8(line@)
            } else {
                "acknowledgement is not valid UTF-8"@
            },
            _ => Seq::empty(),
        }
    }

    /// Whether `action` is what a manager in this state answers to `event`.
    pub open spec fn answers(self, event: ManagerEvent, action: ManagerAction) -> bool {
        let after = self.next(event);
        match action {
            ManagerAction::Unexpected => !self.expects(event),
            ManagerAction::Wait => {
                &&& self.expects(event)
                &&& after.phase is Idle
                &&& !(self.phase is Handshaking)
            },
            ManagerAction::Ping => self.expects(event) && after.phase is Pinging,
            ManagerAction::Handshake(bytes) => {
                &&& self.expects(event)
                &&& after.current matches Some(request)
                &&& bytes@ == spec_encode_header(
                    request.header.protocol,
                    match request.header.extra {
                        Some(text) => Some(text@),
                        None => None,
                    },
                )
            },
            ManagerAction::Deliver(ticket) => {
                &&& self.expects(event)
                &&& after.phase is Idle
                &&& self.current matches Some(request)
                &&& ticket == request.reply
            },
            ManagerAction::Exit(exit) => {
                &&& self.expects(event)
                &&& after.has_ended()
                &&& exit.replies@ == failure_replies(self.pending(), reply_kind(after.phase))
                &&& match exit.failure {
                    Some(failure) => {
                        &&& after.phase == Phase::Failed(failure.kind)
                        &&& failure.detail@ == Self::failure_detail(event)
                    },
                    None => after.phase == Phase::Closed,
                }
            },
        }
    }
}

/// The replies that tell each of `pending` that it failed with `kind`.
pub open spec fn failure_replies(pending: Seq<StreamRequest>, kind: FailureKind) -> Seq<Reply> {
    Seq::new(
        pending.len(),
        |i: int| Reply { reply: pending[i].reply, outcome: ReplyOutcome::Failed(kind) },
    )
}

/// The kind that requests left behind are answered with when a manager ends
/// in `phase`.
pub open spec fn reply_kind(phase: Phase) -> FailureKind {
    match phase {
        Phase::Failed(kind) => kind,
        _ => FailureKind::Closed,
    }
}

impl ConnectionManager {
    pub closed spec fn view(&self) -> ManagerView {
        ManagerView {
            phase: self.phase,
            idle: self.idle_counter as nat,
            queue: self.queue@,
            current: self.current,
        }
    }

    /// What every manager satisfies: no more requests wait than may, a
    /// request is being served exactly while the manager shakes hands, and
    /// nothing waits for a manager that has ended.
    pub open spec fn wf(&self) -> bool {
        self@.wf()
    }

    /// A manager for a connection that is yet to be dialled.
    pub fn new() -> (manager: Self)
        ensures
            manager.wf(),
            manager@ == (ManagerView {
                phase: Phase::Dialing,
                idle: 0,
                queue: Seq::empty(),
                current: None,
            }),
    {
        ConnectionManager {
            phase: Phase::Dialing,
            idle_counter: 0,
            queue: Vec::new(),
            current: None,
        }
    }

    pub fn phase(&self) -> (phase: Phase)
        ensures
            phase == self@.phase,
    {
        self.phase
    }

    pub fn idle_counter(&self) -> (idle: u32)
        ensures
            idle == self@.idle,
    {
        self.idle_counter
    }

    pub fn has_ended(&self) -> (ended: bool)
        ensures
            ended == self@.has_ended(),
    {
        match self.phase {
            Phase::Closed => true,
            Phase::Failed(_) => true,
            _ => false,
        }
    }

    /// How many requests wait to be served.
    pub fn waiting(&self) -> (count: usize)
        ensures
            count == self@.queue.len(),
    {
        self.queue.len()
    }

    /// Puts a request at the end of the queue.
    ///
    /// A manager that has ended takes nothing, and one whose queue is full
    /// takes nothing until it has served a request: either way the request
    /// comes back to the caller.
    pub fn submit(&mut self, request: StreamRequest) -> (taken: Result<(), SubmitError>)
        requires
            old(self).wf(),
        ensures
            final(self).wf(),
            match taken {
                Ok(()) => {
                    &&& !old(self)@.has_ended()
                    &&& old(self)@.queue.len() < CHANNEL_CAPACITY
                    &&& final(self)@ == (ManagerView {
                        queue: old(self)@.queue.push(request),
                        ..old(self)@
                    })
                },
                Err(SubmitError::Closed(back)) => {
                    &&& old(self)@.has_ended()
                    &&& back == request
                    &&& final(self)@ == old(self)@
                },
                Err(SubmitError::Full(back)) => {
                    &&& !old(self)@.has_ended()
                    &&& old(self)@.queue.len() >= CHANNEL_CAPACITY
                    &&& back == request
                    &&& final(self)@ == old(self)@
                },
            },
    {
        if self.has_ended() {
            return Err(SubmitError::Closed(request));
        }
        if self.queue.len() >= CHANNEL_CAPACITY {
            return Err(SubmitError::Full(request));
        }
        self.queue.push(request);
        Ok(())
    }

    /// Empties the manager of the requests that it owes a reply, and makes
    /// the replies.
    fn fail_pending(&mut self, kind: FailureKind) -> (replies: Vec<Reply>)
        ensures
            replies@ == failure_replies(old(self)@.pending(), kind),
            final(self)@ == (ManagerView { queue: Seq::empty(), current: None, ..old(self)@ }),
    {
        let ghost pending = self@.pending();
        let mut replies: Vec<Reply> = Vec::new();
        let current = self.current.take();
        match current {
            Some(request) => {
                replies.push(Reply { reply: request.reply, outcome: ReplyOutcome::Failed(kind) });
            },
            None => {},
        }
        let ghost served = replies@.len();
        let mut i: usize = 0;
        while i < self.queue.len()
            invariant
                i <= self.queue.len(),
                pending.len() == served + self.queue.len(),
                forall|j: int| 0 <= j < self.queue.len() ==> pending[served + j] == self.queue@[j],
                replies@.len() == served + i,
                forall|j: int|
                    0 <= j < replies@.len() ==> replies@[j] == (Reply {
                        reply: pending[j].reply,
                        outcome: ReplyOutcome::Failed(kind),
                    }),
            decreases self.queue.len() - i,
        {
            replies.push(Reply { reply: self.queue[i].reply, outcome: ReplyOutcome::Failed(kind) });
            i += 1;
        }
        self.queue.clear();
        assert(replies@ =~= failure_replies(pending, kind));
        assert(self.queue@ =~= Seq::empty());
        replies
    }

    /// Ends the manager in `phase` and answers every request left behind.
    fn end(&mut self, phase: Phase, failure: Option<Failure>) -> (action: ManagerAction)
        requires
            phase is Closed || phase is Failed,
        ensures
            final(self)@ == old(self)@.ended(phase),
            action matches ManagerAction::Exit(exit) && exit.failure == failure && exit.replies@
                == failure_replies(old(self)@.pending(), reply_kind(phase)),
    {
        let kind = match phase {
            Phase::Failed(kind) => kind,
            _ => FailureKind::Closed,
        };
        let replies = self.fail_pending(kind);
        self.phase = phase;
        ManagerAction::Exit(ManagerExit { failure, replies })
    }

    /// Takes what the owner reports and says what to do next.
    ///
    /// The first error ends the manager: every request that it had not
    /// served, the one in hand first, is answered with that error. A manager
    /// that ends without an error answers what is left with `Closed`. After
    /// `IDLE_BUDGET` successful pings in a row the manager ends without an
    /// error; a request sets the count back to zero.
    pub fn on_event(&mut self, event: ManagerEvent) -> (action: ManagerAction)
        requires
            old(self).wf(),
        ensures
            final(self).wf(),
            final(self)@ == old(self)@.next(event),
            old(self)@.answers(event, action),
    {
        match self.phase {
            Phase::Dialing => match event {
                ManagerEvent::Dialed => {
                    self.phase = Phase::Idle;
                    ManagerAction::Wait
                },
                ManagerEvent::DialFailed(detail) => self.end(
                    Phase::Failed(FailureKind::Dial),
                    Some(Failure { kind: FailureKind::Dial, detail }),
                ),
                _ => ManagerAction::Unexpected,
            },
            Phase::Idle => match event {
                ManagerEvent::Cancelled => self.end(Phase::Closed, None),
                ManagerEvent::SendersGone => self.end(Phase::Closed, None),
                ManagerEvent::IdleTick => {
                    self.phase = Phase::Pinging;
                    ManagerAction::Ping
                },
                ManagerEvent::RequestReady => {
                    if self.queue.len() == 0 {
                        return ManagerAction::Wait;
                    }
                    let ghost before = self.queue@;
                    let request = self.queue.remove(0);
                    assert(self.queue@ =~= before.drop_first());
                    let bytes = encode_header(&request.header);
                    self.current = Some(request);
                    self.idle_counter = 0;
                    self.phase = Phase::Handshaking;
                    ManagerAction::Handshake(bytes)
                },
                _ => ManagerAction::Unexpected,
            },
            Phase::Pinging => match event {
                ManagerEvent::PingSucceeded => {
                    if self.idle_counter + 1 >= IDLE_BUDGET {
                        self.end(Phase::Closed, None)
                    } else {
                        self.idle_counter = self.idle_counter + 1;
                        self.phase = Phase::Idle;
                        ManagerAction::Wait
                    }
                },
                ManagerEvent::PingFailed(detail) => self.end(
                    Phase::Failed(FailureKind::Ping),
                    Some(Failure { kind: FailureKind::Ping, detail }),
                ),
                _ => ManagerAction::Unexpected,
            },
            Phase::Handshaking => match event {
                ManagerEvent::AckRead(line) => {
                    if is_ack(line.as_slice()) {
                        let served = self.current.take();
                        self.phase = Phase::Idle;
                        match served {
                            Some(request) => ManagerAction::Deliver(request.reply),
                            None => ManagerAction::Wait,
                        }
                    } else {
                        match string_from_utf8(line) {
                            Some(detail) => self.end(
                                Phase::Failed(FailureKind::AckMismatch),
                                Some(Failure { kind: FailureKind::AckMismatch, detail }),
                            ),
                            None => self.end(
                                Phase::Failed(FailureKind::Handshake),
                                Some(
                                    Failure {
                                        kind: FailureKind::Handshake,
                                        detail: "acknowledgement is not valid UTF-8".to_owned(),
                                    },
                                ),
                            ),
                        }
                    }
                },
                ManagerEvent::HandshakeFailed(detail) => self.end(
                    Phase::Failed(FailureKind::Handshake),
                    Some(Failure { kind: FailureKind::Handshake, detail }),
                ),
                _ => ManagerAction::Unexpected,
            },
            Phase::Closed => ManagerAction::Unexpected,
            Phase::Failed(_) => ManagerAction::Unexpected,
        }
    }
}

/// One thing that happens to a manager: a caller submits a request, or the
/// owner reports an event.
pub enum Step {
    Submit(StreamRequest),
    Event(ManagerEvent),
}

/// A manager together with the requests that it has taken so far and those
/// among them that have left its queue, each in the order in which it
/// happened.
pub struct History {
    pub view: ManagerView,
    /// The requests that `submit` took, oldest first.
    pub accepted: Seq<StreamRequest>,
    /// The requests that left the queue, to be served or to be answered when
    /// the manager ended, in the order in which they left.
    pub handled: Seq<StreamRequest>,
}

impl ManagerView {
    /// Whether `submit` takes a request.
    pub open spec fn takes_requests(self) -> bool {
        !self.has_ended() && self.queue.len() < CHANNEL_CAPACITY
    }

    /// The manager after `count` idle ticks, each answered by a successful
    /// ping, with no request in between.
    pub open spec fn after_idle_ticks(self, count: nat) -> ManagerView
        decreases count,
    {
        if count == 0 {
            self
        } else {
            self.next(ManagerEvent::IdleTick).next(ManagerEvent::PingSucceeded).after_idle_ticks(
                (count - 1) as nat,
            )
        }
    }
}

impl History {
    /// A manager that has just been made.
    pub open spec fn start() -> History {
        History {
            view: ManagerView {
                phase: Phase::Dialing,
                idle: 0,
                queue: Seq::empty(),
                current: None,
            },
            accepted: Seq::empty(),
            handled: Seq::empty(),
        }
    }

    pub open spec fn record(self, step: Step) -> History {
        match step {
            Step::Submit(request) => if self.view.takes_requests() {
                History {
                    view: ManagerView { queue: self.view.queue.push(request), ..self.view },
                    accepted: self.accepted.push(request),
                    handled: self.handled,
                }
            } else {
                self
            },
            Step::Event(event) => {
                let next = self.view.next(event);
                let left = self.view.queue.len() - next.queue.len();
                History {
                    view: next,
                    accepted: self.accepted,
                    handled: self.handled + self.view.queue.take(left),
                }
            },
        }
    }

    pub open spec fn record_all(self, steps: Seq<Step>) -> History
        decreases steps.len(),
    {
        if steps.len() == 0 {
            self
        } else {
            self.record_all(steps.drop_last()).record(steps.last())
        }
    }

    /// The requests that left the queue, followed by those that still wait,
    /// are the requests that were taken, in the order in which they came.
    pub open spec fn in_order(self) -> bool {
        self.handled + self.view.queue == self.accepted
    }
}

/// Every event keeps a manager well formed.
pub proof fn lemma_next_keeps_wf(view: ManagerView, event: ManagerEvent)
    requires
        view.wf(),
    ensures
        view.next(event).wf(),
{
}

/// First in, first out: whatever callers submit and whatever the owner
/// reports, requests leave a manager's queue in the order in which they
/// entered it, and none is passed over.
pub proof fn lemma_fifo(steps: Seq<Step>)
    ensures
        History::start().record_all(steps).in_order(),
        History::start().record_all(steps).view.wf(),
    decreases steps.len(),
{
    if steps.len() == 0 {
        assert(History::start().handled + History::start().view.queue =~= History::start().accepted);
    } else {
        lemma_fifo(steps.drop_last());
        let before = History::start().record_all(steps.drop_last());
        let after = before.record(steps.last());
        match steps.last() {
            Step::Submit(request) => {
                if before.view.takes_requests() {
                    assert(after.handled + after.view.queue =~= (before.handled
                        + before.view.queue).push(request));
                }
            },
            Step::Event(event) => {
                lemma_next_keeps_wf(before.view, event);
                let next = before.view.next(event);
                let left = before.view.queue.len() - next.queue.len();
                assert(next.queue =~= before.view.queue.skip(left));
                assert(before.view.queue.take(left) + before.view.queue.skip(left)
                    =~= before.view.queue);
                assert(after.handled + after.view.queue =~= before.handled + before.view.queue);
            },
        }
    }
}

/// Error fan-out: a manager that ends with requests left behind makes one
/// reply for each of them, in their order and with their tickets, so that
/// none goes unanswered and, where the tickets differ, none is answered twice.
pub proof fn lemma_error_fan_out(pending: Seq<StreamRequest>, kind: FailureKind)
    ensures
        failure_replies(pending, kind).len() == pending.len(),
        forall|i: int|
            0 <= i < pending.len() ==> #[trigger] failure_replies(pending, kind)[i] == (Reply {
                reply: pending[i].reply,
                outcome: ReplyOutcome::Failed(kind),
            }),
        (forall|i: int, j: int|
            0 <= i < j < pending.len() ==> pending[i].reply != pending[j].reply) ==> forall|
            i: int,
            j: int,
        |
            0 <= i < j < pending.len() ==> failure_replies(pending, kind)[i] != failure_replies(
                pending,
                kind,
            )[j],
{
}

/// A manager that has ended stays as it is, whatever is reported to it.
pub proof fn lemma_ended_is_final(view: ManagerView, event: ManagerEvent)
    requires
        view.has_ended(),
    ensures
        view.next(event) == view,
        !view.takes_requests(),
{
}

/// Idle eviction: an idle manager that gets no request ends without an error
/// once its pings have brought the count to `IDLE_BUDGET`, not before, and
/// stays ended; so it never outlives `IDLE_BUDGET + 1` idle ticks.
pub proof fn lemma_idle_eviction(view: ManagerView, ticks: nat)
    requires
        view.wf(),
        view.phase is Idle,
    ensures
        ticks + view.idle < IDLE_BUDGET ==> view.after_idle_ticks(ticks).phase is Idle
            && view.after_idle_ticks(ticks).idle == view.idle + ticks,
        ticks + view.idle >= IDLE_BUDGET ==> view.after_idle_ticks(ticks).phase is Closed,
        view.after_idle_ticks((IDLE_BUDGET + 1) as nat).phase is Closed,
{
    lemma_idle_eviction_from(view, ticks);
    lemma_idle_eviction_from(view, (IDLE_BUDGET + 1) as nat);
}

proof fn lemma_idle_eviction_from(view: ManagerView, ticks: nat)
    requires
        view.wf(),
        view.phase is Idle || view.phase is Closed,
    ensures
        view.phase is Idle && ticks + view.idle < IDLE_BUDGET ==> view.after_idle_ticks(
            ticks,
        ).phase is Idle && view.after_idle_ticks(ticks).idle == view.idle + ticks,
        view.phase is Closed || ticks + view.idle >= IDLE_BUDGET ==> view.after_idle_ticks(
            ticks,
        ).phase is Closed,
    decreases ticks,
{
    if ticks > 0 {
        let pinged = view.next(ManagerEvent::IdleTick).next(ManagerEvent::PingSucceeded);
        lemma_next_keeps_wf(view, ManagerEvent::IdleTick);
        lemma_next_keeps_wf(view.next(ManagerEvent::IdleTick), ManagerEvent::PingSucceeded);
        lemma_idle_eviction_from(pinged, (ticks - 1) as nat);
    }
}

} // verus!
