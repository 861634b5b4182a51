//! The publisher: a message-driven state machine that commits uploaded
//! splits to the metastore, one at a time and in the order of their arrival.
//!
//! The publisher makes no call and never waits. It is handed events, and
//! answers each with the action that its owner has to carry out: call the
//! metastore, wait, or take up the next message.

use crate::encoding::str_equal;
use crate::metastore::ConflictKind;
use crate::retry::RetryPolicy;
use crate::split::{PublishRequest, RequestView, SplitView, UploadedSplit};
use vstd::prelude::*;

verus! {

/// The kind of error that made the publisher give a message up.
#[derive(Clone, Copy, Debug, PartialEq, Eq, Structural)]
pub enum ErrorKind {
    /// The checkpoint of the split lies behind the one that the metastore
    /// holds.
    StaleCheckpoint,
    /// The metastore does not know the index of the split.
    UnknownIndex,
    /// The metastore kept failing transiently until the retries ran out.
    Transient,
}

/// How a publish call ended.
#[derive(Clone, Copy, Debug, PartialEq, Eq, Structural)]
pub enum PublishOutcome {
    /// The metastore committed the segment.
    Committed,
    /// The metastore refused the segment.
    Conflict(ConflictKind),
    /// The call failed in a way that the metastore's contract does not name.
    Unexpected,
}

/// What the publisher makes of the outcome of a publish call.
#[derive(Clone, Copy, Debug, PartialEq, Eq, Structural)]
pub enum Verdict {
    /// The segment is visible: the message is done.
    Success,
    /// The call is to be made again after a wait.
    Retry,
    /// The message is given up.
    Drop(ErrorKind),
}

/// A commit and an already published segment are both a success. A stale
/// checkpoint and an unknown index are faults of the sender and are not
/// tried again. A transient failure is tried again, and so is every failure
/// that has no name.
pub open spec fn verdict(outcome: PublishOutcome) -> Verdict {
    match outcome {
        PublishOutcome::Committed => Verdict::Success,
        PublishOutcome::Conflict(ConflictKind::AlreadyPublished) => Verdict::Success,
        PublishOutcome::Conflict(ConflictKind::StaleCheckpoint) => Verdict::Drop(
            ErrorKind::StaleCheckpoint,
        ),
        PublishOutcome::Conflict(ConflictKind::UnknownIndex) => Verdict::Drop(
            ErrorKind::UnknownIndex,
        ),
        PublishOutcome::Conflict(ConflictKind::Transient) => Verdict::Retry,
        PublishOutcome::Unexpected => Verdict::Retry,
    }
}

/// What the publisher makes of the outcome of a publish call.
pub fn classify(outcome: PublishOutcome) -> (v: Verdict)
    ensures
        v == verdict(outcome),
{
    match outcome {
        PublishOutcome::Committed => Verdict::Success,
        PublishOutcome::Conflict(ConflictKind::AlreadyPublished) => Verdict::Success,
        PublishOutcome::Conflict(ConflictKind::StaleCheckpoint) => Verdict::Drop(
            ErrorKind::StaleCheckpoint,
        ),
        PublishOutcome::Conflict(ConflictKind::UnknownIndex) => Verdict::Drop(
            ErrorKind::UnknownIndex,
        ),
        PublishOutcome::Conflict(ConflictKind::Transient) => Verdict::Retry,
        PublishOutcome::Unexpected => Verdict::Retry,
    }
}

impl PublishOutcome {
    /// The outcome that an answer of the metastore stands for.
    pub open spec fn of(answer: Result<(), ConflictKind>) -> PublishOutcome {
        match answer {
            Ok(()) => PublishOutcome::Committed,
            Err(kind) => PublishOutcome::Conflict(kind),
        }
    }

    /// The outcome that an answer of the metastore stands for.
    pub fn from_answer(answer: Result<(), ConflictKind>) -> (outcome: PublishOutcome)
        ensures
            outcome == PublishOutcome::of(answer),
    {
        match answer {
            Ok(()) => PublishOutcome::Committed,
            Err(kind) => PublishOutcome::Conflict(kind),
        }
    }
}

/// Why the publisher did not take a message.
#[derive(Clone, Copy, Debug, PartialEq, Eq, Structural)]
pub enum RejectReason {
    /// The split has no segment identifier, or names an index that the
    /// publisher does not serve.
    Invalid,
    /// Another message is still in flight.
    Busy,
    /// The publisher has stopped.
    Stopped,
}

/// What an observer sees of the publisher.
#[derive(Clone, Debug, PartialEq, Eq)]
pub struct ObservableState {
    /// The segment of the message acknowledged last.
    pub last_published_segment_id: Option<String>,
    /// The number of messages acknowledged. It stops at the largest `u64`.
    pub published_count: u64,
    /// The kind of the error that gave a message up last.
    pub last_error_kind: Option<ErrorKind>,
}

/// The observable state as a mathematical value.
pub struct ObservableView {
    pub last_published_segment_id: Option<Seq<char>>,
    pub published_count: u64,
    pub last_error_kind: Option<ErrorKind>,
}

impl View for ObservableState {
    type V = ObservableView;

    open spec fn view(&self) -> ObservableView {
        ObservableView {
            last_published_segment_id: match self.last_published_segment_id {
                Some(id) => Some(id@),
                None => None,
            },
            published_count: self.published_count,
            last_error_kind: self.last_error_kind,
        }
    }
}

/// What happens to the publisher.
#[derive(Clone, Debug, PartialEq, Eq)]
pub enum Event {
    /// A message arrives from the inbox.
    Message(UploadedSplit),
    /// The publish call that the publisher asked for has ended.
    Reply(PublishOutcome),
    /// The wait that the publisher asked for is over.
    Wakeup,
    /// The supervisor asks the publisher to stop.
    Shutdown,
}

/// An event as a mathematical value.
pub enum EventView {
    Message(SplitView),
    Reply(PublishOutcome),
    Wakeup,
    Shutdown,
}

impl View for Event {
    type V = EventView;

    open spec fn view(&self) -> EventView {
        match self {
            Event::Message(split) => EventView::Message(split@),
            Event::Reply(outcome) => EventView::Reply(*outcome),
            Event::Wakeup => EventView::Wakeup,
            Event::Shutdown => EventView::Shutdown,
        }
    }
}

/// What the owner of the publisher has to do next.
#[derive(Clone, Debug, PartialEq, Eq)]
pub enum Action {
    /// Call the metastore with this request, and come back with a `Reply`.
    Publish(PublishRequest),
    /// Wait this many milliseconds, and come back with a `Wakeup`.
    Wait(u64),
    /// The message is published: acknowledge it.
    Acknowledge,
    /// The message is given up for an error of this kind.
    Discard(ErrorKind),
    /// The message was not taken, and is handed back.
    Reject(RejectReason, UploadedSplit),
    /// The publisher has stopped; a message in flight stays unacknowledged.
    Stop,
    /// The event does not concern the publisher as it stands.
    Nothing,
}

/// An action as a mathematical value.
pub enum ActionView {
    Publish(RequestView),
    Wait(u64),
    Acknowledge,
    Discard(ErrorKind),
    Reject(RejectReason, SplitView),
    Stop,
    Nothing,
}

impl View for Action {
    type V = ActionView;

    open spec fn view(&self) -> ActionView {
        match self {
            Action::Publish(request) => ActionView::Publish(request@),
            Action::Wait(ms) => ActionView::Wait(*ms),
            Action::Acknowledge => ActionView::Acknowledge,
            Action::Discard(kind) => ActionView::Discard(*kind),
            Action::Reject(reason, split) => ActionView::Reject(*reason, split@),
            Action::Stop => ActionView::Stop,
            Action::Nothing => ActionView::Nothing,
        }
    }
}

/// Where the publisher stands with its messages.
pub enum PhaseView {
    /// No message is in flight.
    Idle,
    /// A publish call for the split is under way, after `failures`
    /// transient failures.
    Processing { split: SplitView, failures: u32 },
    /// The publisher waits after the `attempt`-th transient failure.
    Backoff { split: SplitView, attempt: u32 },
    /// The publisher has stopped for good.
    Stopped,
}

/// The publisher as a mathematical value.
pub struct PublisherView {
    /// The indexes that the publisher serves.
    pub indexes: Set<Seq<char>>,
    pub policy: RetryPolicy,
    pub phase: PhaseView,
    /// Whether a shutdown was asked for while a message was in flight.
    pub stop_requested: bool,
    pub observable: ObservableView,
}

/// The count after one more acknowledgement.
pub open spec fn bumped(count: u64) -> u64 {
    if count < u64::MAX {
        (count + 1) as u64
    } else {
        count
    }
}

impl PublisherView {
    /// A split is valid where it has a segment identifier and names an
    /// index that the publisher serves.
    pub open spec fn valid(self, split: SplitView) -> bool {
        split.segment_id.len() > 0 && self.indexes.contains(split.index_id)
    }

    /// A message in flight is valid and within the retry bound, and a
    /// shutdown is pending only while a message is in flight.
    pub open spec fn wf(self) -> bool {
        match self.phase {
            PhaseView::Idle => !self.stop_requested,
            PhaseView::Processing { split, failures } => self.valid(split) && (failures == 0
                || failures < self.policy.max_attempts),
            PhaseView::Backoff { split, attempt } => self.valid(split) && attempt >= 1 && (attempt
                == 1 || attempt <= self.policy.max_attempts),
            PhaseView::Stopped => true,
        }
    }

    /// Where the publisher comes to rest once a message is settled: it
    /// stops where a shutdown is pending, and is idle otherwise.
    pub open spec fn rest(self) -> PhaseView {
        if self.stop_requested {
            PhaseView::Stopped
        } else {
            PhaseView::Idle
        }
    }

    /// A message arrives. An idle publisher takes a valid split and asks for
    /// its publication; it hands an invalid one back and stays as it is. A
    /// publisher that is busy or has stopped hands the message back.
    pub open spec fn accept(self, split: SplitView) -> (PublisherView, ActionView) {
        match self.phase {
            PhaseView::Idle => if self.valid(split) {
                (
                    PublisherView { phase: PhaseView::Processing { split, failures: 0 }, ..self },
                    ActionView::Publish(split.request()),
                )
            } else {
                (self, ActionView::Reject(RejectReason::Invalid, split))
            },
            PhaseView::Stopped => (self, ActionView::Reject(RejectReason::Stopped, split)),
            _ => (self, ActionView::Reject(RejectReason::Busy, split)),
        }
    }

    /// A publish call has ended. A success is counted and acknowledged. A
    /// fault of the sender is recorded and the message given up. A failure
    /// that may pass sends the publisher to wait, longer each time. An
    /// outcome that nothing waits for changes nothing.
    pub open spec fn settle(self, outcome: PublishOutcome) -> (PublisherView, ActionView) {
        match self.phase {
            PhaseView::Processing { split, failures } => match verdict(outcome) {
                Verdict::Success => (
                    PublisherView {
                        phase: self.rest(),
                        observable: ObservableView {
                            last_published_segment_id: Some(split.segment_id),
                            published_count: bumped(self.observable.published_count),
                            last_error_kind: self.observable.last_error_kind,
                        },
                        ..self
                    },
                    ActionView::Acknowledge,
                ),
                Verdict::Drop(kind) => (
                    PublisherView {
                        phase: self.rest(),
                        observable: ObservableView {
                            last_error_kind: Some(kind),
                            ..self.observable
                        },
                        ..self
                    },
                    ActionView::Discard(kind),
                ),
                Verdict::Retry => (
                    PublisherView {
                        phase: PhaseView::Backoff { split, attempt: (failures + 1) as u32 },
                        ..self
                    },
                    ActionView::Wait(self.policy.delay((failures + 1) as nat) as u64),
                ),
            },
            _ => (self, ActionView::Nothing),
        }
    }

    /// A wait is over. A pending shutdown stops the publisher, and leaves
    /// the message unacknowledged. Else the call is made again while the
    /// retry bound allows it, and the message is given up as a transient
    /// failure once it does not. A wakeup that nothing waits for changes
    /// nothing.
    pub open spec fn wake(self) -> (PublisherView, ActionView) {
        match self.phase {
            PhaseView::Backoff { split, attempt } => if self.stop_requested {
                (PublisherView { phase: PhaseView::Stopped, ..self }, ActionView::Stop)
            } else if attempt < self.policy.max_attempts {
                (
                    PublisherView {
                        phase: PhaseView::Processing { split, failures: attempt },
                        ..self
                    },
                    ActionView::Publish(split.request()),
                )
            } else {
                (
                    PublisherView {
                        phase: PhaseView::Idle,
                        observable: ObservableView {
                            last_error_kind: Some(ErrorKind::Transient),
                            ..self.observable
                        },
                        ..self
                    },
                    ActionView::Discard(ErrorKind::Transient),
                )
            },
            _ => (self, ActionView::Nothing),
        }
    }

    /// The supervisor asks for a shutdown. An idle publisher stops at once.
    /// With a message in flight the request is kept: the call under way is
    /// allowed to end, and the publisher stops once the message is settled
    /// or at the next wakeup.
    pub open spec fn shut_down(self) -> (PublisherView, ActionView) {
        match self.phase {
            PhaseView::Idle => (
                PublisherView { phase: PhaseView::Stopped, ..self },
                ActionView::Stop,
            ),
            PhaseView::Stopped => (self, ActionView::Nothing),
            _ => (PublisherView { stop_requested: true, ..self }, ActionView::Nothing),
        }
    }

    /// The publisher after an event, and the action that it asks for.
    pub open spec fn step(self, event: EventView) -> (PublisherView, ActionView) {
        match event {
            EventView::Message(split) => self.accept(split),
            EventView::Reply(outcome) => self.settle(outcome),
            EventView::Wakeup => self.wake(),
            EventView::Shutdown => self.shut_down(),
        }
    }
}

/// Every step keeps the publisher well formed.
pub proof fn lemma_step_keeps_wf(p: PublisherView, event: EventView)
    requires
        p.wf(),
    ensures
        p.step(event).0.wf(),
{
}

#[derive(Clone, Copy, Debug, PartialEq, Eq, Structural)]
enum Phase {
    Idle,
    Processing,
    Backoff,
    Stopped,
}

/// The publisher. It owns the message in flight and the state that an
/// observer may look at; the metastore is its owner's to call.
#[derive(Debug)]
pub struct Publisher {
    indexes: Vec<String>,
    policy: RetryPolicy,
    phase: Phase,
    in_flight: Option<UploadedSplit>,
    failures: u32,
    stop_requested: bool,
    observable: ObservableState,
}

impl View for Publisher {
    type V = PublisherView;

    closed spec fn view(&self) -> PublisherView {
        PublisherView {
            indexes: self.names().to_set(),
            policy: self.policy,
            phase: match self.phase {
                Phase::Idle => PhaseView::Idle,
                Phase::Processing => PhaseView::Processing {
                    split: self.in_flight->0@,
                    failures: self.failures,
                },
                Phase::Backoff => PhaseView::Backoff {
                    split: self.in_flight->0@,
                    attempt: self.failures,
                },
                Phase::Stopped => PhaseView::Stopped,
            },
            stop_requested: self.stop_requested,
            observable: self.observable@,
        }
    }
}

impl Publisher {
    spec fn names(self) -> Seq<Seq<char>> {
        self.indexes@.map_values(|s: String| s@)
    }

    /// The publisher holds the message that it is at work on, and is well
    /// formed as a mathematical value.
    pub closed spec fn wf(self) -> bool {
        &&& self@.wf()
        &&& (self.phase == Phase::Processing || self.phase == Phase::Backoff)
            ==> self.in_flight is Some
    }

    /// A well-formed publisher is well formed as a mathematical value.
    pub proof fn lemma_wf_view(self)
        requires
            self.wf(),
        ensures
            self@.wf(),
    {
    }

    /// An idle publisher that serves the given indexes and retries as the
    /// policy says. Nothing has been published yet, and no error seen.
    pub fn new(indexes: Vec<String>, policy: RetryPolicy) -> (publisher: Publisher)
        ensures
            publisher.wf(),
            publisher@.indexes == indexes@.map_values(|s: String| s@).to_set(),
            publisher@.policy == policy,
            publisher@.phase == PhaseView::Idle,
            !publisher@.stop_requested,
            publisher@.observable == (ObservableView {
                last_published_segment_id: None,
                published_count: 0,
                last_error_kind: None,
            }),
    {
        Publisher {
            indexes,
            policy,
            phase: Phase::Idle,
            in_flight: None,
            failures: 0,
            stop_requested: false,
            observable: ObservableState {
                last_published_segment_id: None,
                published_count: 0,
                last_error_kind: None,
            },
        }
    }

    /// Whether the publisher serves the index of that name.
    pub fn serves(&self, name: &str) -> (known: bool)
        ensures
            known == self@.indexes.contains(name@),
    {
        let mut i: usize = 0;
        while i < self.indexes.len()
            invariant
                i <= self.indexes@.len(),
                forall|j: int| 0 <= j < i ==> self.indexes@[j]@ != name@,
            decreases self.indexes@.len() - i,
        {
            if str_equal(self.indexes[i].as_str(), name) {
                proof {
                    assert(self.names()[i as int] == name@);
                }
                return true;
            }
            i += 1;
        }
        proof {
            let names = self.names();
            assert forall|j: int| 0 <= j < names.len() implies names[j] != name@ by {
                assert(names[j] == self.indexes@[j]@);
            }
        }
        false
    }

    /// Whether the split has a segment identifier and names an index that
    /// the publisher serves.
    pub fn is_valid(&self, split: &UploadedSplit) -> (valid: bool)
        ensures
            valid == self@.valid(split@),
    {
        !split.segment_id.as_str().is_empty() && self.serves(split.index_id.as_str())
    }

    /// What an observer sees of the publisher at this moment.
    pub fn observable_state(&self) -> (state: ObservableState)
        ensures
            state@ == self@.observable,
    {
        ObservableState {
            last_published_segment_id: match &self.observable.last_published_segment_id {
                Some(id) => Some(id.clone()),
                None => None,
            },
            published_count: self.observable.published_count,
            last_error_kind: self.observable.last_error_kind,
        }
    }

    /// Whether no message is in flight and the publisher has not stopped.
    pub fn is_idle(&self) -> (idle: bool)
        ensures
            idle == (self@.phase is Idle),
    {
        self.phase == Phase::Idle
    }

    /// Whether the publisher has stopped for good.
    pub fn is_stopped(&self) -> (stopped: bool)
        ensures
            stopped == (self@.phase is Stopped),
    {
        self.phase == Phase::Stopped
    }

    fn come_to_rest(&mut self)
        requires
            old(self).in_flight is None,
        ensures
            final(self).in_flight is None,
            final(self).phase == if old(self).stop_requested {
                Phase::Stopped
            } else {
                Phase::Idle
            },
            final(self).indexes == old(self).indexes,
            final(self).policy == old(self).policy,
            final(self).failures == old(self).failures,
            final(self).stop_requested == old(self).stop_requested,
            final(self).observable == old(self).observable,
    {
        self.phase = if self.stop_requested {
            Phase::Stopped
        } else {
            Phase::Idle
        };
    }

    /// Takes a message from the inbox. See `PublisherView::accept`.
    pub fn process_message(&mut self, message: UploadedSplit) -> (action: Action)
        requires
            old(self).wf(),
        ensures
            final(self).wf(),
            final(self)@ == old(self)@.accept(message@).0,
            action@ == old(self)@.accept(message@).1,
    {
        match self.phase {
            Phase::Idle => {
                if self.is_valid(&message) {
                    let request = message.request();
                    self.in_flight = Some(message);
                    self.failures = 0;
                    self.phase = Phase::Processing;
                    Action::Publish(request)
                } else {
                    Action::Reject(RejectReason::Invalid, message)
                }
            },
            Phase::Stopped => Action::Reject(RejectReason::Stopped, message),
            _ => Action::Reject(RejectReason::Busy, message),
        }
    }

    /// Takes the outcome of the publish call. See `PublisherView::settle`.
    pub fn handle_reply(&mut self, outcome: PublishOutcome) -> (action: Action)
        requires
            old(self).wf(),
        ensures
            final(self).wf(),
            final(self)@ == old(self)@.settle(outcome).0,
            action@ == old(self)@.settle(outcome).1,
    {
        match self.phase {
            Phase::Processing => match classify(outcome) {
                Verdict::Success => {
                    let split = self.in_flight.take().unwrap();
                    self.observable.last_published_segment_id = Some(split.segment_id);
                    if self.observable.published_count < u64::MAX {
                        self.observable.published_count = self.observable.published_count + 1;
                    }
                    self.come_to_rest();
                    Action::Acknowledge
                },
                Verdict::Drop(kind) => {
                    self.in_flight = None;
                    self.observable.last_error_kind = Some(kind);
                    self.come_to_rest();
                    Action::Discard(kind)
                },
                Verdict::Retry => {
                    self.failures = self.failures + 1;
                    self.phase = Phase::Backoff;
                    Action::Wait(self.policy.backoff_ms(self.failures))
                },
            },
            _ => Action::Nothing,
        }
    }

    /// Takes the end of a wait. See `PublisherView::wake`.
    pub fn handle_wakeup(&mut self) -> (action: Action)
        requires
            old(self).wf(),
        ensures
            final(self).wf(),
            final(self)@ == old(self)@.wake().0,
            action@ == old(self)@.wake().1,
    {
        match self.phase {
            Phase::Backoff => {
                if self.stop_requested {
                    self.in_flight = None;
                    self.phase = Phase::Stopped;
                    Action::Stop
                } else if self.failures < self.policy.max_attempts {
                    let request = match &self.in_flight {
                        Some(split) => split.request(),
                        None => vstd::pervasive::unreached(),
                    };
                    self.phase = Phase::Processing;
                    Action::Publish(request)
                } else {
                    self.in_flight = None;
                    self.observable.last_error_kind = Some(ErrorKind::Transient);
                    self.phase = Phase::Idle;
                    Action::Discard(ErrorKind::Transient)
                }
            },
            _ => Action::Nothing,
        }
    }

    /// Takes a request to shut down. See `PublisherView::shut_down`.
    pub fn handle_shutdown(&mut self) -> (action: Action)
        requires
            old(self).wf(),
        ensures
            final(self).wf(),
            final(self)@ == old(self)@.shut_down().0,
            action@ == old(self)@.shut_down().1,
    {
        match self.phase {
            Phase::Idle => {
                self.phase = Phase::Stopped;
                Action::Stop
            },
            Phase::Stopped => Action::Nothing,
            _ => {
                self.stop_requested = true;
                Action::Nothing
            },
        }
    }

    /// Takes an event, and answers with the action that the owner has to
    /// carry out next. The publisher moves as `PublisherView::step` says.
    pub fn handle(&mut self, event: Event) -> (action: Action)
        requires
            old(self).wf(),
        ensures
            final(self).wf(),
            final(self)@ == old(self)@.step(event@).0,
            action@ == old(self)@.step(event@).1,
    {
        match event {
            Event::Message(message) => self.process_message(message),
            Event::Reply(outcome) => self.handle_reply(outcome),
            Event::Wakeup => self.handle_wakeup(),
            Event::Shutdown => self.handle_shutdown(),
        }
    }
}

} // verus!
