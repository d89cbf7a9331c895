//! Fan-out of message events to every platform but the one an event came
//! from.

use vstd::prelude::*;
use crate::config::GroupConfig;
use crate::message::{Message, MessageView};

verus! {

/// The platform a message or a receiver belongs to.
#[derive(Debug, Clone, Copy, PartialEq, Eq, Structural)]
pub enum Source {
    Discord,
    Telegram,
}

impl Source {
    /// The short tag that stands for the platform in a rendered name.
    pub open spec fn tag(self) -> Seq<char> {
        match self {
            Source::Discord => "dc"@,
            Source::Telegram => "tg"@,
        }
    }

    /// The short tag that stands for the platform in a rendered name.
    pub fn tag_str(self) -> (out: &'static str)
        ensures
            out@ == self.tag(),
    {
        match self {
            Source::Discord => "dc",
            Source::Telegram => "tg",
        }
    }
}

/// What happened to a message on the platform it was written on.
#[derive(Debug)]
pub enum MessageEvent {
    /// A message was written.
    Create(Message),
    /// The message with this identity has a new text.
    Update(u64, String),
    /// The message with this identity was deleted.
    Delete(u64),
}

/// An event as plain mathematical data.
pub enum EventView {
    Create(MessageView),
    Update(u64, Seq<char>),
    Delete(u64),
}

impl View for MessageEvent {
    type V = EventView;

    open spec fn view(&self) -> EventView {
        match self {
            MessageEvent::Create(message) => EventView::Create(message@),
            MessageEvent::Update(id, text) => EventView::Update(*id, text@),
            MessageEvent::Delete(id) => EventView::Delete(*id),
        }
    }
}

/// Why an event did not reach a platform.
#[derive(Debug)]
pub enum RelayError {
    /// The platform has no record of the message with this identity.
    CorrelationMiss(u64),
    /// The platform could not be reached or refused the call.
    Transport(String),
    /// A mention names a user by something that is no number of an
    /// account.
    InvalidMention(String),
}

/// An error as plain mathematical data.
pub enum ErrorView {
    CorrelationMiss(u64),
    Transport(Seq<char>),
    InvalidMention(Seq<char>),
}

impl View for RelayError {
    type V = ErrorView;

    open spec fn view(&self) -> ErrorView {
        match self {
            RelayError::CorrelationMiss(id) => ErrorView::CorrelationMiss(*id),
            RelayError::Transport(reason) => ErrorView::Transport(reason@),
            RelayError::InvalidMention(id) => ErrorView::InvalidMention(id@),
        }
    }
}

impl ErrorView {
    /// The error in words.
    pub open spec fn message(self) -> Seq<char> {
        match self {
            ErrorView::CorrelationMiss(id) => "could not find core message "@
                + crate::text::decimal(id as nat),
            ErrorView::Transport(reason) => reason,
            ErrorView::InvalidMention(id) => "invalid mention of "@ + id,
        }
    }
}

impl RelayError {
    /// The error in words.
    pub fn describe(&self) -> (out: String)
        ensures
            out@ == self@.message(),
    {
        match self {
            RelayError::CorrelationMiss(id) => {
                let mut out = "could not find core message ".to_owned();
                crate::text::push_decimal(&mut out, *id as u128);
                out
            },
            RelayError::Transport(reason) => reason.clone(),
            RelayError::InvalidMention(id) => {
                let mut out = "invalid mention of ".to_owned();
                out.append(id.as_str());
                out
            },
        }
    }
}

/// One call of `receive`: what the receiver was handed, and the error it
/// came back with, if it failed.
pub struct Delivery {
    pub group: GroupConfig,
    pub event: EventView,
    pub error: Option<ErrorView>,
}

/// The error that a call came back with, if any.
pub open spec fn failure_of(outcome: Result<(), RelayError>) -> Option<ErrorView> {
    match outcome {
        Ok(_) => None,
        Err(error) => Some(error@),
    }
}

/// A platform that events are delivered to.
///
/// `source` and `delivered` are what the contracts of the broadcaster
/// speak of. A receiver that is verified says what they are; they have a
/// body here so that a receiver outside of proofs need not.
pub trait BroadcastReceiver {
    /// The platform that this receiver delivers to.
    open spec fn source(&self) -> Source {
        arbitrary()
    }

    /// Every call of `receive` on this receiver, oldest first: what it
    /// was handed and how the call ended.
    open spec fn delivered(&self) -> Seq<Delivery> {
        arbitrary()
    }

    /// Delivers an event to the platform. An error says that the event
    /// did not arrive there. The call is put on record, whatever its end.
    fn receive(&mut self, group: &GroupConfig, event: &MessageEvent) -> (out: Result<
        (),
        RelayError,
    >)
        ensures
            final(self).source() == old(self).source(),
            final(self).delivered() == old(self).delivered().push(
                Delivery { group: *group, event: event@, error: failure_of(out) },
            ),
    ;

    /// The platform that this receiver delivers to.
    fn get_receiver_source(&self) -> (out: Source)
        ensures
            out == self.source(),
    ;
}

/// Where a broadcast stopped: the place of the receiver that failed, in
/// the order of registration, and its error.
pub struct Failure {
    pub at: int,
    pub error: ErrorView,
}

/// True where a broadcast calls the receiver at place `i`: it is not of
/// the platform that the event came from, and it is not registered
/// behind the receiver that failed.
pub open spec fn is_called(source: Source, origin: Source, i: int, failure: Option<Failure>) -> bool {
    source != origin && match failure {
        Some(failure) => i <= failure.at,
        None => true,
    }
}

/// How the call of the receiver at place `i` ended: with the error of the
/// broadcast where it is the receiver that failed, well otherwise.
pub open spec fn end_of_call(i: int, failure: Option<Failure>) -> Option<ErrorView> {
    match failure {
        Some(failure) => if i == failure.at {
            Some(failure.error)
        } else {
            None
        },
        None => None,
    }
}

/// What a broadcast makes of the receiver at place `i`: it stays of its
/// platform; where the broadcast calls it, it has exactly one more
/// delivery, of the group and the event of the broadcast; where not, its
/// deliveries are as they were.
pub open spec fn reached<R: BroadcastReceiver>(
    before: R,
    after: R,
    i: int,
    failure: Option<Failure>,
    group: GroupConfig,
    event: EventView,
    origin: Source,
) -> bool {
    &&& after.source() == before.source()
    &&& after.delivered() == if is_called(before.source(), origin, i, failure) {
        before.delivered().push(Delivery { group, event, error: end_of_call(i, failure) })
    } else {
        before.delivered()
    }
}

/// The registered receivers, in the order in which they were added.
pub struct Broadcaster<R: BroadcastReceiver> {
    receivers: Vec<R>,
}

impl<R: BroadcastReceiver> Broadcaster<R> {
    /// The receivers in the order of their registration.
    pub closed spec fn receivers(&self) -> Seq<R> {
        self.receivers@
    }

    /// A broadcaster without receivers.
    pub fn init() -> (out: Self)
        ensures
            out.receivers().len() == 0,
    {
        Broadcaster { receivers: Vec::new() }
    }

    /// Registers a receiver behind those already there.
    pub fn add_receiver(&mut self, receiver: R) -> (out: &mut Self)
        ensures
            out.receivers() == old(self).receivers().push(receiver),
            *final(self) == *final(out),
    {
        self.receivers.push(receiver);
        self
    }

    /// The number of receivers.
    pub fn len(&self) -> (out: usize)
        ensures
            out == self.receivers().len(),
    {
        self.receivers.len()
    }

    /// The platform of the receiver at place `i`.
    pub fn source_of(&self, i: usize) -> (out: Source)
        requires
            i < self.receivers().len(),
        ensures
            out == self.receivers()[i as int].source(),
    {
        self.receivers[i].get_receiver_source()
    }

    /// Hands the event to every receiver that is not of the platform the
    /// event came from, in the order of registration, and stops at the
    /// first that fails: the receivers behind it are not called, and its
    /// error is returned. The receivers stay where they are.
    pub fn broadcast(&mut self, group: &GroupConfig, event: &MessageEvent, source: Source) -> (out:
        Result<(), RelayError>)
        ensures
            final(self).receivers().len() == old(self).receivers().len(),
            out is Ok ==> forall|i: int|
                0 <= i < old(self).receivers().len() ==> reached(
                    old(self).receivers()[i],
                    #[trigger] final(self).receivers()[i],
                    i,
                    None,
                    *group,
                    event@,
                    source,
                ),
            out matches Err(error) ==> exists|at: int|
                {
                    &&& 0 <= at < old(self).receivers().len()
                    &&& #[trigger] old(self).receivers()[at].source() != source
                    &&& forall|i: int|
                        0 <= i < old(self).receivers().len() ==> reached(
                            old(self).receivers()[i],
                            #[trigger] final(self).receivers()[i],
                            i,
                            Some(Failure { at, error: error@ }),
                            *group,
                            event@,
                            source,
                        )
                },
    {
        let mut i: usize = 0;
        while i < self.receivers.len()
            invariant
                0 <= i <= self.receivers.len(),
                self.receivers@.len() == old(self).receivers@.len(),
                forall|k: int|
                    0 <= k < i ==> reached(
                        old(self).receivers@[k],
                        #[trigger] self.receivers@[k],
                        k,
                        None,
                        *group,
                        event@,
                        source,
                    ),
                forall|k: int|
                    i <= k < self.receivers@.len() ==> #[trigger] self.receivers@[k] == old(
                        self,
                    ).receivers@[k],
            decreases self.receivers.len() - i,
        {
            if self.receivers[i].get_receiver_source() != source {
                let ghost before = self.receivers@;
                let result = self.receivers[i].receive(group, event);
                assert(forall|k: int|
                    0 <= k < before.len() && k != i ==> self.receivers@[k] == before[k]);
                match result {
                    Ok(()) => {},
                    Err(error) => {
                        let ghost failure = Some(Failure { at: i as int, error: error@ });
                        assert(old(self).receivers()[i as int].source() != source);
                        assert forall|k: int| 0 <= k < self.receivers@.len() implies reached(
                            old(self).receivers@[k],
                            #[trigger] self.receivers@[k],
                            k,
                            failure,
                            *group,
                            event@,
                            source,
                        ) by {
                            if k != i {
                                assert(self.receivers@[k] == before[k]);
                            }
                        }
                        return Err(error);
                    },
                }
            }
            i += 1;
        }
        Ok(())
    }
}

/// The echo rule: a broadcast never calls a receiver of the platform
/// that the event came from.
pub proof fn origin_is_never_called<R: BroadcastReceiver>(
    before: R,
    after: R,
    i: int,
    failure: Option<Failure>,
    group: GroupConfig,
    event: EventView,
    origin: Source,
)
    requires
        reached(before, after, i, failure, group, event, origin),
        before.source() == origin,
    ensures
        after.delivered() == before.delivered(),
{
}

/// A receiver of another platform that the broadcast comes to is called
/// exactly once, with the group and the event of the broadcast.
pub proof fn others_are_called_once<R: BroadcastReceiver>(
    before: R,
    after: R,
    i: int,
    failure: Option<Failure>,
    group: GroupConfig,
    event: EventView,
    origin: Source,
)
    requires
        reached(before, after, i, failure, group, event, origin),
        before.source() != origin,
        failure matches Some(f) ==> i <= f.at,
    ensures
        after.delivered().len() == before.delivered().len() + 1,
        after.delivered().drop_last() == before.delivered(),
        after.delivered().last().group == group,
        after.delivered().last().event == event,
{
    assert(after.delivered().drop_last() =~= before.delivered());
}

/// Failure propagation: a receiver registered behind the one that failed
/// is not called, every receiver called before it was called with
/// success, and the error of the broadcast is the error that the failing
/// receiver came back with.
pub proof fn none_is_called_after_a_failure<R: BroadcastReceiver>(
    before: R,
    after: R,
    i: int,
    at: int,
    error: ErrorView,
    group: GroupConfig,
    event: EventView,
    origin: Source,
)
    requires
        reached(before, after, i, Some(Failure { at, error }), group, event, origin),
    ensures
        i > at ==> after.delivered() == before.delivered(),
        i == at && before.source() != origin ==> after.delivered().last().error == Some(error),
        i < at && before.source() != origin ==> after.delivered().last().error is None,
{
}

/// With a receiver of the origin registered first and a receiver of
/// another platform second, a broadcast that succeeds has called the
/// second exactly once and the first not at all.
pub proof fn echo_rule_for_two<R: BroadcastReceiver>(
    before: Seq<R>,
    after: Seq<R>,
    group: GroupConfig,
    event: EventView,
    origin: Source,
)
    requires
        before.len() == 2,
        after.len() == 2,
        before[0].source() == origin,
        before[1].source() != origin,
        forall|i: int|
            0 <= i < 2 ==> reached(before[i], #[trigger] after[i], i, None, group, event, origin),
    ensures
        after[0].delivered() == before[0].delivered(),
        after[1].delivered() == before[1].delivered().push(
            Delivery { group, event, error: None },
        ),
{
    assert(reached(before[0], after[0], 0, None, group, event, origin));
    assert(reached(before[1], after[1], 1, None, group, event, origin));
}

} // verus!
