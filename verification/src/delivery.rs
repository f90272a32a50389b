//! What the worker owes the broker for one delivery.
//!
//! A delivery is taken off the queue, handed to the router, and settled once
//! its job has ended. A result is published first and the delivery
//! acknowledged after: a worker that stops in between publishes the result
//! twice and never loses it. A delivery whose routing key selects no job is
//! acknowledged without a result, so that the broker does not send it again.
//! A delivery whose job failed is left unacknowledged: the broker decides
//! what becomes of it.

use vstd::prelude::*;

use crate::jobs::JobError;

verus! {

/// One message from the broker.
#[derive(Debug, Clone, PartialEq, Eq)]
pub struct Delivery {
    /// Selects the job.
    pub routing_key: String,
    /// The exchange the message came through.
    pub exchange: String,
    /// The body of the message.
    pub payload: Vec<u8>,
}

/// Where a delivery stands.
#[derive(Debug, Clone, Copy, PartialEq, Eq, Structural)]
pub enum DeliveryState {
    /// Taken off the queue.
    Received,
    /// Handed to the router; its job runs.
    Dispatched,
    /// The result was published and the delivery acknowledged.
    AcknowledgedPublished,
    /// The delivery was acknowledged and nothing was published.
    AcknowledgedUnpublished,
    /// Neither published nor acknowledged.
    Dropped,
}

/// What the outside world reports about a delivery.
#[derive(Debug)]
pub enum DeliveryEvent {
    /// The message that was taken off the queue.
    Taken(Delivery),
    /// How the job ended: the serialized result, or the failure.
    Resolved(Result<String, JobError>),
}

/// What is to be done for a delivery.
#[derive(Debug)]
pub enum DeliveryAction {
    /// Hand this routing key and payload to the router, as a unit of work
    /// of its own.
    Dispatch(String, Vec<u8>),
    /// Publish this result.
    Publish(String),
    /// Acknowledge the delivery.
    Acknowledge,
    /// Report this failure.
    Report(JobError),
}

impl DeliveryState {
    /// Whether nothing more happens to a delivery in this state.
    pub open spec fn is_terminal(self) -> bool {
        self is AcknowledgedPublished || self is AcknowledgedUnpublished || self is Dropped
    }
}

/// The state that a dispatched delivery ends in, and what is to be done for
/// it in this order, once its job has ended with `outcome`.
pub open spec fn settlement(outcome: Result<String, JobError>) -> (
    DeliveryState,
    Seq<DeliveryAction>,
) {
    match outcome {
        Ok(result) => (
            DeliveryState::AcknowledgedPublished,
            seq![DeliveryAction::Publish(result), DeliveryAction::Acknowledge],
        ),
        Err(JobError::NotFoundJobError(key)) => (
            DeliveryState::AcknowledgedUnpublished,
            seq![
                DeliveryAction::Report(JobError::NotFoundJobError(key)),
                DeliveryAction::Acknowledge,
            ],
        ),
        Err(failure) => (DeliveryState::Dropped, seq![DeliveryAction::Report(failure)]),
    }
}

/// The state a delivery goes to at `state` when told `event`, and what is
/// to be done for it, in this order.
pub open spec fn delivery_step(state: DeliveryState, event: DeliveryEvent) -> (
    DeliveryState,
    Seq<DeliveryAction>,
) {
    match (state, event) {
        (DeliveryState::Received, DeliveryEvent::Taken(delivery)) => (
            DeliveryState::Dispatched,
            seq![DeliveryAction::Dispatch(delivery.routing_key, delivery.payload)],
        ),
        (DeliveryState::Dispatched, DeliveryEvent::Resolved(outcome)) => settlement(outcome),
        _ => (state, Seq::empty()),
    }
}

/// Advances a delivery by one event.
///
/// A delivery starts as [`DeliveryState::Received`] and is dispatched when
/// its message is told. When the outcome of its job is told, it is settled.
/// Any other event changes nothing and asks for nothing.
pub fn consume_delivery(state: DeliveryState, event: DeliveryEvent) -> (step: (
    DeliveryState,
    Vec<DeliveryAction>,
))
    ensures
        step.0 == delivery_step(state, event).0,
        step.1@ == delivery_step(state, event).1,
{
    let mut actions: Vec<DeliveryAction> = Vec::new();
    match (state, event) {
        (DeliveryState::Received, DeliveryEvent::Taken(delivery)) => {
            actions.push(DeliveryAction::Dispatch(delivery.routing_key, delivery.payload));
            (DeliveryState::Dispatched, actions)
        },
        (DeliveryState::Dispatched, DeliveryEvent::Resolved(Ok(result))) => {
            actions.push(DeliveryAction::Publish(result));
            actions.push(DeliveryAction::Acknowledge);
            (DeliveryState::AcknowledgedPublished, actions)
        },
        (
            DeliveryState::Dispatched,
            DeliveryEvent::Resolved(Err(JobError::NotFoundJobError(key))),
        ) => {
            actions.push(DeliveryAction::Report(JobError::NotFoundJobError(key)));
            actions.push(DeliveryAction::Acknowledge);
            (DeliveryState::AcknowledgedUnpublished, actions)
        },
        (DeliveryState::Dispatched, DeliveryEvent::Resolved(Err(failure))) => {
            actions.push(DeliveryAction::Report(failure));
            (DeliveryState::Dropped, actions)
        },
        (state, _) => (state, actions),
    }
}

/// A result is published exactly for a dispatched delivery whose job
/// succeeded, and it is then the first thing done: no acknowledgement
/// comes before it.
pub proof fn lemma_publish_comes_first(state: DeliveryState, event: DeliveryEvent, at: int)
    requires
        0 <= at < delivery_step(state, event).1.len(),
        delivery_step(state, event).1[at] is Publish,
    ensures
        state is Dispatched,
        event matches DeliveryEvent::Resolved(Ok(result)) && delivery_step(state, event).1[at]
            == DeliveryAction::Publish(result),
        at == 0,
        forall|earlier: int| 0 <= earlier < at ==> !(delivery_step(state, event).1[earlier] is Acknowledge),
{
}

/// A dispatched delivery whose job has ended is settled for good: it is
/// acknowledged with its result published where the job succeeded,
/// acknowledged with nothing published where no job goes by its routing
/// key, and dropped where the job failed otherwise.
pub proof fn lemma_settlement_is_final(outcome: Result<String, JobError>)
    ensures
        settlement(outcome).0.is_terminal(),
        settlement(outcome).0 is AcknowledgedPublished <==> outcome is Ok,
        settlement(outcome).0 is AcknowledgedUnpublished <==> (outcome matches Err(
            JobError::NotFoundJobError(_),
        )),
        settlement(outcome).0 is Dropped <==> (outcome matches Err(failure) && !(failure is NotFoundJobError)),
{
}

/// The delivery is acknowledged exactly where it ends in an acknowledged
/// state, and then as the last thing done; a failure is reported exactly
/// where the job failed.
pub proof fn lemma_acknowledged_last(outcome: Result<String, JobError>)
    ensures
        settlement(outcome).0 is Dropped <==> forall|at: int|
            0 <= at < settlement(outcome).1.len() ==> !(#[trigger] settlement(outcome).1[at] is Acknowledge),
        !(settlement(outcome).0 is Dropped) ==> settlement(outcome).1.last() is Acknowledge,
        outcome matches Err(failure) ==> settlement(outcome).1[0] == DeliveryAction::Report(failure),
        outcome is Ok ==> forall|at: int|
            0 <= at < settlement(outcome).1.len() ==> !(#[trigger] settlement(outcome).1[at] is Report),
{
    if !(settlement(outcome).0 is Dropped) {
        let last = settlement(outcome).1.len() - 1;
        assert(settlement(outcome).1[last] is Acknowledge);
    }
}

/// Nothing more happens to a settled delivery: every event leaves it where
/// it is and asks for nothing.
pub proof fn lemma_terminal_states_absorb(state: DeliveryState, event: DeliveryEvent)
    requires
        state.is_terminal(),
    ensures
        delivery_step(state, event) == (state, Seq::<DeliveryAction>::empty()),
{
}

} // verus!
