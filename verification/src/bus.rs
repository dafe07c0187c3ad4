//! Event bus and notification outcomes.
//!
//! The bus is the minimal channel from native events to the UI layer. Emission
//! is fire-and-forget with at-most-once delivery: an event emitted while a
//! subscriber is attached is observed by it exactly once; one emitted while no
//! subscriber is attached is dropped on the spot. Nothing is buffered and
//! nothing is replayed, so a subscriber attached later never observes it.

use vstd::prelude::*;

verus! {

/// A named payload travelling from the native layer to the UI.
#[derive(Debug, Clone, PartialEq, Eq)]
pub struct BusEvent {
    pub name: String,
    pub payload: String,
}

/// What became of one emission.
#[derive(Debug, Clone, Copy, PartialEq, Eq, Structural)]
pub enum Delivery {
    /// The attached subscriber observed the event.
    Delivered,
    /// No subscriber was attached; the event is gone.
    Dropped,
}

/// Why presenting a native notification failed. Returned to the caller, never
/// escalated to a fatal error.
#[derive(Debug, Clone, PartialEq, Eq)]
pub enum NotificationError {
    ShowFailed(String),
}

/// `post` extends `pre` by exactly one event carrying `name` and `payload`.
pub open spec fn emitted(
    pre: Seq<BusEvent>,
    post: Seq<BusEvent>,
    name: Seq<char>,
    payload: Seq<char>,
) -> bool {
    &&& post.len() == pre.len() + 1
    &&& post.subrange(0, pre.len() as int) == pre
    &&& post.last().name@ == name
    &&& post.last().payload@ == payload
}

/// The channel from native events to the UI layer. `delivered` is the sequence
/// of events the attached subscriber has observed, in emission order.
#[derive(Debug, Clone, PartialEq, Eq)]
pub struct EventBus {
    pub subscribed: bool,
    pub delivered: Vec<BusEvent>,
}

impl EventBus {
    /// A fresh bus: no subscriber, nothing observed.
    pub fn new() -> (r: EventBus)
        ensures
            !r.subscribed,
            r.delivered@ == Seq::<BusEvent>::empty(),
    {
        EventBus { subscribed: false, delivered: Vec::new() }
    }

    /// Attaches the UI subscriber. What it observes from now on starts from
    /// the current point: attaching replays nothing, so events dropped before
    /// this call stay unobserved.
    pub fn attach_subscriber(&mut self)
        ensures
            final(self).subscribed,
            final(self).delivered@ == old(self).delivered@,
    {
        self.subscribed = true;
    }

    /// Forwards a named payload toward the UI layer, fire-and-forget.
    ///
    /// With a subscriber attached the event is delivered to it exactly once;
    /// without one it is dropped and leaves no trace — there is no queuing for
    /// absent subscribers.
    pub fn emit(&mut self, name: String, payload: String) -> (r: Delivery)
        ensures
            final(self).subscribed == old(self).subscribed,
            old(self).subscribed ==> r == Delivery::Delivered
                && final(self).delivered@ == old(self).delivered@.push(BusEvent { name, payload }),
            !old(self).subscribed ==> r == Delivery::Dropped
                && final(self).delivered@ == old(self).delivered@,
    {
        if self.subscribed {
            self.delivered.push(BusEvent { name, payload });
            Delivery::Delivered
        } else {
            Delivery::Dropped
        }
    }
}

/// No buffering: an emission made while no subscriber is attached, followed by
/// attaching a subscriber, leaves the observed sequence exactly as it was
/// before the emission — the event arriving strictly before the subscription
/// is never observed.
pub proof fn lemma_pre_subscription_event_unobserved(b0: EventBus, b1: EventBus, b2: EventBus)
    requires
        !b0.subscribed,
        // what `emit` guarantees on an unsubscribed bus
        b1.subscribed == b0.subscribed,
        b1.delivered@ == b0.delivered@,
        // what `attach_subscriber` guarantees
        b2.subscribed,
        b2.delivered@ == b1.delivered@,
    ensures
        b2.delivered@ == b0.delivered@,
{
}

/// Maps the outcome of the native notification call to the caller-visible
/// result: success stays success, and a failure reason is surfaced as
/// `ShowFailed` with that reason — never escalated further.
pub fn notification_outcome(shown: Result<(), String>) -> (r: Result<(), NotificationError>)
    ensures
        shown is Ok <==> r is Ok,
        shown matches Err(reason) ==> r == Err::<(), NotificationError>(
            NotificationError::ShowFailed(reason),
        ),
{
    match shown {
        Ok(()) => Ok(()),
        Err(reason) => Err(NotificationError::ShowFailed(reason)),
    }
}

impl NotificationError {
    /// The UI-facing message: the reason the notification could not be shown.
    pub fn message(&self) -> (r: String)
        ensures
            self matches NotificationError::ShowFailed(reason) ==> r@ == reason@,
    {
        match self {
            NotificationError::ShowFailed(reason) => reason.clone(),
        }
    }
}

} // verus!
