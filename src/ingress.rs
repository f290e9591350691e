use vstd::prelude::*;

verus! {

/// One item received on the response subscription.
#[derive(Clone, Debug, PartialEq)]
pub enum SubscriptionEvent {
    /// An event carrying a raw response.
    Payload(String),
    /// An event whose payload could not be read as a raw response.
    Malformed,
    /// The subscription stream has ended.
    Closed,
}

/// What the subscription loop does with one event.
#[derive(Clone, Debug, PartialEq)]
pub enum IngressStep {
    /// Hand the raw response, unmodified, to the response renderer.
    Deliver(String),
    /// Drop the event and keep listening.
    Skip,
    /// Leave the loop.
    Stop,
}

/// What the subscription loop does with one event.
pub open spec fn step_of(event: SubscriptionEvent) -> IngressStep {
    match event {
        SubscriptionEvent::Payload(raw) => IngressStep::Deliver(raw),
        SubscriptionEvent::Malformed => IngressStep::Skip,
        SubscriptionEvent::Closed => IngressStep::Stop,
    }
}

/// The raw responses a subscription delivers, in receipt order, for a run of
/// events: payloads up to the end of the stream, malformed events skipped.
pub open spec fn delivered(events: Seq<SubscriptionEvent>) -> Seq<String>
    decreases events.len(),
{
    if events.len() == 0 {
        Seq::empty()
    } else {
        match step_of(events[0]) {
            IngressStep::Deliver(raw) => seq![raw] + delivered(events.drop_first()),
            IngressStep::Skip => delivered(events.drop_first()),
            IngressStep::Stop => Seq::empty(),
        }
    }
}

/// Decides what the subscription loop does with `event`.
pub fn ingress_step(event: SubscriptionEvent) -> (r: IngressStep)
    ensures
        r == step_of(event),
{
    match event {
        SubscriptionEvent::Payload(raw) => IngressStep::Deliver(raw),
        SubscriptionEvent::Malformed => IngressStep::Skip,
        SubscriptionEvent::Closed => IngressStep::Stop,
    }
}

/// A malformed event does not end the subscription: whatever follows it is
/// delivered exactly as if it had not been received.
pub proof fn lemma_malformed_event_is_skipped(rest: Seq<SubscriptionEvent>)
    ensures
        delivered(seq![SubscriptionEvent::Malformed] + rest) == delivered(rest),
{
    let events = seq![SubscriptionEvent::Malformed] + rest;
    assert(events.drop_first() =~= rest);
}

/// Each payload received before the stream ends is delivered, in order.
pub proof fn lemma_payload_is_delivered(raw: String, rest: Seq<SubscriptionEvent>)
    ensures
        delivered(seq![SubscriptionEvent::Payload(raw)] + rest) == seq![raw] + delivered(rest),
{
    let events = seq![SubscriptionEvent::Payload(raw)] + rest;
    assert(events.drop_first() =~= rest);
}

} // verus!
