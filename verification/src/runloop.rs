use vstd::prelude::*;

use crate::error::Error;

verus! {

/// Where the run loop of one plugin instance stands. The loop holds at most
/// one message at a time: a state is "in flight" (see [`in_flight`]) exactly
/// while a received message has not yet been resolved.
#[derive(Clone, Copy, PartialEq, Eq, Structural, Debug)]
pub enum LoopState {
    /// No receive issued, no message held. Cancellation is observed here.
    Idle,
    /// A receive call is outstanding; no message is held yet.
    Receiving,
    /// A transform request for the current message is outstanding.
    Transforming,
    /// A delivery call for the current message is outstanding.
    Delivering,
    /// The terminal ack/nack call for the current message is outstanding.
    Resolving,
    /// Terminal: cancelled, or stopped by a fatal error.
    Stopped,
}

/// Why the loop stopped.
#[derive(Clone, Copy, PartialEq, Eq, Structural, Debug)]
pub enum StopCause {
    /// A shutdown signal: the loop stopped cleanly.
    Cancelled,
    /// A fatal backend error, or an event that answers no pending action
    /// (a programmer error in the host). Surfaced to the caller of `run`.
    Fatal,
}

/// What the host reports back to the loop: the outcome of the action it was
/// last asked to perform, or — only while no message is held — a wake-up or
/// a cancellation signal.
#[derive(PartialEq, Eq, Debug)]
pub enum Event {
    /// No cancellation is pending; the loop may pull the next message.
    Wake,
    /// A shutdown signal. Only observed while no message is held.
    Cancel,
    /// The receive call returned a message with this payload.
    Received(Vec<u8>),
    /// The receive call failed temporarily; no message was received.
    RecvTransient,
    /// The receive call failed permanently.
    RecvFatal,
    /// The transformation worker returned this transformed payload.
    TransformedOk(Vec<u8>),
    /// The transformation worker rejected the payload.
    TransformFailed,
    /// The delivery client accepted the payload.
    Delivered,
    /// The delivery client reported a failure.
    DeliveryFailed,
    /// The ack/nack call returned (success or logged best-effort failure).
    Resolved,
}

/// What the loop asks the host to do next.
#[derive(PartialEq, Eq, Debug)]
pub enum Action {
    /// Issue a receive call on the live subscription.
    Receive,
    /// Send this payload to the transformation worker.
    Transform(Vec<u8>),
    /// Hand this payload to the delivery client.
    Deliver(Vec<u8>),
    /// Acknowledge the current message: processing is complete.
    Ack,
    /// Negatively acknowledge the current message: leave redelivery to the
    /// backend's own policy.
    Nack,
    /// Stop the loop for the given cause.
    Stop(StopCause),
    /// Nothing outstanding; poll the cancellation signal and report `Wake`
    /// or `Cancel`.
    Continue,
}

/// A received message is unresolved exactly in these states.
pub open spec fn in_flight(s: LoopState) -> bool {
    s is Transforming || s is Delivering || s is Resolving
}

/// Whether an event answers what the loop is waiting for in state `s`.
/// The host respects this protocol; `spec_step` treats any other pairing as
/// a programmer error and stops the loop fatally.
pub open spec fn event_fits(s: LoopState, e: Event) -> bool {
    match s {
        LoopState::Idle => e is Wake || e is Cancel,
        LoopState::Receiving => e is Received || e is RecvTransient || e is RecvFatal
            || e is Cancel,
        LoopState::Transforming => e is TransformedOk || e is TransformFailed,
        LoopState::Delivering => e is Delivered || e is DeliveryFailed,
        LoopState::Resolving => e is Resolved,
        LoopState::Stopped => false,
    }
}

/// The transition table of the run loop. `transform_enabled` is true when a
/// transformer channel is wired and a transformation config is set; only
/// then does a received payload go through the transformation worker.
pub open spec fn spec_step(transform_enabled: bool, s: LoopState, e: Event) -> (LoopState, Action) {
    match (s, e) {
        (LoopState::Idle, Event::Wake) => (LoopState::Receiving, Action::Receive),
        (LoopState::Idle, Event::Cancel) => (LoopState::Stopped, Action::Stop(StopCause::Cancelled)),
        (LoopState::Receiving, Event::Received(p)) => if transform_enabled {
            (LoopState::Transforming, Action::Transform(p))
        } else {
            (LoopState::Delivering, Action::Deliver(p))
        },
        (LoopState::Receiving, Event::RecvTransient) => (LoopState::Receiving, Action::Receive),
        (LoopState::Receiving, Event::RecvFatal) => (LoopState::Stopped, Action::Stop(StopCause::Fatal)),
        (LoopState::Receiving, Event::Cancel) => (LoopState::Stopped, Action::Stop(StopCause::Cancelled)),
        (LoopState::Transforming, Event::TransformedOk(p)) => (LoopState::Delivering, Action::Deliver(p)),
        (LoopState::Transforming, Event::TransformFailed) => (LoopState::Resolving, Action::Nack),
        (LoopState::Delivering, Event::Delivered) => (LoopState::Resolving, Action::Ack),
        (LoopState::Delivering, Event::DeliveryFailed) => (LoopState::Resolving, Action::Nack),
        (LoopState::Resolving, Event::Resolved) => (LoopState::Idle, Action::Continue),
        _ => (LoopState::Stopped, Action::Stop(StopCause::Fatal)),
    }
}

/// One step of the run loop: from the current state and the event the host
/// reports, the next state and the action the host must perform.
pub fn step(transform_enabled: bool, s: LoopState, e: Event) -> (r: (LoopState, Action))
    ensures
        r == spec_step(transform_enabled, s, e),
{
    match (s, e) {
        (LoopState::Idle, Event::Wake) => (LoopState::Receiving, Action::Receive),
        (LoopState::Idle, Event::Cancel) => (LoopState::Stopped, Action::Stop(StopCause::Cancelled)),
        (LoopState::Receiving, Event::Received(p)) => if transform_enabled {
            (LoopState::Transforming, Action::Transform(p))
        } else {
            (LoopState::Delivering, Action::Deliver(p))
        },
        (LoopState::Receiving, Event::RecvTransient) => (LoopState::Receiving, Action::Receive),
        (LoopState::Receiving, Event::RecvFatal) => (LoopState::Stopped, Action::Stop(StopCause::Fatal)),
        (LoopState::Receiving, Event::Cancel) => (LoopState::Stopped, Action::Stop(StopCause::Cancelled)),
        (LoopState::Transforming, Event::TransformedOk(p)) => (LoopState::Delivering, Action::Deliver(p)),
        (LoopState::Transforming, Event::TransformFailed) => (LoopState::Resolving, Action::Nack),
        (LoopState::Delivering, Event::Delivered) => (LoopState::Resolving, Action::Ack),
        (LoopState::Delivering, Event::DeliveryFailed) => (LoopState::Resolving, Action::Nack),
        (LoopState::Resolving, Event::Resolved) => (LoopState::Idle, Action::Continue),
        _ => (LoopState::Stopped, Action::Stop(StopCause::Fatal)),
    }
}

/// Classify the outcome of a receive call into the event the loop consumes:
/// a message, a transient failure the loop retries, or — for any other
/// error, permanent ones included — a fatal failure that stops the loop.
pub fn event_for_receive(r: Result<Vec<u8>, Error>) -> (ev: Event)
    ensures
        r matches Ok(p) ==> ev == Event::Received(p),
        r matches Err(e) ==> (e is ReceiveTransient ==> ev is RecvTransient),
        r matches Err(e) ==> (!(e is ReceiveTransient) ==> ev is RecvFatal),
{
    match r {
        Ok(p) => Event::Received(p),
        Err(e) => if e.is_transient() {
            Event::RecvTransient
        } else {
            Event::RecvFatal
        },
    }
}

/// Classify the transformation worker's response: a transformed payload to
/// deliver, or a rejection that resolves the message as a nack.
pub fn event_for_transform(r: Result<Vec<u8>, Error>) -> (ev: Event)
    ensures
        r matches Ok(p) ==> ev == Event::TransformedOk(p),
        r is Err ==> ev is TransformFailed,
{
    match r {
        Ok(p) => Event::TransformedOk(p),
        Err(_) => Event::TransformFailed,
    }
}

/// Classify the delivery client's report: success resolves the message as an
/// ack, any failure as a nack (redelivery is the backend's own policy).
pub fn event_for_delivery(r: Result<(), Error>) -> (ev: Event)
    ensures
        r is Ok ==> ev is Delivered,
        r is Err ==> ev is DeliveryFailed,
{
    match r {
        Ok(()) => Event::Delivered,
        Err(_) => Event::DeliveryFailed,
    }
}

/// The ack/nack call is best-effort: whatever it reports, the message's pass
/// through the pipeline is over. A failure of the call itself is only
/// logged; the backend's redelivery timeout keeps processing at-least-once.
pub fn event_for_resolution(r: Result<(), Error>) -> (ev: Event)
    ensures
        ev is Resolved,
{
    match r {
        Ok(()) => Event::Resolved,
        Err(_) => Event::Resolved,
    }
}

/// An action that resolves the current message with the backend.
pub open spec fn is_resolution(a: Action) -> bool {
    a is Ack || a is Nack
}

/// A run of the loop: from state `s`, every event in `evs` answers what the
/// loop is waiting for at its point.
pub open spec fn run_valid(t: bool, s: LoopState, evs: Seq<Event>) -> bool
    decreases evs.len(),
{
    evs.len() == 0 || (event_fits(s, evs.first()) && run_valid(
        t,
        spec_step(t, s, evs.first()).0,
        evs.drop_first(),
    ))
}

/// The state the loop is in after consuming `evs` from state `s`.
pub open spec fn run_final(t: bool, s: LoopState, evs: Seq<Event>) -> LoopState
    decreases evs.len(),
{
    if evs.len() == 0 {
        s
    } else {
        run_final(t, spec_step(t, s, evs.first()).0, evs.drop_first())
    }
}

/// How many ack/nack actions the loop issues while consuming `evs`.
pub open spec fn run_resolutions(t: bool, s: LoopState, evs: Seq<Event>) -> nat
    decreases evs.len(),
{
    if evs.len() == 0 {
        0
    } else {
        (if is_resolution(spec_step(t, s, evs.first()).1) {
            1nat
        } else {
            0nat
        }) + run_resolutions(t, spec_step(t, s, evs.first()).0, evs.drop_first())
    }
}

/// How many receive actions the loop issues while consuming `evs`.
pub open spec fn run_receives(t: bool, s: LoopState, evs: Seq<Event>) -> nat
    decreases evs.len(),
{
    if evs.len() == 0 {
        0
    } else {
        (if spec_step(t, s, evs.first()).1 is Receive {
            1nat
        } else {
            0nat
        }) + run_receives(t, spec_step(t, s, evs.first()).0, evs.drop_first())
    }
}

/// How many delivery actions the loop issues while consuming `evs`.
pub open spec fn run_delivers(t: bool, s: LoopState, evs: Seq<Event>) -> nat
    decreases evs.len(),
{
    if evs.len() == 0 {
        0
    } else {
        (if spec_step(t, s, evs.first()).1 is Deliver {
            1nat
        } else {
            0nat
        }) + run_delivers(t, spec_step(t, s, evs.first()).0, evs.drop_first())
    }
}

/// How many transform requests the loop issues while consuming `evs`.
pub open spec fn run_transforms(t: bool, s: LoopState, evs: Seq<Event>) -> nat
    decreases evs.len(),
{
    if evs.len() == 0 {
        0
    } else {
        (if spec_step(t, s, evs.first()).1 is Transform {
            1nat
        } else {
            0nat
        }) + run_transforms(t, spec_step(t, s, evs.first()).0, evs.drop_first())
    }
}

/// How many messages arrive in `evs`.
pub open spec fn count_received(evs: Seq<Event>) -> nat
    decreases evs.len(),
{
    if evs.len() == 0 {
        0
    } else {
        (if evs.first() is Received {
            1nat
        } else {
            0nat
        }) + count_received(evs.drop_first())
    }
}

/// How many ack/nack calls return in `evs`.
pub open spec fn count_resolved(evs: Seq<Event>) -> nat
    decreases evs.len(),
{
    if evs.len() == 0 {
        0
    } else {
        (if evs.first() is Resolved {
            1nat
        } else {
            0nat
        }) + count_resolved(evs.drop_first())
    }
}

/// How many ack/nack actions the loop still owes in state `s`: one while a
/// message is held whose resolution has not been issued yet.
pub open spec fn owed_resolutions(s: LoopState) -> nat {
    match s {
        LoopState::Transforming => 1nat,
        LoopState::Delivering => 1nat,
        _ => 0nat,
    }
}

/// How many delivery actions the loop can still issue from state `s` without
/// receiving another message.
pub open spec fn deliver_budget(s: LoopState) -> nat {
    match s {
        LoopState::Transforming => 1nat,
        _ => 0nat,
    }
}

/// When no transformation is enabled, a received payload is handed to the
/// delivery client byte-identical, with no transform request.
pub proof fn lemma_untransformed_payload_delivered_verbatim(p: Vec<u8>)
    ensures
        spec_step(false, LoopState::Receiving, Event::Received(p)).0 is Delivering,
        spec_step(false, LoopState::Receiving, Event::Received(p)).1 == Action::Deliver(p),
{
}

/// The loop issues a receive exactly when no message is held: on waking from
/// idle, or retrying after a transient receive failure. In particular it
/// never issues a receive while a received message is unresolved.
pub proof fn lemma_receive_only_while_no_message(t: bool, s: LoopState, e: Event)
    ensures
        spec_step(t, s, e).1 is Receive <==> ((s is Idle && e is Wake) || (s is Receiving
            && e is RecvTransient)),
        spec_step(t, s, e).1 is Receive ==> !in_flight(s),
{
}

/// An ack is issued exactly on a successful delivery; every other resolution
/// is a nack. In particular a delivery failure always resolves as a nack and
/// a transformation failure resolves as a nack without a delivery attempt.
pub proof fn lemma_ack_only_on_successful_delivery(t: bool, s: LoopState, e: Event)
    ensures
        spec_step(t, s, e).1 is Ack <==> (s is Delivering && e is Delivered),
        spec_step(t, LoopState::Delivering, Event::DeliveryFailed)
            == (LoopState::Resolving, Action::Nack),
        spec_step(t, LoopState::Transforming, Event::TransformFailed)
            == (LoopState::Resolving, Action::Nack),
{
}

/// Cancellation observed while idle stops the loop at once.
pub proof fn lemma_cancel_while_idle(t: bool)
    ensures
        spec_step(t, LoopState::Idle, Event::Cancel)
            == (LoopState::Stopped, Action::Stop(StopCause::Cancelled)),
{
}

/// Cancellation is observed only while no message is held: no event that
/// answers an in-flight state is a cancellation, so the loop never abandons
/// a message mid-flight without its terminal ack/nack decision.
pub proof fn lemma_no_cancellation_mid_flight(s: LoopState, e: Event)
    ensures
        in_flight(s) && event_fits(s, e) ==> !(e is Cancel),
{
}

/// Receive failures are classified, never resolved: a transient failure only
/// retries the receive (no message was held, so nothing is acked or nacked),
/// while a permanent one stops the loop and surfaces as fatal.
pub proof fn lemma_receive_failure_handling(t: bool)
    ensures
        spec_step(t, LoopState::Receiving, Event::RecvTransient)
            == (LoopState::Receiving, Action::Receive),
        spec_step(t, LoopState::Receiving, Event::RecvFatal)
            == (LoopState::Stopped, Action::Stop(StopCause::Fatal)),
{
}

/// The stopped state is terminal: no event answers it, so a valid run from
/// it is empty — no further receive, ack or nack is ever issued.
pub proof fn lemma_stopped_is_terminal(t: bool, evs: Seq<Event>)
    requires
        run_valid(t, LoopState::Stopped, evs),
    ensures
        evs.len() == 0,
{
}

/// At-least-once accounting, the heart of the resolution guarantee: over any
/// valid run, the ack/nack actions issued plus the resolution still owed at
/// the end equal the resolution owed at the start plus the messages received.
pub proof fn lemma_resolution_accounting(t: bool, s: LoopState, evs: Seq<Event>)
    requires
        run_valid(t, s, evs),
    ensures
        run_resolutions(t, s, evs) + owed_resolutions(run_final(t, s, evs))
            == owed_resolutions(s) + count_received(evs),
    decreases evs.len(),
{
    if evs.len() != 0 {
        lemma_resolution_accounting(t, spec_step(t, s, evs.first()).0, evs.drop_first());
    }
}

/// For every received message, exactly one of ack/nack is issued: as soon as
/// the message no longer awaits its resolution decision (its terminal
/// ack/nack action has been issued — in particular once the loop is idle
/// again or has stopped), the run that handled it resolved it exactly once —
/// never zero, never both.
pub proof fn lemma_exactly_one_resolution_per_message(t: bool, p: Vec<u8>, evs: Seq<Event>)
    requires
        run_valid(t, spec_step(t, LoopState::Receiving, Event::Received(p)).0, evs),
        count_received(evs) == 0,
        owed_resolutions(run_final(t, spec_step(t, LoopState::Receiving, Event::Received(p)).0, evs))
            == 0,
    ensures
        !is_resolution(spec_step(t, LoopState::Receiving, Event::Received(p)).1),
        run_resolutions(t, spec_step(t, LoopState::Receiving, Event::Received(p)).0, evs) == 1,
{
    lemma_resolution_accounting(t, spec_step(t, LoopState::Receiving, Event::Received(p)).0, evs);
}

/// No resolution without a message: a run that starts owing no resolution
/// and receives no message issues no ack or nack at all, whatever its
/// transient retries, failures or cancellation.
pub proof fn lemma_no_resolution_without_message(t: bool, s: LoopState, evs: Seq<Event>)
    requires
        run_valid(t, s, evs),
        owed_resolutions(s) == 0,
        count_received(evs) == 0,
    ensures
        run_resolutions(t, s, evs) == 0,
{
    lemma_resolution_accounting(t, s, evs);
}

/// A message is never resolved twice: even before its pass is complete, a
/// run that receives no further message issues at most one ack/nack.
pub proof fn lemma_at_most_one_resolution_per_message(t: bool, p: Vec<u8>, evs: Seq<Event>)
    requires
        run_valid(t, spec_step(t, LoopState::Receiving, Event::Received(p)).0, evs),
        count_received(evs) == 0,
    ensures
        run_resolutions(t, spec_step(t, LoopState::Receiving, Event::Received(p)).0, evs) <= 1,
{
    lemma_resolution_accounting(t, spec_step(t, LoopState::Receiving, Event::Received(p)).0, evs);
}

/// Delivery accounting: the delivery actions a run issues never exceed the
/// deliveries its starting state allows plus the messages it receives.
pub proof fn lemma_deliver_accounting(t: bool, s: LoopState, evs: Seq<Event>)
    requires
        run_valid(t, s, evs),
    ensures
        run_delivers(t, s, evs) + deliver_budget(run_final(t, s, evs))
            <= deliver_budget(s) + count_received(evs),
    decreases evs.len(),
{
    if evs.len() != 0 {
        lemma_deliver_accounting(t, spec_step(t, s, evs.first()).0, evs.drop_first());
    }
}

/// A transformation failure never results in a delivery attempt: the message
/// is nacked at once, and until another message arrives the loop issues no
/// delivery at all.
pub proof fn lemma_transform_failure_no_delivery(t: bool, evs: Seq<Event>)
    requires
        run_valid(t, spec_step(t, LoopState::Transforming, Event::TransformFailed).0, evs),
        count_received(evs) == 0,
    ensures
        spec_step(t, LoopState::Transforming, Event::TransformFailed).1 is Nack,
        run_delivers(t, spec_step(t, LoopState::Transforming, Event::TransformFailed).0, evs)
            == 0,
{
    lemma_deliver_accounting(
        t,
        spec_step(t, LoopState::Transforming, Event::TransformFailed).0,
        evs,
    );
}

/// One transform request per message: a run never issues more transform
/// requests than it receives messages. In particular, while no new message
/// arrives, no transform request is outstanding beyond the current one.
pub proof fn lemma_one_transform_request_per_message(t: bool, s: LoopState, evs: Seq<Event>)
    requires
        run_valid(t, s, evs),
    ensures
        run_transforms(t, s, evs) <= count_received(evs),
    decreases evs.len(),
{
    if evs.len() != 0 {
        lemma_one_transform_request_per_message(t, spec_step(t, s, evs.first()).0, evs.drop_first());
    }
}

/// While a received message is unresolved, no second receive is issued: a
/// run that starts with a message in flight and in which the terminal
/// ack/nack call has not yet returned keeps the message in flight and issues
/// no receive.
pub proof fn lemma_no_receive_while_unresolved(t: bool, s: LoopState, evs: Seq<Event>)
    requires
        run_valid(t, s, evs),
        in_flight(s),
        count_resolved(evs) == 0,
    ensures
        in_flight(run_final(t, s, evs)),
        run_receives(t, s, evs) == 0,
    decreases evs.len(),
{
    if evs.len() != 0 {
        lemma_no_receive_while_unresolved(t, spec_step(t, s, evs.first()).0, evs.drop_first());
    }
}

} // verus!
