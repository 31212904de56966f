use svix_bridge_plugin_queue::config::{
    GCPPubSubInputOpts, SenderOutputOpts, SvixSenderOutputOpts, TransformationConfig,
    TransformerTx,
};
use svix_bridge_plugin_queue::error::Error;
use svix_bridge_plugin_queue::plugin::GCPPubSubConsumerPlugin;
use svix_bridge_plugin_queue::runloop::{
    event_for_delivery, event_for_receive, event_for_resolution, event_for_transform, step,
    Action, Event, LoopState, StopCause,
};

fn orders_plugin(transformation: Option<TransformationConfig>) -> GCPPubSubConsumerPlugin {
    let input = GCPPubSubInputOpts {
        subscription_id: "orders".to_string(),
        credentials_file: None,
    };
    let output = SenderOutputOpts::Svix(SvixSenderOutputOpts {
        token: "tok_abc".to_string(),
        options: None,
    });
    GCPPubSubConsumerPlugin::new("gcp-orders".to_string(), input, transformation, output)
}

fn is_resolution(a: &Action) -> bool {
    matches!(a, Action::Ack | Action::Nack)
}

#[test]
fn untransformed_message_is_delivered_verbatim_and_acked() {
    let plugin = orders_plugin(None);
    assert!(!plugin.transform_enabled());
    let payload = b"{\"order_id\":1}".to_vec();
    let mut actions: Vec<Action> = Vec::new();

    let (s, a) = step(plugin.transform_enabled(), LoopState::Idle, Event::Wake);
    assert_eq!((s, &a), (LoopState::Receiving, &Action::Receive));
    actions.push(a);
    let (s, a) = step(plugin.transform_enabled(), s, Event::Received(payload.clone()));
    assert_eq!(s, LoopState::Delivering);
    assert_eq!(a, Action::Deliver(payload.clone()));
    actions.push(a);
    let (s, a) = step(plugin.transform_enabled(), s, Event::Delivered);
    assert_eq!((s, &a), (LoopState::Resolving, &Action::Ack));
    actions.push(a);
    let (s, a) = step(plugin.transform_enabled(), s, Event::Resolved);
    assert_eq!((s, &a), (LoopState::Idle, &Action::Continue));
    actions.push(a);

    // Exactly one resolution for the one received message, and it is an ack.
    assert_eq!(actions.iter().filter(|a| is_resolution(a)).count(), 1);
    assert!(!actions.contains(&Action::Nack));
}

#[test]
fn delivery_failure_is_nacked_never_acked() {
    let plugin = orders_plugin(None);
    let payload = b"{\"order_id\":1}".to_vec();
    let mut actions: Vec<Action> = Vec::new();

    let (s, a) = step(plugin.transform_enabled(), LoopState::Idle, Event::Wake);
    actions.push(a);
    let (s, a) = step(plugin.transform_enabled(), s, Event::Received(payload));
    actions.push(a);
    assert_eq!(s, LoopState::Delivering);
    let (s, a) = step(plugin.transform_enabled(), s, Event::DeliveryFailed);
    assert_eq!((s, &a), (LoopState::Resolving, &Action::Nack));
    actions.push(a);
    let (s, a) = step(plugin.transform_enabled(), s, Event::Resolved);
    assert_eq!(s, LoopState::Idle);
    actions.push(a);

    assert!(!actions.contains(&Action::Ack));
    assert_eq!(actions.iter().filter(|a| is_resolution(a)).count(), 1);
}

#[test]
fn transform_failure_is_nacked_without_delivery() {
    let mut plugin = orders_plugin(Some(TransformationConfig {
        src: "payload.ok = false".to_string(),
    }));
    plugin.set_transformer(Some(TransformerTx {}));
    assert!(plugin.transform_enabled());
    let payload = b"{\"bad\":true}".to_vec();
    let mut actions: Vec<Action> = Vec::new();

    let (s, a) = step(plugin.transform_enabled(), LoopState::Idle, Event::Wake);
    actions.push(a);
    let (s, a) = step(plugin.transform_enabled(), s, Event::Received(payload.clone()));
    assert_eq!(s, LoopState::Transforming);
    assert_eq!(a, Action::Transform(payload));
    actions.push(a);
    let (s, a) = step(plugin.transform_enabled(), s, Event::TransformFailed);
    assert_eq!((s, &a), (LoopState::Resolving, &Action::Nack));
    actions.push(a);
    let (s, a) = step(plugin.transform_enabled(), s, Event::Resolved);
    assert_eq!(s, LoopState::Idle);
    actions.push(a);

    // The delivery client is never invoked, and the one resolution is a nack.
    assert!(!actions.iter().any(|a| matches!(a, Action::Deliver(_))));
    assert!(!actions.contains(&Action::Ack));
    assert_eq!(actions.iter().filter(|a| is_resolution(a)).count(), 1);
}

#[test]
fn transformed_payload_is_the_one_delivered() {
    let raw = b"{\"order_id\":1}".to_vec();
    let transformed = b"{\"order_id\":1,\"ok\":true}".to_vec();
    let (s, a) = step(true, LoopState::Receiving, Event::Received(raw.clone()));
    assert_eq!(s, LoopState::Transforming);
    assert_eq!(a, Action::Transform(raw));
    let (s, a) = step(true, s, Event::TransformedOk(transformed.clone()));
    assert_eq!(s, LoopState::Delivering);
    assert_eq!(a, Action::Deliver(transformed));
}

#[test]
fn cancellation_while_idle_stops_without_further_calls() {
    let (s, a) = step(false, LoopState::Idle, Event::Cancel);
    assert_eq!(s, LoopState::Stopped);
    assert_eq!(a, Action::Stop(StopCause::Cancelled));
    let (s, a) = step(true, LoopState::Idle, Event::Cancel);
    assert_eq!(s, LoopState::Stopped);
    assert_eq!(a, Action::Stop(StopCause::Cancelled));
}

#[test]
fn cancellation_while_receiving_stops_cleanly() {
    let (s, a) = step(false, LoopState::Receiving, Event::Cancel);
    assert_eq!(s, LoopState::Stopped);
    assert_eq!(a, Action::Stop(StopCause::Cancelled));
}

#[test]
fn transient_receive_failure_retries_the_receive() {
    let (s, a) = step(false, LoopState::Receiving, Event::RecvTransient);
    assert_eq!((s, a), (LoopState::Receiving, Action::Receive));
}

#[test]
fn fatal_receive_failure_stops_the_loop() {
    let (s, a) = step(false, LoopState::Receiving, Event::RecvFatal);
    assert_eq!(s, LoopState::Stopped);
    assert_eq!(a, Action::Stop(StopCause::Fatal));
}

#[test]
fn no_receive_is_issued_while_a_message_is_in_flight() {
    // Every event a host can report while a message is unresolved yields an
    // action other than a receive.
    for t in [false, true] {
        let in_flight = vec![
            (LoopState::Transforming, Event::TransformedOk(b"x".to_vec())),
            (LoopState::Transforming, Event::TransformFailed),
            (LoopState::Delivering, Event::Delivered),
            (LoopState::Delivering, Event::DeliveryFailed),
            (LoopState::Resolving, Event::Resolved),
        ];
        for (s, e) in in_flight {
            let (_, a) = step(t, s, e);
            assert_ne!(a, Action::Receive);
        }
    }
}

#[test]
fn two_messages_are_resolved_one_at_a_time() {
    let t = false;
    let mut actions: Vec<Action> = Vec::new();
    let mut s = LoopState::Idle;
    let events = [
        Event::Wake,
        Event::RecvTransient,
        Event::Received(b"first".to_vec()),
        Event::Delivered,
        Event::Resolved,
        Event::Wake,
        Event::Received(b"second".to_vec()),
        Event::DeliveryFailed,
        Event::Resolved,
        Event::Cancel,
    ];
    for e in events {
        let (s2, a) = step(t, s, e);
        s = s2;
        actions.push(a);
    }
    assert_eq!(s, LoopState::Stopped);
    // Two messages, two resolutions: one ack, one nack.
    assert_eq!(actions.iter().filter(|a| is_resolution(a)).count(), 2);
    assert_eq!(actions.iter().filter(|a| **a == Action::Ack).count(), 1);
    assert_eq!(actions.iter().filter(|a| **a == Action::Nack).count(), 1);
    // Three receives: the wake-up, one transient retry, the second wake-up.
    assert_eq!(
        actions.iter().filter(|a| **a == Action::Receive).count(),
        3
    );
}

#[test]
fn receive_outcomes_are_classified_by_the_error_taxonomy() {
    let got = event_for_receive(Ok(b"payload".to_vec()));
    assert_eq!(got, Event::Received(b"payload".to_vec()));
    let got = event_for_receive(Err(Error::ReceiveTransient("blip".to_string())));
    assert_eq!(got, Event::RecvTransient);
    let got = event_for_receive(Err(Error::ReceiveFatal("gone".to_string())));
    assert_eq!(got, Event::RecvFatal);
    let got = event_for_receive(Err(Error::Connection("revoked".to_string())));
    assert_eq!(got, Event::RecvFatal);
}

#[test]
fn transform_outcomes_become_transform_events() {
    let got = event_for_transform(Ok(b"better".to_vec()));
    assert_eq!(got, Event::TransformedOk(b"better".to_vec()));
    let got = event_for_transform(Err(Error::Transformation("rejected".to_string())));
    assert_eq!(got, Event::TransformFailed);
}

#[test]
fn delivery_outcomes_become_delivery_events() {
    let got = event_for_delivery(Ok(()));
    assert_eq!(got, Event::Delivered);
    let got = event_for_delivery(Err(Error::Delivery("http 500".to_string())));
    assert_eq!(got, Event::DeliveryFailed);
}

#[test]
fn resolution_calls_are_best_effort() {
    // Whether the ack/nack call succeeds or itself fails, the message's pass
    // is over and the loop moves on.
    let got = event_for_resolution(Ok(()));
    assert_eq!(got, Event::Resolved);
    let got = event_for_resolution(Err(Error::Resolution("ack timed out".to_string())));
    assert_eq!(got, Event::Resolved);
}
