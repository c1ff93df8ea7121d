use push_bridge::bridge::correlate;
use push_bridge::bridge::method_name;
use push_bridge::bridge::watch_args;
use push_bridge::bridge::BridgeCommand;
use push_bridge::bridge::Dispatcher;
use push_bridge::bridge::NativeResponse;
use push_bridge::bridge::Notifications;
use push_bridge::bridge::ResponseEnvelope;
use push_bridge::channel::EventChannel;
use push_bridge::error::Error;
use push_bridge::models::NotificationRegistrationStatus;
use push_bridge::models::WatchNotificationResult;
use push_bridge::wire::WireDoc;
use push_bridge::wire::WireValue;

fn ack(success: bool) -> NativeResponse {
    let mut d = WireDoc::new();
    d.push_field("success".to_owned(), WireValue::Truth(success));
    NativeResponse::Completed(d)
}

#[test]
fn method_names_are_exact() {
    assert_eq!(method_name(&BridgeCommand::CheckRegistrationStatus), "checkRegistrationStatus");
    assert_eq!(
        method_name(&BridgeCommand::RegisterForRemoteNotifications),
        "registerForRemoteNotifications"
    );
    assert_eq!(method_name(&BridgeCommand::WatchNotifications), "watchNotifications");
}

#[test]
fn watch_returns_success_exactly_on_acknowledgment() {
    let h = Notifications {};
    let r = h.watch_notifications(&ack(true));
    assert_eq!(r, Ok(WatchNotificationResult { success: true }));
    let r = h.watch_notifications(&ack(false));
    assert_eq!(r, Ok(WatchNotificationResult { success: false }));
}

#[test]
fn watch_surfaces_dispatch_failure() {
    let h = Notifications {};
    let r = h.watch_notifications(&NativeResponse::Failed("no such method".to_owned()));
    assert_eq!(r, Err(Error::Bridge("no such method".to_owned())));
}

#[test]
fn register_failure_surfaces_bridge_error_and_no_result() {
    let h = Notifications {};
    let r = h.register_for_remote_notifications(&NativeResponse::Failed(
        "native exception: APNS unavailable".to_owned(),
    ));
    assert_eq!(r, Err(Error::Bridge("native exception: APNS unavailable".to_owned())));
}

#[test]
fn check_status_passes_native_state_through() {
    let h = Notifications {};
    let mut d = WireDoc::new();
    d.push_field("isRegistered".to_owned(), WireValue::Truth(true));
    d.push_field("token".to_owned(), WireValue::Text("tok-9".to_owned()));
    let r = h.check_registration_status(&NativeResponse::Completed(d));
    assert_eq!(
        r,
        Ok(NotificationRegistrationStatus { is_registered: true, token: Some("tok-9".to_owned()) })
    );
}

#[test]
fn check_status_rejects_malformed_response() {
    let h = Notifications {};
    let d = WireDoc::new();
    let r = h.check_registration_status(&NativeResponse::Completed(d));
    match r {
        Err(Error::Bridge(m)) => {
            assert_eq!(m, "native response did not match the expected shape");
        }
        other => panic!("expected a bridge error, got {:?}", other),
    }
}

#[test]
fn dispatch_ids_never_repeat() {
    let mut dispatcher = Dispatcher::new();
    let a = dispatcher.begin(BridgeCommand::CheckRegistrationStatus);
    let b = dispatcher.begin(BridgeCommand::RegisterForRemoteNotifications);
    assert_ne!(a.id, b.id);
    assert_eq!(a.command, BridgeCommand::CheckRegistrationStatus);
    assert_eq!(b.command, BridgeCommand::RegisterForRemoteNotifications);
}

#[test]
fn concurrent_callers_get_their_own_responses() {
    let mut dispatcher = Dispatcher::new();
    let a = dispatcher.begin(BridgeCommand::CheckRegistrationStatus);
    let b = dispatcher.begin(BridgeCommand::RegisterForRemoteNotifications);
    // The native layer answers out of order.
    let batch = vec![
        ResponseEnvelope { request_id: b.id, response: ack(true) },
        ResponseEnvelope { request_id: a.id, response: NativeResponse::Failed("x".to_owned()) },
    ];
    let ia = correlate(&batch, &a).unwrap();
    let ib = correlate(&batch, &b).unwrap();
    assert_ne!(ia, ib);
    assert_eq!(batch[ia].request_id, a.id);
    assert_eq!(batch[ib].request_id, b.id);
}

#[test]
fn unanswered_request_correlates_to_nothing() {
    let mut dispatcher = Dispatcher::new();
    let a = dispatcher.begin(BridgeCommand::WatchNotifications);
    let batch: Vec<ResponseEnvelope> = Vec::new();
    assert_eq!(correlate(&batch, &a), None);
}

#[test]
fn watch_args_carry_the_channel_id() {
    let c = EventChannel::new(42);
    let d = watch_args(&c);
    assert_eq!(d.lookup(&"channel".to_owned()), Some(&WireValue::Number(42)));
}
