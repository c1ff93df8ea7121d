use push_bridge::models::NotificationEventType;
use push_bridge::models::NotificationRegistrationResult;
use push_bridge::models::NotificationRegistrationStatus;
use push_bridge::models::WatchNotificationResult;
use push_bridge::wire::decode_registration_result;
use push_bridge::wire::decode_registration_status;
use push_bridge::wire::decode_watch_result;
use push_bridge::wire::encode_registration_status;
use push_bridge::wire::event_type_name;
use push_bridge::wire::parse_event_type;
use push_bridge::wire::WireDoc;
use push_bridge::wire::WireValue;

fn doc(fields: Vec<(&str, WireValue)>) -> WireDoc {
    let mut d = WireDoc::new();
    for (k, v) in fields {
        d.push_field(k.to_owned(), v);
    }
    d
}

#[test]
fn decodes_registered_status_with_token() {
    let d = doc(vec![
        ("isRegistered", WireValue::Truth(true)),
        ("token", WireValue::Text("fcm-token-123".to_owned())),
    ]);
    let s = decode_registration_status(&d).unwrap();
    assert_eq!(
        s,
        NotificationRegistrationStatus { is_registered: true, token: Some("fcm-token-123".to_owned()) }
    );
}

#[test]
fn decodes_unregistered_status_with_null_token() {
    let d = doc(vec![
        ("isRegistered", WireValue::Truth(false)),
        ("token", WireValue::Null),
    ]);
    let s = decode_registration_status(&d).unwrap();
    assert_eq!(s, NotificationRegistrationStatus { is_registered: false, token: None });
}

#[test]
fn decodes_status_with_absent_token() {
    let d = doc(vec![("isRegistered", WireValue::Truth(true))]);
    let s = decode_registration_status(&d).unwrap();
    assert_eq!(s, NotificationRegistrationStatus { is_registered: true, token: None });
}

#[test]
fn rejects_status_without_flag() {
    let d = doc(vec![("token", WireValue::Text("t".to_owned()))]);
    assert_eq!(decode_registration_status(&d), None);
}

#[test]
fn rejects_status_with_malformed_token() {
    let d = doc(vec![
        ("isRegistered", WireValue::Truth(true)),
        ("token", WireValue::Truth(true)),
    ]);
    assert_eq!(decode_registration_status(&d), None);
}

#[test]
fn status_round_trips_when_registered() {
    let s = NotificationRegistrationStatus {
        is_registered: true,
        token: Some("apns-abc".to_owned()),
    };
    let d = encode_registration_status(&s);
    assert_eq!(decode_registration_status(&d), Some(s));
}

#[test]
fn status_round_trips_when_unregistered() {
    let s = NotificationRegistrationStatus { is_registered: false, token: None };
    let d = encode_registration_status(&s);
    assert_eq!(decode_registration_status(&d), Some(s));
}

#[test]
fn decodes_successful_registration_result() {
    let d = doc(vec![
        ("success", WireValue::Truth(true)),
        ("token", WireValue::Text("tok".to_owned())),
        ("error", WireValue::Null),
    ]);
    let r = decode_registration_result(&d).unwrap();
    assert_eq!(
        r,
        NotificationRegistrationResult {
            success: true,
            token: Some("tok".to_owned()),
            error: None,
        }
    );
}

#[test]
fn decodes_failed_registration_result() {
    let d = doc(vec![
        ("success", WireValue::Truth(false)),
        ("error", WireValue::Text("permission denied".to_owned())),
    ]);
    let r = decode_registration_result(&d).unwrap();
    assert_eq!(
        r,
        NotificationRegistrationResult {
            success: false,
            token: None,
            error: Some("permission denied".to_owned()),
        }
    );
}

#[test]
fn rejects_registration_result_without_success() {
    let d = doc(vec![("token", WireValue::Text("tok".to_owned()))]);
    assert_eq!(decode_registration_result(&d), None);
}

#[test]
fn decodes_watch_acknowledgment() {
    let d = doc(vec![("success", WireValue::Truth(true))]);
    assert_eq!(decode_watch_result(&d), Some(WatchNotificationResult { success: true }));
}

#[test]
fn rejects_watch_acknowledgment_without_success() {
    let d = doc(vec![("registered", WireValue::Truth(true))]);
    assert_eq!(decode_watch_result(&d), None);
}

#[test]
fn first_field_occurrence_wins() {
    let d = doc(vec![
        ("isRegistered", WireValue::Truth(true)),
        ("isRegistered", WireValue::Truth(false)),
    ]);
    let s = decode_registration_status(&d).unwrap();
    assert!(s.is_registered);
}

#[test]
fn event_type_names_are_exact() {
    assert_eq!(event_type_name(&NotificationEventType::BackgroundTap), "BACKGROUND_TAP");
    assert_eq!(event_type_name(&NotificationEventType::ForegroundTap), "FOREGROUND_TAP");
    assert_eq!(
        event_type_name(&NotificationEventType::ForegroundDelivery),
        "FOREGROUND_DELIVERY"
    );
    assert_eq!(
        event_type_name(&NotificationEventType::BackgroundDelivery),
        "BACKGROUND_DELIVERY"
    );
}

#[test]
fn event_type_names_round_trip() {
    let all = vec![
        NotificationEventType::BackgroundTap,
        NotificationEventType::ForegroundTap,
        NotificationEventType::ForegroundDelivery,
        NotificationEventType::BackgroundDelivery,
    ];
    for t in all {
        assert_eq!(parse_event_type(&event_type_name(&t)), Some(t));
    }
}

#[test]
fn unknown_event_type_name_is_rejected() {
    assert_eq!(parse_event_type(&"SIDEWAYS_TAP".to_owned()), None);
}
