//! Structured native-layer messages: string-keyed documents of primitive
//! values, with the encoders and decoders for the bridge's three one-shot
//! operations and for the wire names of event types.

use vstd::prelude::*;

use crate::models::NotificationEventType;
use crate::models::NotificationRegistrationResult;
use crate::models::NotificationRegistrationStatus;
use crate::models::WatchNotificationResult;

verus! {

/// A primitive value inside a native-layer message.
#[derive(Clone, Debug, PartialEq, Eq)]
pub enum WireValue {
    Null,
    Truth(bool),
    Text(String),
    Number(u64),
}

/// A structured native-layer message: string-keyed fields in order.
#[derive(Clone, Debug, PartialEq, Eq)]
pub struct WireDoc {
    pub fields: Vec<(String, WireValue)>,
}

/// The value under `key` among `fields[i..]`, the first occurrence winning.
pub open spec fn lookup_from(
    fields: Seq<(String, WireValue)>,
    key: Seq<char>,
    i: int,
) -> Option<WireValue>
    decreases fields.len() - i,
{
    if i < 0 || i >= fields.len() {
        None
    } else if fields[i].0@ == key {
        Some(fields[i].1)
    } else {
        lookup_from(fields, key, i + 1)
    }
}

/// The value a document holds under `key`, or `None` where the key is
/// absent.
pub open spec fn spec_lookup(doc: WireDoc, key: Seq<char>) -> Option<WireValue> {
    lookup_from(doc.fields@, key, 0)
}

impl WireDoc {
    /// An empty document.
    pub fn new() -> (r: WireDoc)
        ensures
            r.fields@ == Seq::<(String, WireValue)>::empty(),
    {
        WireDoc { fields: Vec::new() }
    }

    /// Appends a field; an earlier field under the same key keeps priority.
    pub fn push_field(&mut self, key: String, value: WireValue)
        ensures
            final(self).fields@ == old(self).fields@.push((key, value)),
    {
        self.fields.push((key, value));
    }

    /// Finds the first field under `key`.
    pub fn lookup(&self, key: &String) -> (r: Option<&WireValue>)
        ensures
            match r {
                Some(v) => spec_lookup(*self, key@) == Some(*v),
                None => spec_lookup(*self, key@) is None,
            },
    {
        let n = self.fields.len();
        let mut i: usize = 0;
        while i < n
            invariant
                i <= n,
                n == self.fields.len(),
                spec_lookup(*self, key@) == lookup_from(self.fields@, key@, i as int),
            decreases n - i,
        {
            if self.fields[i].0.eq(key) {
                assert(lookup_from(self.fields@, key@, i as int) == Some(self.fields@[i as int].1));
                return Some(&self.fields[i].1);
            }
            assert(lookup_from(self.fields@, key@, i as int) == lookup_from(
                self.fields@,
                key@,
                i + 1,
            ));
            i = i + 1;
        }
        None
    }
}

/// What a well-formed response to a registration status query decodes to:
/// `isRegistered` must be a truth value; `token` may be absent, null, or
/// text.  Any other shape is a parse failure.
pub open spec fn spec_decode_registration_status(doc: WireDoc) -> Option<
    NotificationRegistrationStatus,
> {
    match spec_lookup(doc, "isRegistered"@) {
        Some(WireValue::Truth(b)) => match spec_lookup(doc, "token"@) {
            None => Some(NotificationRegistrationStatus { is_registered: b, token: None }),
            Some(WireValue::Null) => Some(
                NotificationRegistrationStatus { is_registered: b, token: None },
            ),
            Some(WireValue::Text(t)) => Some(
                NotificationRegistrationStatus { is_registered: b, token: Some(t) },
            ),
            Some(_) => None,
        },
        _ => None,
    }
}

/// Parses a registration status response.
pub fn decode_registration_status(doc: &WireDoc) -> (r: Option<NotificationRegistrationStatus>)
    ensures
        r == spec_decode_registration_status(*doc),
{
    match doc.lookup(&"isRegistered".to_owned()) {
        Some(WireValue::Truth(b)) => match doc.lookup(&"token".to_owned()) {
            None => Some(NotificationRegistrationStatus { is_registered: *b, token: None }),
            Some(WireValue::Null) => Some(
                NotificationRegistrationStatus { is_registered: *b, token: None },
            ),
            Some(WireValue::Text(t)) => Some(
                NotificationRegistrationStatus { is_registered: *b, token: Some(t.clone()) },
            ),
            Some(_) => None,
        },
        _ => None,
    }
}

/// What a well-formed response to a registration attempt decodes to:
/// `success` must be a truth value; `token` and `error` may each be absent,
/// null, or text.
pub open spec fn spec_decode_registration_result(doc: WireDoc) -> Option<
    NotificationRegistrationResult,
> {
    match (spec_lookup(doc, "success"@), spec_opt_text(doc, "token"@), spec_opt_text(
        doc,
        "error"@,
    )) {
        (Some(WireValue::Truth(b)), Some(t), Some(e)) => Some(
            NotificationRegistrationResult { success: b, token: t, error: e },
        ),
        _ => None,
    }
}

/// An optional text field: absent or null is `Some(None)`, text is
/// `Some(Some(text))`, and any other value is malformed (`None`).
pub open spec fn spec_opt_text(doc: WireDoc, key: Seq<char>) -> Option<Option<String>> {
    match spec_lookup(doc, key) {
        None => Some(None),
        Some(WireValue::Null) => Some(None),
        Some(WireValue::Text(t)) => Some(Some(t)),
        Some(_) => None,
    }
}

/// Reads an optional text field.
fn read_opt_text(doc: &WireDoc, key: &String) -> (r: Option<Option<String>>)
    ensures
        r == spec_opt_text(*doc, key@),
{
    match doc.lookup(key) {
        None => Some(None),
        Some(WireValue::Null) => Some(None),
        Some(WireValue::Text(t)) => Some(Some(t.clone())),
        Some(_) => None,
    }
}

/// Parses a registration result response.
pub fn decode_registration_result(doc: &WireDoc) -> (r: Option<NotificationRegistrationResult>)
    ensures
        r == spec_decode_registration_result(*doc),
{
    match doc.lookup(&"success".to_owned()) {
        Some(WireValue::Truth(b)) => match read_opt_text(doc, &"token".to_owned()) {
            Some(t) => match read_opt_text(doc, &"error".to_owned()) {
                Some(e) => Some(
                    NotificationRegistrationResult { success: *b, token: t, error: e },
                ),
                None => None,
            },
            None => None,
        },
        _ => None,
    }
}

/// What a well-formed watch acknowledgment decodes to: `success` must be a
/// truth value.
pub open spec fn spec_decode_watch_result(doc: WireDoc) -> Option<WatchNotificationResult> {
    match spec_lookup(doc, "success"@) {
        Some(WireValue::Truth(b)) => Some(WatchNotificationResult { success: b }),
        _ => None,
    }
}

/// Parses a watch acknowledgment.
pub fn decode_watch_result(doc: &WireDoc) -> (r: Option<WatchNotificationResult>)
    ensures
        r == spec_decode_watch_result(*doc),
{
    match doc.lookup(&"success".to_owned()) {
        Some(WireValue::Truth(b)) => Some(WatchNotificationResult { success: *b }),
        _ => None,
    }
}

/// Encodes a registration status the way the native layer reports it:
/// `isRegistered` as a truth value and `token` as text or null.
pub fn encode_registration_status(s: &NotificationRegistrationStatus) -> (r: WireDoc)
    ensures
        spec_lookup(r, "isRegistered"@) == Some(WireValue::Truth(s.is_registered)),
        s.token matches Some(t) ==> spec_lookup(r, "token"@) == Some(WireValue::Text(t)),
        s.token is None ==> spec_lookup(r, "token"@) == Some(WireValue::Null),
{
    proof {
        reveal_strlit("isRegistered");
        reveal_strlit("token");
    }
    let mut doc = WireDoc::new();
    doc.push_field("isRegistered".to_owned(), WireValue::Truth(s.is_registered));
    match &s.token {
        Some(t) => doc.push_field("token".to_owned(), WireValue::Text(t.clone())),
        None => doc.push_field("token".to_owned(), WireValue::Null),
    }
    proof {
        let f = doc.fields@;
        assert(f[0].0@ == "isRegistered"@);
        assert(f[1].0@ == "token"@);
        assert(lookup_from(f, "isRegistered"@, 0) == Some(f[0].1));
        assert(lookup_from(f, "token"@, 1) == Some(f[1].1));
        assert(lookup_from(f, "token"@, 0) == lookup_from(f, "token"@, 1));
    }
    doc
}

/// The round trip the bridge preserves: any document that reports a
/// registration status `s` — `isRegistered` carrying its flag and `token`
/// carrying its token or null — decodes back to exactly `s`, with no
/// transformation.
pub proof fn lemma_registration_status_round_trip(s: NotificationRegistrationStatus, doc: WireDoc)
    requires
        spec_lookup(doc, "isRegistered"@) == Some(WireValue::Truth(s.is_registered)),
        s.token matches Some(t) ==> spec_lookup(doc, "token"@) == Some(WireValue::Text(t)),
        s.token is None ==> spec_lookup(doc, "token"@) == Some(WireValue::Null),
    ensures
        spec_decode_registration_status(doc) == Some(s),
{
}

/// The wire name of each notification event type.
pub open spec fn spec_event_type_name(t: NotificationEventType) -> Seq<char> {
    match t {
        NotificationEventType::BackgroundTap => "BACKGROUND_TAP"@,
        NotificationEventType::ForegroundTap => "FOREGROUND_TAP"@,
        NotificationEventType::ForegroundDelivery => "FOREGROUND_DELIVERY"@,
        NotificationEventType::BackgroundDelivery => "BACKGROUND_DELIVERY"@,
    }
}

/// Writes an event type under its wire name.
pub fn event_type_name(t: &NotificationEventType) -> (r: String)
    ensures
        r@ == spec_event_type_name(*t),
{
    match t {
        NotificationEventType::BackgroundTap => "BACKGROUND_TAP".to_owned(),
        NotificationEventType::ForegroundTap => "FOREGROUND_TAP".to_owned(),
        NotificationEventType::ForegroundDelivery => "FOREGROUND_DELIVERY".to_owned(),
        NotificationEventType::BackgroundDelivery => "BACKGROUND_DELIVERY".to_owned(),
    }
}

/// The event type a wire name stands for, or `None` for an unknown name.
pub open spec fn spec_parse_event_type(s: Seq<char>) -> Option<NotificationEventType> {
    if s == "BACKGROUND_TAP"@ {
        Some(NotificationEventType::BackgroundTap)
    } else if s == "FOREGROUND_TAP"@ {
        Some(NotificationEventType::ForegroundTap)
    } else if s == "FOREGROUND_DELIVERY"@ {
        Some(NotificationEventType::ForegroundDelivery)
    } else if s == "BACKGROUND_DELIVERY"@ {
        Some(NotificationEventType::BackgroundDelivery)
    } else {
        None
    }
}

/// Reads an event type from its wire name.
pub fn parse_event_type(s: &String) -> (r: Option<NotificationEventType>)
    ensures
        r == spec_parse_event_type(s@),
{
    if s.eq(&"BACKGROUND_TAP".to_owned()) {
        Some(NotificationEventType::BackgroundTap)
    } else if s.eq(&"FOREGROUND_TAP".to_owned()) {
        Some(NotificationEventType::ForegroundTap)
    } else if s.eq(&"FOREGROUND_DELIVERY".to_owned()) {
        Some(NotificationEventType::ForegroundDelivery)
    } else if s.eq(&"BACKGROUND_DELIVERY".to_owned()) {
        Some(NotificationEventType::BackgroundDelivery)
    } else {
        None
    }
}

/// Event type names round-trip: parsing the wire name of any event type
/// yields that event type back.
pub proof fn lemma_event_type_name_round_trip(t: NotificationEventType)
    ensures
        spec_parse_event_type(spec_event_type_name(t)) == Some(t),
{
    reveal_strlit("BACKGROUND_TAP");
    reveal_strlit("FOREGROUND_TAP");
    reveal_strlit("FOREGROUND_DELIVERY");
    reveal_strlit("BACKGROUND_DELIVERY");
    assert("BACKGROUND_TAP"@.len() == 14);
    assert("FOREGROUND_TAP"@.len() == 14);
    assert("FOREGROUND_DELIVERY"@.len() == 19);
    assert("BACKGROUND_DELIVERY"@.len() == 19);
    assert("BACKGROUND_TAP"@.index(0) == 'B');
    assert("FOREGROUND_TAP"@.index(0) == 'F');
    assert("FOREGROUND_DELIVERY"@.index(0) == 'F');
    assert("BACKGROUND_DELIVERY"@.index(0) == 'B');
}

} // verus!
