use push_bridge::channel::ChannelRegistry;
use push_bridge::channel::EventChannel;
use push_bridge::models::NotificationEvent;
use push_bridge::models::NotificationEventType;

fn event(t: NotificationEventType, entries: Vec<(&str, &str)>) -> NotificationEvent {
    let payload = entries.into_iter().map(|(k, v)| (k.to_owned(), v.to_owned())).collect();
    NotificationEvent { type_: t, payload }
}

#[test]
fn events_are_delivered_in_push_order() {
    let mut c = EventChannel::new(1);
    let e1 = event(NotificationEventType::ForegroundDelivery, vec![("title", "first")]);
    let e2 = event(NotificationEventType::BackgroundTap, vec![("title", "second")]);
    c.push(e1.clone());
    c.push(e2.clone());
    assert_eq!(c.pending(), 2);
    assert_eq!(c.take_next(), Some(e1));
    assert_eq!(c.take_next(), Some(e2));
    assert_eq!(c.take_next(), None);
}

#[test]
fn delivered_event_is_unchanged() {
    let mut c = EventChannel::new(7);
    let e = event(NotificationEventType::ForegroundDelivery, vec![("title", "Hi")]);
    c.push(e.clone());
    let got = c.take_next().unwrap();
    assert_eq!(got.type_, NotificationEventType::ForegroundDelivery);
    assert_eq!(got.payload, vec![("title".to_owned(), "Hi".to_owned())]);
    assert_eq!(got, e);
}

#[test]
fn registry_keeps_every_registration() {
    let mut reg = ChannelRegistry::new();
    reg.register(EventChannel::new(5));
    reg.register(EventChannel::new(5));
    reg.register(EventChannel::new(9));
    assert_eq!(reg.count(), 3);
}

#[test]
fn delivery_reaches_only_the_addressed_channels() {
    let mut reg = ChannelRegistry::new();
    reg.register(EventChannel::new(1));
    reg.register(EventChannel::new(2));
    reg.register(EventChannel::new(1));
    let e = event(NotificationEventType::BackgroundDelivery, vec![("k", "v")]);
    reg.deliver(1, &e);
    assert_eq!(reg.channels[0].pending(), 1);
    assert_eq!(reg.channels[1].pending(), 0);
    assert_eq!(reg.channels[2].pending(), 1);
    let got = reg.channels[0].take_next().unwrap();
    assert_eq!(got, e);
}

#[test]
fn independent_channels_see_their_own_streams() {
    let mut a = EventChannel::new(1);
    let mut b = EventChannel::new(2);
    let ea = event(NotificationEventType::ForegroundTap, vec![("for", "a")]);
    let eb = event(NotificationEventType::BackgroundTap, vec![("for", "b")]);
    a.push(ea.clone());
    b.push(eb.clone());
    assert_eq!(a.take_next(), Some(ea));
    assert_eq!(b.take_next(), Some(eb));
}
