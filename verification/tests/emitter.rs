use chat_gateway::emitter::Listeners;
use chat_gateway::event::{EventType, EventTypeFlags};

#[test]
fn recipients_filter_by_mask() {
    let mut listeners = Listeners::new();
    let a = listeners.add(EventTypeFlags::all());
    let b = listeners.add(EventTypeFlags::just(EventType::MessageCreate));
    let c = listeners.add(EventTypeFlags::none());
    assert_eq!(listeners.len(), 3);
    assert_ne!(a, b);
    assert_ne!(b, c);

    assert_eq!(listeners.recipients(EventType::MessageCreate), vec![a, b]);
    assert_eq!(listeners.recipients(EventType::Ready), vec![a]);
}

#[test]
fn removal_keeps_the_rest_in_order() {
    let mut listeners = Listeners::new();
    let a = listeners.add(EventTypeFlags::all());
    let b = listeners.add(EventTypeFlags::all());
    let c = listeners.add(EventTypeFlags::all());
    listeners.remove(b);
    assert_eq!(listeners.recipients(EventType::Ready), vec![a, c]);

    listeners.remove_all();
    assert_eq!(listeners.len(), 0);
    assert!(listeners.recipients(EventType::Ready).is_empty());
}
