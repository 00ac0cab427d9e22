use ai_buddy::event::{BuddyEvent, Event, EventBus};

#[test]
fn publish_without_subscribers_is_fine() {
    let bus = EventBus::new();
    bus.send(Event::Buddy(BuddyEvent::InstUploaded));
    bus.send_all(vec![Event::Buddy(BuddyEvent::ConvCreated), Event::Buddy(BuddyEvent::ConvLoaded)]);
}

#[test]
fn every_subscriber_sees_events_in_order() {
    let bus = EventBus::new();
    let mut rx1 = bus.subscribe();
    let mut rx2 = bus.clone().subscribe();
    bus.send_all(vec![Event::Buddy(BuddyEvent::ConvCreated), Event::Buddy(BuddyEvent::ConvLoaded)]);
    for rx in [&mut rx1, &mut rx2] {
        assert!(matches!(*rx.try_recv().unwrap(), Event::Buddy(BuddyEvent::ConvCreated)));
        assert!(matches!(*rx.try_recv().unwrap(), Event::Buddy(BuddyEvent::ConvLoaded)));
        assert!(rx.try_recv().is_err());
    }
}

#[test]
fn late_subscriber_sees_only_later_events() {
    let bus = EventBus::new();
    bus.send(Event::Buddy(BuddyEvent::ConvCreated));
    let mut rx = bus.subscribe();
    bus.send(Event::Buddy(BuddyEvent::InstUploaded));
    assert!(matches!(*rx.try_recv().unwrap(), Event::Buddy(BuddyEvent::InstUploaded)));
    assert!(rx.try_recv().is_err());
}

#[test]
fn lagging_subscriber_misses_oldest_events() {
    let bus = EventBus::new();
    let mut rx = bus.subscribe();
    for _ in 0..20 {
        bus.send(Event::Buddy(BuddyEvent::ConvLoaded));
    }
    assert!(rx.try_recv().is_err());
    let mut seen = 0;
    while rx.try_recv().is_ok() {
        seen += 1;
    }
    assert_eq!(seen, 16);
}
