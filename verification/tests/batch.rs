use alacritty_terminal::event::Event as AlacTermEvent;
use terminal::batch::{
    Arrival, Delivery, EventBatch, Pump, PumpAction, BATCH_EVENTS, BATCH_MILLIS,
};

fn title(text: &str) -> AlacTermEvent {
    AlacTermEvent::Title(text.to_owned())
}

fn names(deliveries: &[Delivery]) -> Vec<String> {
    deliveries
        .iter()
        .map(|delivery| match delivery {
            Delivery::Wakeup => "wakeup".to_owned(),
            Delivery::Event(AlacTermEvent::Title(text)) => text.clone(),
            Delivery::Event(other) => format!("{:?}", other),
        })
        .collect()
}

#[test]
fn wakeups_are_delivered_once_and_first() {
    let mut batch = EventBatch::new();
    assert!(batch.is_idle());
    assert!(!batch.push(title("a")));
    assert!(!batch.push(AlacTermEvent::Wakeup));
    assert!(!batch.push(title("b")));
    assert!(!batch.push(AlacTermEvent::Wakeup));
    assert!(!batch.is_idle());
    assert_eq!(names(&batch.into_deliveries()), vec!["wakeup", "a", "b"]);
}

#[test]
fn a_wakeup_alone_is_delivered() {
    let mut batch = EventBatch::new();
    batch.push(AlacTermEvent::Wakeup);
    assert!(!batch.is_idle());
    assert_eq!(names(&batch.into_deliveries()), vec!["wakeup"]);
}

#[test]
fn a_large_batch_is_full() {
    let mut batch = EventBatch::new();
    for _ in 0..BATCH_EVENTS {
        assert!(!batch.push(title("x")));
        assert!(!batch.push(AlacTermEvent::Wakeup));
    }
    assert!(batch.push(title("y")));
    assert_eq!(batch.into_deliveries().len(), BATCH_EVENTS + 2);
    assert_eq!(BATCH_MILLIS, 4);
}

#[test]
fn the_first_event_is_delivered_at_once() {
    let (pump, action) = Pump::Waiting.arrive(Arrival::Event(title("a")));
    assert!(matches!(action, PumpAction::DeliverFirst(AlacTermEvent::Title(text)) if text == "a"));
    let (pump, action) = pump.arrive(Arrival::Event(title("b")));
    assert!(matches!(action, PumpAction::Listen));
    let (pump, action) = pump.arrive(Arrival::Event(AlacTermEvent::Wakeup));
    assert!(matches!(action, PumpAction::Listen));
    let (pump, action) = pump.arrive(Arrival::Timeout);
    match action {
        PumpAction::DeliverBatch(deliveries) => {
            assert_eq!(names(&deliveries), vec!["wakeup", "b"])
        }
        _ => panic!("nothing delivered"),
    }
    let (pump, action) = pump.arrive(Arrival::Timeout);
    assert!(matches!(action, PumpAction::Rest));
    assert!(matches!(pump, Pump::Waiting));
    let (pump, action) = pump.arrive(Arrival::Timeout);
    assert!(matches!(action, PumpAction::Listen));
    let (_, action) = pump.arrive(Arrival::Closed);
    assert!(matches!(action, PumpAction::Stop));
}

#[test]
fn a_full_batch_is_delivered_early() {
    let (mut pump, _) = Pump::Waiting.arrive(Arrival::Event(title("first")));
    for _ in 0..BATCH_EVENTS {
        let (next, action) = pump.arrive(Arrival::Event(title("x")));
        assert!(matches!(action, PumpAction::Listen));
        pump = next;
    }
    let (pump, action) = pump.arrive(Arrival::Event(title("last")));
    match action {
        PumpAction::DeliverBatch(deliveries) => {
            assert_eq!(deliveries.len(), BATCH_EVENTS + 1);
            assert_eq!(names(&deliveries)[BATCH_EVENTS], "last");
        }
        _ => panic!("nothing delivered"),
    }
    let (pump, action) = pump.arrive(Arrival::Event(AlacTermEvent::Bell));
    assert!(matches!(action, PumpAction::Listen));
    let (pump, action) = pump.arrive(Arrival::Closed);
    assert!(matches!(action, PumpAction::DeliverBatch(deliveries) if deliveries.len() == 1));
    let (_, action) = pump.arrive(Arrival::Closed);
    assert!(matches!(action, PumpAction::Rest));
}

#[test]
fn no_event_is_lost_on_the_way() {
    let mut pump = Pump::Waiting;
    let mut sent = Vec::new();
    let mut received = Vec::new();
    for i in 0..3 * BATCH_EVENTS {
        let arrival = if i % 7 == 3 {
            Arrival::Timeout
        } else if i % 5 == 2 {
            Arrival::Event(AlacTermEvent::Wakeup)
        } else {
            sent.push(i.to_string());
            Arrival::Event(title(&i.to_string()))
        };
        let (next, action) = pump.arrive(arrival);
        pump = next;
        match action {
            PumpAction::DeliverFirst(AlacTermEvent::Title(text)) => received.push(text),
            PumpAction::DeliverBatch(deliveries) => received
                .extend(names(&deliveries).into_iter().filter(|name| name != "wakeup")),
            _ => {}
        }
    }
    if let (_, PumpAction::DeliverBatch(deliveries)) = pump.arrive(Arrival::Closed) {
        received.extend(names(&deliveries).into_iter().filter(|name| name != "wakeup"));
    }
    assert_eq!(received, sent);
}
