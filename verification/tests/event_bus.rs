use plugkit::event_bus::{Event, EventBus};

fn object(key: &str, value: serde_json::Value) -> serde_json::Value {
    let mut m = serde_json::Map::new();
    m.insert(key.to_string(), value);
    serde_json::Value::Object(m)
}

fn empty_object() -> serde_json::Value {
    serde_json::Value::Object(serde_json::Map::new())
}

fn event(topic: &str, payload: serde_json::Value, source: &str) -> Event {
    Event { topic: topic.into(), payload, source: source.into() }
}

#[test]
fn test_publish_and_history() {
    let mut bus = EventBus::new();
    bus.publish(event("test", object("msg", serde_json::Value::from("hello")), "plugin_a"));
    assert_eq!(bus.history().len(), 1);
    assert_eq!(bus.history()[0].topic, "test");
}

#[test]
fn test_history_by_topic() {
    let mut bus = EventBus::new();
    bus.publish(event("a", empty_object(), "p1"));
    bus.publish(event("b", empty_object(), "p2"));
    bus.publish(event("a", object("n", serde_json::Value::from(2)), "p1"));
    let a_events = bus.history_by_topic("a");
    assert_eq!(a_events.len(), 2);
}

#[test]
fn test_max_history() {
    let mut bus = EventBus::with_max_history(3);
    for i in 0..5 {
        bus.publish(event("t", object("i", serde_json::Value::from(i)), "p"));
    }
    assert_eq!(bus.history().len(), 3);
}

#[test]
fn history_is_newest_first_and_keeps_the_last_events() {
    let mut bus = EventBus::with_max_history(3);
    for i in 0..5 {
        bus.publish(event("t", object("i", serde_json::Value::from(i)), "p"));
    }
    let h = bus.history();
    let order: Vec<i64> = h.iter().map(|e| e.payload["i"].as_i64().unwrap()).collect();
    assert_eq!(order, vec![4, 3, 2]);
}

#[test]
fn topic_history_is_newest_first_and_only_that_topic() {
    let mut bus = EventBus::new();
    bus.publish(event("a", object("n", serde_json::Value::from(1)), "p1"));
    bus.publish(event("b", object("n", serde_json::Value::from(2)), "p2"));
    bus.publish(event("a", object("n", serde_json::Value::from(3)), "p1"));
    let a = bus.history_by_topic("a");
    assert!(a.iter().all(|e| e.topic == "a"));
    assert_eq!(a[0].payload["n"], serde_json::Value::from(3));
    assert_eq!(a[1].payload["n"], serde_json::Value::from(1));
    assert_eq!(a[1].source, "p1");
    assert!(bus.history_by_topic("c").is_empty());
}

#[test]
fn zero_capacity_keeps_nothing() {
    let mut bus = EventBus::with_max_history(0);
    bus.publish(event("t", empty_object(), "p"));
    assert!(bus.history().is_empty());
}

#[test]
fn clear_history_empties_and_default_keeps_a_hundred() {
    let mut bus = EventBus::default();
    for i in 0..150 {
        bus.publish(event("t", object("i", serde_json::Value::from(i)), "p"));
    }
    assert_eq!(bus.history().len(), 100);
    assert_eq!(bus.history()[99].payload["i"], serde_json::Value::from(50));
    bus.clear_history();
    assert!(bus.history().is_empty());
}

#[test]
fn cloned_event_keeps_its_payload() {
    let e = event("t", object("k", serde_json::Value::from("v")), "s");
    let c = e.clone();
    assert_eq!(c.payload, e.payload);
    assert_eq!(c.topic, "t");
    assert_eq!(c.source, "s");
}
