use surreal_engine::notifications::{
    action_text, notification_message, Action, Notification, NotificationChannel, PumpStep,
    Received,
};
use surreal_engine::value::Value;

#[test]
fn messages_arrive_in_order() {
    let mut c = NotificationChannel::new();
    for i in 0..10u8 {
        assert!(c.send(vec![i]).is_ok());
    }
    for i in 0..10u8 {
        match c.recv() {
            Received::Message(m) => assert_eq!(m, vec![i]),
            other => panic!("expected a message, got {:?}", other),
        }
    }
    assert!(matches!(c.recv(), Received::Pending));
}

#[test]
fn closed_channel_drains_then_ends() {
    let mut c = NotificationChannel::new();
    assert_eq!(c.forward(Some(vec![1])), PumpStep::Continue);
    assert_eq!(c.forward(Some(vec![2])), PumpStep::Continue);
    c.close();
    assert!(matches!(c.recv(), Received::Message(ref m) if m == &vec![1]));
    assert!(matches!(c.recv(), Received::Message(ref m) if m == &vec![2]));
    assert!(matches!(c.recv(), Received::Closed));
    assert!(matches!(c.recv(), Received::Closed));
}

#[test]
fn failed_encoding_is_skipped() {
    let mut c = NotificationChannel::new();
    assert_eq!(c.forward(Some(vec![1])), PumpStep::Continue);
    assert_eq!(c.forward(None), PumpStep::Continue);
    assert_eq!(c.forward(Some(vec![3])), PumpStep::Continue);
    assert!(matches!(c.recv(), Received::Message(ref m) if m == &vec![1]));
    assert!(matches!(c.recv(), Received::Message(ref m) if m == &vec![3]));
    assert!(matches!(c.recv(), Received::Pending));
}

#[test]
fn abandoned_consumer_stops_producer() {
    let mut c = NotificationChannel::new();
    assert_eq!(c.forward(Some(vec![1])), PumpStep::Continue);
    c.abandon();
    assert_eq!(c.forward(Some(vec![2])), PumpStep::Stop);
    assert_eq!(c.send(vec![3]), Err(vec![3]));
    assert!(matches!(c.recv(), Received::Closed));
}

#[test]
fn send_after_close_is_refused() {
    let mut c = NotificationChannel::new();
    c.close();
    assert_eq!(c.send(vec![9]), Err(vec![9]));
}

#[test]
fn notification_message_shape() {
    let n = Notification {
        id: 77,
        action: Action::Update,
        record: Value::Str("person:1".to_string()),
        result: Value::Int(5),
    };
    match notification_message(n) {
        Value::Object(e) => {
            let keys: Vec<&str> = e.iter().map(|(k, _)| k.as_str()).collect();
            assert_eq!(keys, vec!["id", "action", "record", "result"]);
            assert!(matches!(e[0].1, Value::Uuid(77)));
            assert!(matches!(e[1].1, Value::Str(ref s) if s == "UPDATE"));
            assert!(matches!(e[2].1, Value::Str(ref s) if s == "person:1"));
            assert!(matches!(e[3].1, Value::Int(5)));
        }
        _ => panic!("not an object"),
    }
}

#[test]
fn action_names() {
    assert_eq!(action_text(Action::Create), "CREATE");
    assert_eq!(action_text(Action::Update), "UPDATE");
    assert_eq!(action_text(Action::Delete), "DELETE");
    assert_eq!(action_text(Action::Killed), "KILLED");
}
