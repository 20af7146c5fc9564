use stellwerksim::error::Error;
use stellwerksim::protocol::event::{Event, EventType};
use stellwerksim::standby::{delivery_result, Standby};
use tokio::sync::mpsc::error::SendError;

fn event(id: &str, name: &str) -> Event {
    Event {
        id: id.to_string(),
        event_type: EventType::Arrival,
        name: name.to_string(),
        delay: 3,
        platform: "2".to_string(),
        scheduled_platform: "1".to_string(),
        origin: "A".to_string(),
        destination: "B".to_string(),
        visible: true,
        at_platform: false,
        user_text: None,
        user_text_sender: None,
        notice_text: Some("hint".to_string()),
    }
}

#[test]
fn events_of_unsubscribed_trains_are_dropped() {
    let standby = Standby::new();
    assert_eq!(standby.process_event(event("1", "RE 1")), Ok(()));
    let standby = Standby::default();
    assert_eq!(standby.process_event(event("1", "RE 1")), Ok(()));
}

#[test]
fn subscribed_train_receives_its_events() {
    let mut standby = Standby::new();
    let mut rx = standby.receive_events("7".to_string());
    assert_eq!(standby.process_event(event("7", "IC 7")), Ok(()));
    assert_eq!(standby.process_event(event("8", "IC 8")), Ok(()));
    assert_eq!(rx.try_recv().unwrap(), event("7", "IC 7"));
    assert!(rx.try_recv().is_err());
}

#[test]
fn gone_subscriber_is_a_channel_error_naming_the_event() {
    let mut standby = Standby::new();
    let rx = standby.receive_events("7".to_string());
    drop(rx);
    assert_eq!(
        standby.process_event(event("7", "IC 7")),
        Err(Error::ChannelError("IC 7".to_string()))
    );
}

#[test]
fn later_subscription_replaces_the_earlier() {
    let mut standby = Standby::new();
    let mut first = standby.receive_events("7".to_string());
    let mut second = standby.receive_events("7".to_string());
    assert_eq!(standby.process_event(event("7", "IC 7")), Ok(()));
    assert!(first.try_recv().is_err());
    assert_eq!(second.try_recv().unwrap(), event("7", "IC 7"));
}

#[test]
fn delivery_result_follows_the_send_outcome() {
    assert_eq!(delivery_result(Ok(()), "RE 5".to_string()), Ok(()));
    assert_eq!(
        delivery_result(Err(SendError(event("5", "RE 5"))), "RE 5".to_string()),
        Err(Error::ChannelError("RE 5".to_string()))
    );
}
