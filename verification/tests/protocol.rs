use std::collections::HashSet;

use stellwerksim::protocol::event::EventType;
use stellwerksim::protocol::request::{subscription_messages, Request};

#[test]
fn all_lists_every_event_type_in_order() {
    let all = EventType::all();
    assert_eq!(
        all,
        vec![
            EventType::ComingIn,
            EventType::Arrival,
            EventType::Departure,
            EventType::GoingOut,
            EventType::RedStop,
            EventType::TurnedGreen,
            EventType::Couple,
            EventType::Wing,
        ]
    );
}

#[test]
fn event_type_names_are_the_wire_names() {
    let names: Vec<&str> = EventType::all().iter().map(|t| t.name()).collect();
    assert_eq!(
        names,
        vec!["einfahrt", "ankunft", "abfahrt", "ausfahrt", "rothalt", "wurdegruen", "kuppeln", "fluegeln"]
    );
}

#[test]
fn event_type_names_are_distinct() {
    let names: HashSet<&str> = EventType::all().iter().map(|t| t.name()).collect();
    assert_eq!(names.len(), 8);
}

#[test]
fn register_message_lists_the_plugin_details() {
    let r = Request::Register {
        name: "My Plugin".to_string(),
        author: "Me".to_string(),
        version: "1.0.0".to_string(),
        description: "A test".to_string(),
    };
    assert_eq!(
        r.message(),
        "<register name='My Plugin' autor='Me' version='1.0.0' protokoll='1' text='A test' />"
    );
    assert_eq!(r.ending_tag(), None);
}

#[test]
fn simple_request_messages() {
    assert_eq!(Request::SimulatorTime.message(), "<simzeit />");
    assert_eq!(Request::SystemInfo.message(), "<anlageninfo />");
    assert_eq!(Request::PlatformList.message(), "<bahnsteigliste />");
    assert_eq!(Request::TrainList.message(), "<zugliste />");
    assert_eq!(Request::Ways.message(), "<wege />");
}

#[test]
fn train_request_messages() {
    let d = Request::TrainDetails { train_id: "42".to_string() };
    assert_eq!(d.message(), "<zugdetails zid='42' />");
    let t = Request::TrainTimetable { train_id: "-7".to_string() };
    assert_eq!(t.message(), "<zugfahrplan zid='-7' />");
}

#[test]
fn ending_tags_close_the_requested_element() {
    assert_eq!(Request::PlatformList.ending_tag(), Some("</bahnsteigliste>"));
    assert_eq!(Request::TrainList.ending_tag(), Some("</zugliste>"));
    assert_eq!(
        Request::TrainTimetable { train_id: "1".to_string() }.ending_tag(),
        Some("</zugfahrplan>")
    );
    assert_eq!(Request::Ways.ending_tag(), Some("</wege>"));
    assert_eq!(Request::SimulatorTime.ending_tag(), None);
    assert_eq!(Request::SystemInfo.ending_tag(), None);
    assert_eq!(Request::TrainDetails { train_id: "1".to_string() }.ending_tag(), None);
}

#[test]
fn every_request_is_one_self_closing_element() {
    let requests = vec![
        Request::SimulatorTime,
        Request::SystemInfo,
        Request::PlatformList,
        Request::TrainList,
        Request::Ways,
        Request::TrainDetails { train_id: "3".to_string() },
        Request::TrainTimetable { train_id: "3".to_string() },
        Request::Subscribe { train_id: "3".to_string(), event: EventType::Wing },
    ];
    for r in requests {
        let m = r.message();
        assert!(m.starts_with('<'));
        assert!(m.ends_with(" />"));
        if let Some(tag) = r.ending_tag() {
            let element = &tag[2..tag.len() - 1];
            assert!(m.starts_with(&format!("<{element} ")));
        }
    }
}

#[test]
fn subscribe_message_names_train_and_event() {
    let r = Request::Subscribe { train_id: "123".to_string(), event: EventType::RedStop };
    assert_eq!(r.message(), "<ereignis zid='123' art='rothalt' />");
}

#[test]
fn subscription_messages_one_per_event_type() {
    let msgs = subscription_messages("9", &EventType::all());
    assert_eq!(msgs.len(), 8);
    assert_eq!(msgs[0], "<ereignis zid='9' art='einfahrt' />");
    assert_eq!(msgs[7], "<ereignis zid='9' art='fluegeln' />");
    assert!(subscription_messages("9", &vec![]).is_empty());
}
