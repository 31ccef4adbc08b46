use race_core::model::{
    ErrorKind, ErrorMessage, Heat, NewHeatDto, Pilot, Race, RaceEvent, RaceEventType, RaceStatus,
};

#[test]
fn pilot_new_keeps_fields() {
    let p = Pilot::new(3, "Alice".to_string());
    assert_eq!(p.id, 3);
    assert_eq!(p.name, "Alice");
    let q = p.clone();
    assert_eq!(q.id, 3);
    assert_eq!(q.name, "Alice");
}

#[test]
fn race_new_keeps_heats_in_order() {
    let heats = vec![
        Heat::new(10, 1, "R1".to_string(), 3),
        Heat::new(11, 2, "R2".to_string(), 4),
    ];
    let race = Race::new(7, "Heat 1".to_string(), RaceStatus::New, heats);
    assert_eq!(race.id, 7);
    assert_eq!(race.name, "Heat 1");
    assert_eq!(race.status, RaceStatus::New);
    assert_eq!(race.heats.len(), 2);
    assert_eq!(race.heats[0].id, 10);
    assert_eq!(race.heats[1].channel, "R2");
    assert_eq!(race.heats[1].pilot_id, 4);
    let copy = race.clone();
    assert_eq!(copy.heats.len(), 2);
    assert_eq!(copy.heats[0].no, 1);
}

#[test]
fn race_status_tags() {
    assert_eq!(RaceStatus::New.tag(), "New");
    assert_eq!(RaceStatus::InProgress.tag(), "InProgress");
    assert_eq!(RaceStatus::Interrupted.tag(), "Interrupted");
    assert_eq!(RaceStatus::Finished.tag(), "Finished");
}

#[test]
fn race_status_tags_read_back() {
    for s in [
        RaceStatus::New,
        RaceStatus::InProgress,
        RaceStatus::Interrupted,
        RaceStatus::Finished,
    ] {
        assert_eq!(RaceStatus::from_tag(s.tag()), Some(s));
    }
    assert_eq!(RaceStatus::from_tag("new"), None);
    assert_eq!(RaceStatus::from_tag(""), None);
    assert_eq!(RaceStatus::from_tag("Finished "), None);
}

#[test]
fn race_event_type_tags_read_back() {
    assert_eq!(RaceEventType::Local.tag(), "Local");
    assert_eq!(RaceEventType::Cloud.tag(), "Cloud");
    assert_eq!(RaceEventType::from_tag("Local"), Some(RaceEventType::Local));
    assert_eq!(RaceEventType::from_tag("Cloud"), Some(RaceEventType::Cloud));
    assert_eq!(RaceEventType::from_tag("Remote"), None);
}

#[test]
fn race_event_new_keeps_fields() {
    let e = RaceEvent::new(5, RaceEventType::Cloud, 1_700_000_000_000_000, "Finals".to_string());
    assert_eq!(e.id, 5);
    assert_eq!(e.race_event_type, RaceEventType::Cloud);
    assert_eq!(e.created_at, 1_700_000_000_000_000);
    assert_eq!(e.name, "Finals");
}

#[test]
fn heat_descriptor_and_error_message() {
    let d = NewHeatDto { no: 4, pilot_id: 9, channel: "F4".to_string() };
    assert_eq!(d.no, 4);
    let m = ErrorMessage::new(ErrorKind::Conflict, "taken".to_string());
    assert_eq!(m.kind, ErrorKind::Conflict);
    assert_eq!(m.message, "taken");
}
