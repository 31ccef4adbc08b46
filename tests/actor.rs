use race_core::actor::State;
use race_core::model::{
    ErrorKind, NewHeatDto, NewPilotDto, NewRaceDto, NewRaceEventDto, RaceEventType, RaceStatus,
};
use race_core::store::{Db, Stores};

const SHARED: &str = "?mode=memory&cache=shared";

/// A registry shared under `file:<tag>_registry`, with every race event's store
/// under `file:<tag>_<id>`; memory databases live while a connection is open,
/// so the returned connections keep the registry and the first event's store.
fn memory_stores(tag: &str) -> (Stores, rusqlite::Connection, rusqlite::Connection) {
    let registry_uri = format!("file:{}_registry{}", tag, SHARED);
    let keep_registry = rusqlite::Connection::open(&registry_uri).unwrap();
    let keep_first = rusqlite::Connection::open(format!("file:{}_1{}", tag, SHARED)).unwrap();
    let registry = Db::new(registry_uri).unwrap();
    registry.read_registry().unwrap();
    (Stores::new(registry, format!("file:{}_", tag), SHARED.to_string()), keep_registry, keep_first)
}

fn event(name: &str) -> NewRaceEventDto {
    NewRaceEventDto { name: name.to_string() }
}

fn pilot(race_event_id: i64, name: &str) -> NewPilotDto {
    NewPilotDto { race_event_id, name: name.to_string() }
}

fn race(race_event_id: i64, name: &str, heats: Vec<NewHeatDto>) -> NewRaceDto {
    NewRaceDto { name: name.to_string(), heats, race_event_id }
}

fn heat(no: u8, channel: &str, pilot_id: i64) -> NewHeatDto {
    NewHeatDto { no, pilot_id, channel: channel.to_string() }
}

#[test]
fn init_holds_only_the_registry() {
    let events = vec![race_core::model::RaceEvent::new(
        2,
        RaceEventType::Local,
        7,
        "Spring".to_string(),
    )];
    let state = State::init(events);
    assert!(state.upcoming_races().is_empty());
    assert!(state.current_race().is_none());
    assert!(state.pilots().is_empty());
    assert_eq!(state.race_events().len(), 1);
    assert!(state.knows_race_event(2));
    assert!(!state.knows_race_event(3));
    let copy = state.snapshot();
    assert_eq!(copy.race_events()[0].name, "Spring");
}

#[test]
fn create_then_load_fresh_event_is_empty() {
    let (stores, _r, _e) = memory_stores("fresh");
    let mut state = State::init(Vec::new());
    let created = state.create_race_event(&stores, event("Finals")).unwrap();
    assert_eq!(created.id, 1);
    assert_eq!(created.name, "Finals");
    assert_eq!(created.race_event_type, RaceEventType::Local);
    assert_eq!(state.race_events().len(), 1);
    let details = state.load_race_event(&stores, created.id).unwrap();
    assert!(details.pilots.is_empty());
    assert!(details.races.is_empty());
}

#[test]
fn round_trip_survives_a_restart() {
    let (stores, _r, _e) = memory_stores("restart");
    let mut state = State::init(Vec::new());
    let id = state.create_race_event(&stores, event("Finals")).unwrap().id;
    let alice = state.add_pilot(&stores, pilot(id, "Alice")).unwrap();
    let made = state
        .add_race(&stores, race(id, "Heat 1", vec![heat(1, "R1", alice.id), heat(2, "R2", alice.id)]))
        .unwrap();
    assert_eq!(state.upcoming_races().len(), 1);
    drop(state);
    drop(stores);

    let registry = Db::new(format!("file:restart_registry{}", SHARED)).unwrap();
    let events = registry.read_registry().unwrap();
    assert_eq!(events.len(), 1);
    assert_eq!(events[0].name, "Finals");
    let stores = Stores::new(registry, "file:restart_".to_string(), SHARED.to_string());
    let state = State::init(events);
    let details = state.load_race_event(&stores, id).unwrap();
    assert_eq!(details.pilots.len(), 1);
    assert_eq!(details.pilots[0].id, alice.id);
    assert_eq!(details.pilots[0].name, "Alice");
    assert_eq!(details.races.len(), 1);
    assert_eq!(details.races[0].id, made.id);
    assert_eq!(details.races[0].name, "Heat 1");
    assert_eq!(details.races[0].status, RaceStatus::New);
    assert_eq!(details.races[0].heats.len(), 2);
    assert_eq!(details.races[0].heats[0].channel, "R1");
    assert_eq!(details.races[0].heats[1].no, 2);
}

#[test]
fn same_name_pilots_in_sequence_only_first_succeeds() {
    let (stores, _r, _e) = memory_stores("serial");
    let mut state = State::init(Vec::new());
    let id = state.create_race_event(&stores, event("Finals")).unwrap().id;
    let mut successes = 0;
    let mut conflicts = 0;
    for _ in 0..5 {
        match state.add_pilot(&stores, pilot(id, "Alice")) {
            Ok(p) => {
                successes += 1;
                assert_eq!(p.name, "Alice");
            }
            Err(e) => {
                assert_eq!(e.kind, ErrorKind::Conflict);
                assert_eq!(e.message, "Pilot with name 'Alice' already exists");
                conflicts += 1;
            }
        }
    }
    assert_eq!(successes, 1);
    assert_eq!(conflicts, 4);
    assert_eq!(state.pilots().iter().filter(|p| p.name == "Alice").count(), 1);
    assert!(state.has_pilot(&"Alice".to_string()));
    assert_eq!(state.load_race_event(&stores, id).unwrap().pilots.len(), 1);
}

#[test]
fn earlier_action_is_seen_by_later_one() {
    let (stores, _r, _e) = memory_stores("ordered");
    let mut state = State::init(Vec::new());
    let id = state.create_race_event(&stores, event("Finals")).unwrap().id;
    state.add_pilot(&stores, pilot(id, "Bob")).unwrap();
    assert_eq!(state.add_pilot(&stores, pilot(id, "Bob")).unwrap_err().kind, ErrorKind::Conflict);
    assert!(state.add_pilot(&stores, pilot(id, "Carol")).is_ok());
    assert!(state.remove_race_event(&stores, id).is_ok());
}

#[test]
fn removed_event_is_not_found() {
    let (stores, _r, _e) = memory_stores("removal");
    let mut state = State::init(Vec::new());
    let id = state.create_race_event(&stores, event("Finals")).unwrap().id;
    state.remove_race_event(&stores, id).unwrap();
    assert!(state.race_events().is_empty());
    assert_eq!(state.load_race_event(&stores, id).unwrap_err().kind, ErrorKind::NotFound);
    assert!(stores.registry.read_registry().unwrap().is_empty());
    assert_eq!(state.remove_race_event(&stores, id).unwrap_err().kind, ErrorKind::NotFound);
}

#[test]
fn empty_event_name_is_rejected() {
    let (stores, _r, _e) = memory_stores("validation");
    let mut state = State::init(Vec::new());
    let e = state.create_race_event(&stores, event("")).unwrap_err();
    assert_eq!(e.kind, ErrorKind::Validation);
    assert_eq!(e.message, "Missing 'name' property in RaceEvent");
    assert!(state.race_events().is_empty());
    assert!(stores.registry.read_registry().unwrap().is_empty());
}

#[test]
fn unknown_event_is_not_found() {
    let (stores, _r, _e) = memory_stores("unknown");
    let mut state = State::init(Vec::new());
    let e = state.add_pilot(&stores, pilot(9, "Alice")).unwrap_err();
    assert_eq!(e.kind, ErrorKind::NotFound);
    assert_eq!(e.message, "Race event 9 does not exist");
    assert_eq!(
        state.add_race(&stores, race(9, "Heat 1", Vec::new())).unwrap_err().kind,
        ErrorKind::NotFound
    );
    assert_eq!(state.load_race_event(&stores, 9).unwrap_err().kind, ErrorKind::NotFound);
    assert!(state.pilots().is_empty());
    assert!(state.upcoming_races().is_empty());
}

#[test]
fn registry_failure_is_a_storage_error() {
    let registry = Db::new(":memory:".to_string()).unwrap();
    let stores = Stores::new(registry, "file:nowhere_".to_string(), SHARED.to_string());
    let mut state = State::init(Vec::new());
    let e = state.create_race_event(&stores, event("Finals")).unwrap_err();
    assert_eq!(e.kind, ErrorKind::Storage);
    assert!(state.race_events().is_empty());
}

#[test]
fn start_race_failure_leaves_other_actions_working() {
    let (stores, _r, _e) = memory_stores("nodevice");
    let mut state = State::init(Vec::new());
    let id = state.create_race_event(&stores, event("Finals")).unwrap().id;
    let r = race_core::actor::start_race_outcome(false);
    assert_eq!(r.unwrap_err().kind, ErrorKind::Device);
    assert!(state.add_pilot(&stores, pilot(id, "Alice")).is_ok());
    assert_eq!(state.race_events().len(), 1);
}
