use race_core::model::{NewHeatDto, NewRaceDto, RaceEventType, RaceStatus};
use race_core::store::{decode_heat, decode_race, decode_race_event, Db, StoreError, Stores};

const SHARED: &str = "?mode=memory&cache=shared";

fn count(conn: &rusqlite::Connection, table: &str) -> i64 {
    conn.query_row(&format!("SELECT COUNT(*) FROM {}", table), [], |r| r.get(0)).unwrap()
}

fn race_dto(name: &str, heats: &[(u8, &str, i64)]) -> NewRaceDto {
    NewRaceDto {
        name: name.to_string(),
        heats: heats
            .iter()
            .map(|(no, channel, pilot_id)| NewHeatDto {
                no: *no,
                pilot_id: *pilot_id,
                channel: channel.to_string(),
            })
            .collect(),
        race_event_id: 1,
    }
}

#[test]
fn registry_row_decodes() {
    let e = decode_race_event(4, "Finals".to_string(), 99, "Local".to_string()).unwrap();
    assert_eq!(e.id, 4);
    assert_eq!(e.name, "Finals");
    assert_eq!(e.created_at, 99);
    assert_eq!(e.race_event_type, RaceEventType::Local);
    match decode_race_event(4, "Finals".to_string(), 99, "Remote".to_string()) {
        Err(StoreError::UnknownTag(t)) => assert_eq!(t, "Remote"),
        other => panic!("unexpected {:?}", other),
    }
}

#[test]
fn heat_row_decodes_within_u8() {
    let h = decode_heat(1, 255, "R8".to_string(), 2).unwrap();
    assert_eq!(h.no, 255);
    assert_eq!(h.channel, "R8");
    assert!(matches!(
        decode_heat(1, 256, "R8".to_string(), 2),
        Err(StoreError::HeatNumberOutOfRange(256))
    ));
    assert!(matches!(
        decode_heat(1, -1, "R8".to_string(), 2),
        Err(StoreError::HeatNumberOutOfRange(-1))
    ));
}

#[test]
fn race_row_decodes() {
    let heats = vec![decode_heat(1, 1, "R1".to_string(), 2).unwrap()];
    let r = decode_race(3, "Heat 1".to_string(), "Interrupted".to_string(), heats).unwrap();
    assert_eq!(r.status, RaceStatus::Interrupted);
    assert_eq!(r.heats.len(), 1);
    let e = decode_race(3, "Heat 1".to_string(), "Paused".to_string(), Vec::new()).unwrap_err();
    assert_eq!(e.describe(), "Unknown stored tag 'Paused'");
}

#[test]
fn store_errors_describe_themselves() {
    assert_eq!(StoreError::Database("disk I/O error".to_string()).describe(), "disk I/O error");
    assert_eq!(
        StoreError::HeatNumberOutOfRange(300).describe(),
        "Stored heat number out of range: 300"
    );
}

#[test]
fn store_names_follow_the_layout() {
    let registry = Db::new(":memory:".to_string()).unwrap();
    assert_eq!(registry.name(), ":memory:");
    let stores = Stores::new(registry, "events/".to_string(), ".sqlite".to_string());
    assert_eq!(stores.store_name(42), "events/42.sqlite");
    assert_eq!(stores.store_name(-7), "events/-7.sqlite");
    let plain = Stores::new(Db::new(":memory:".to_string()).unwrap(), String::new(), String::new());
    assert_eq!(plain.store_name(1), "1");
}

#[test]
fn fresh_event_store_is_empty_then_returns_what_was_stored() {
    let db = Db::new(":memory:".to_string()).unwrap();
    db.provision().unwrap();
    assert!(db.find_pilots().unwrap().is_empty());
    assert!(db.find_races_with_heats().unwrap().is_empty());
    let alice = db.insert_pilot("Alice".to_string()).unwrap();
    assert_eq!(alice.name, "Alice");
    let race = db
        .insert_race_with_heats(race_dto("Heat 1", &[(1, "R1", alice.id), (2, "R2", alice.id)]))
        .unwrap();
    assert_eq!(race.name, "Heat 1");
    assert_eq!(race.status, RaceStatus::New);
    assert_eq!(race.heats.len(), 2);
    let pilots = db.find_pilots().unwrap();
    assert_eq!(pilots.len(), 1);
    assert_eq!(pilots[0].id, alice.id);
    assert_eq!(pilots[0].name, "Alice");
    let races = db.find_races_with_heats().unwrap();
    assert_eq!(races.len(), 1);
    assert_eq!(races[0].id, race.id);
    assert_eq!(races[0].name, "Heat 1");
    assert_eq!(races[0].status, RaceStatus::New);
    assert_eq!(races[0].heats.len(), 2);
    for (stored, made) in races[0].heats.iter().zip(race.heats.iter()) {
        assert_eq!(stored.id, made.id);
        assert_eq!(stored.no, made.no);
        assert_eq!(stored.channel, made.channel);
        assert_eq!(stored.pilot_id, alice.id);
    }
}

#[test]
fn race_with_heats_is_stored_whole() {
    let uri = format!("file:whole_race{}", SHARED);
    let keeper = rusqlite::Connection::open(&uri).unwrap();
    let db = Db::new(uri.clone()).unwrap();
    db.provision().unwrap();
    let a = db.insert_pilot("A".to_string()).unwrap().id;
    let b = db.insert_pilot("B".to_string()).unwrap().id;
    let race = db
        .insert_race_with_heats(race_dto("Final", &[(1, "R1", a), (2, "R2", b), (3, "R3", a)]))
        .unwrap();
    assert_eq!(race.heats.len(), 3);
    assert_eq!(count(&keeper, "races"), 1);
    assert_eq!(count(&keeper, "heats"), 3);
}

#[test]
fn race_with_heats_failing_midway_leaves_nothing() {
    let uri = format!("file:broken_race{}", SHARED);
    let keeper = rusqlite::Connection::open(&uri).unwrap();
    keeper
        .execute_batch(
            "CREATE TABLE pilots (id INTEGER PRIMARY KEY, name TEXT NOT NULL);
             CREATE TABLE races (id INTEGER PRIMARY KEY, name TEXT NOT NULL, status TEXT NOT NULL);
             CREATE TABLE heats (id INTEGER PRIMARY KEY, no INTEGER NOT NULL,
                 channel TEXT NOT NULL CHECK (channel <> 'jammed'),
                 pilot_id INTEGER NOT NULL, race_id INTEGER NOT NULL, rssi_raw TEXT NOT NULL);",
        )
        .unwrap();
    let db = Db::new(uri.clone()).unwrap();
    let r = db.insert_race_with_heats(race_dto("Final", &[(1, "R1", 1), (2, "jammed", 2)]));
    assert!(matches!(r, Err(StoreError::Database(_))));
    assert_eq!(count(&keeper, "races"), 0);
    assert_eq!(count(&keeper, "heats"), 0);
    assert!(db.find_races_with_heats().unwrap().is_empty());
}

#[test]
fn heat_of_unknown_pilot_is_refused_by_the_store() {
    let db = Db::new(":memory:".to_string()).unwrap();
    db.provision().unwrap();
    let r = db.insert_race_with_heats(race_dto("Final", &[(1, "R1", 77)]));
    assert!(matches!(r, Err(StoreError::Database(_))));
    assert!(db.find_races_with_heats().unwrap().is_empty());
}

#[test]
fn same_name_pilot_rows_get_distinct_ids() {
    let db = Db::new(":memory:".to_string()).unwrap();
    db.provision().unwrap();
    let a = db.insert_pilot("Alice".to_string()).unwrap();
    let b = db.insert_pilot("Alice".to_string()).unwrap();
    assert_ne!(a.id, b.id);
    let pilots = db.find_pilots().unwrap();
    assert_eq!(pilots.len(), 2);
    assert_eq!(pilots[1].id, b.id);
}

#[test]
fn heat_ids_are_the_stored_rows_ids() {
    let db = Db::new(":memory:".to_string()).unwrap();
    db.provision().unwrap();
    let p = db.insert_pilot("Alice".to_string()).unwrap().id;
    let race = db.insert_race_with_heats(race_dto("Final", &[(1, "R1", p), (2, "R2", p), (3, "R3", p)])).unwrap();
    assert_ne!(race.heats[0].id, race.heats[1].id);
    assert_ne!(race.heats[1].id, race.heats[2].id);
    assert_ne!(race.heats[0].id, race.heats[2].id);
    let stored = db.find_races_with_heats().unwrap();
    let ids: Vec<i64> = stored[0].heats.iter().map(|h| h.id).collect();
    assert_eq!(ids, race.heats.iter().map(|h| h.id).collect::<Vec<i64>>());
}

#[test]
fn registry_ids_are_fresh() {
    let db = Db::new(":memory:".to_string()).unwrap();
    db.read_registry().unwrap();
    let a = db.insert_race("A".to_string(), 1, RaceEventType::Local).unwrap();
    let b = db.insert_race("B".to_string(), 2, RaceEventType::Local).unwrap();
    assert_ne!(a.id, b.id);
    let listed = db.read_registry().unwrap();
    assert_eq!(listed.len(), 2);
    assert_eq!(listed[1].id, b.id);
    assert_eq!(listed[1].name, "B");
}

#[test]
fn unprovisionable_event_leaves_no_registry_row() {
    let registry = Db::new(":memory:".to_string()).unwrap();
    registry.read_registry().unwrap();
    let stores = Stores::new(registry, "/nonexistent-dir/race-".to_string(), String::new());
    let r = stores.insert_race_event("Finals".to_string(), 5, RaceEventType::Local);
    assert!(matches!(r, Err(StoreError::Database(_))));
    assert!(stores.registry.read_registry().unwrap().is_empty());
}

#[test]
fn store_without_tables_reports_database_errors() {
    let db = Db::new(":memory:".to_string()).unwrap();
    assert!(matches!(db.find_pilots(), Err(StoreError::Database(_))));
    assert!(matches!(db.insert_pilot("Bob".to_string()), Err(StoreError::Database(_))));
    assert!(matches!(db.remove_race_event(1), Err(StoreError::Database(_))));
}

#[test]
fn registry_insert_read_and_remove() {
    let db = Db::new(":memory:".to_string()).unwrap();
    assert!(db.read_registry().unwrap().is_empty());
    let e = db.insert_race("Finals".to_string(), 1234, RaceEventType::Local).unwrap();
    assert_eq!(e.name, "Finals");
    assert_eq!(e.created_at, 1234);
    let listed = db.read_registry().unwrap();
    assert_eq!(listed.len(), 1);
    assert_eq!(listed[0].id, e.id);
    assert_eq!(listed[0].race_event_type, RaceEventType::Local);
    db.remove_race_event(e.id).unwrap();
    assert!(db.read_registry().unwrap().is_empty());
}

#[test]
fn race_event_insert_provisions_its_store() {
    let registry = Db::new(":memory:".to_string()).unwrap();
    registry.read_registry().unwrap();
    let stores = Stores::new(registry, "file:provisioned_".to_string(), SHARED.to_string());
    let keeper = rusqlite::Connection::open(format!("file:provisioned_1{}", SHARED)).unwrap();
    let e = stores.insert_race_event("Finals".to_string(), 5, RaceEventType::Local).unwrap();
    assert_eq!(e.id, 1);
    assert_eq!(count(&keeper, "pilots"), 0);
    assert_eq!(count(&keeper, "races"), 0);
    assert_eq!(count(&keeper, "heats"), 0);
}
