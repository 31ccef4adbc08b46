//! The event store: a registry of race events, and one isolated store per race
//! event holding its pilots, races and heats. Both are SQLite databases,
//! reached through rusqlite.

use vstd::prelude::*;
use crate::model::{
    Heat, HeatView, NewHeatDto, NewRaceDto, Pilot, PilotView, Race, RaceEvent, RaceEventType,
    RaceEventView, RaceStatus, event_type_of_tag, event_type_tag, heat_matches, heat_views,
    race_matches, status_of_tag, status_tag, event_views, pilot_views, race_views, RaceView,
};

verus! {

#[verifier::external_type_specification]
#[verifier::external_body]
pub struct ExConnection(rusqlite::Connection);

#[verifier::external_type_specification]
#[verifier::external_body]
pub struct ExSqlError(rusqlite::Error);

/// Relies on rusqlite::Connection::open: opens the database file at `path`,
/// creating it when absent.
#[verifier::external_body]
fn open_connection(path: &str) -> (r: Result<rusqlite::Connection, rusqlite::Error>) {
    rusqlite::Connection::open(path)
}

/// A value bound to a positional parameter of a statement.
#[derive(Debug)]
pub enum SqlParam {
    Integer(i64),
    Text(String),
}

/// The mathematical value of a [`SqlParam`].
pub enum SqlParamView {
    Integer(i64),
    Text(Seq<char>),
}

impl View for SqlParam {
    type V = SqlParamView;

    open spec fn view(&self) -> SqlParamView {
        match self {
            SqlParam::Integer(n) => SqlParamView::Integer(*n),
            SqlParam::Text(t) => SqlParamView::Text(t@),
        }
    }
}

/// The views of a sequence of parameters.
pub open spec fn params_view(ps: Seq<SqlParam>) -> Seq<SqlParamView> {
    ps.map_values(|p: SqlParam| p@)
}

/// Relies on rusqlite::Connection::execute: runs one statement, binding
/// `params` to its positional parameters in order, each as SQLite's integer
/// or text value.
#[verifier::external_body]
fn execute(conn: &rusqlite::Connection, sql: &str, params: Vec<SqlParam>) -> (r: Result<
    usize,
    rusqlite::Error,
>) {
    let mut values: Vec<rusqlite::types::Value> = Vec::new();
    for p in params {
        values.push(
            match p {
                SqlParam::Integer(n) => rusqlite::types::Value::Integer(n),
                SqlParam::Text(t) => rusqlite::types::Value::Text(t),
            },
        );
    }
    conn.execute(sql, rusqlite::params_from_iter(values))
}

/// Relies on rusqlite::Connection::last_insert_rowid: the row id that the
/// latest successful insert on this connection was given.
#[verifier::external_body]
fn last_insert_rowid(conn: &rusqlite::Connection) -> (r: i64) {
    conn.last_insert_rowid()
}

/// Relies on the Display impl of rusqlite::Error: a readable description.
#[verifier::external_body]
fn error_text(e: &rusqlite::Error) -> (r: String) {
    e.to_string()
}

/// Relies on rusqlite::Connection::prepare and Statement::query_map: the rows
/// that `sql` selects, each read as (integer, text).
#[verifier::external_body]
fn query_int_text(conn: &rusqlite::Connection, sql: &str) -> (r: Result<
    Vec<(i64, String)>,
    rusqlite::Error,
>) {
    let mut statement = conn.prepare(sql)?;
    let rows = statement.query_map([], |row| Ok((row.get(0)?, row.get(1)?)))?;
    let collected = rows.collect();
    collected
}

/// Relies on rusqlite::Connection::prepare and Statement::query_map: the rows
/// that `sql` selects, each read as (integer, text, text).
#[verifier::external_body]
fn query_int_text_text(conn: &rusqlite::Connection, sql: &str) -> (r: Result<
    Vec<(i64, String, String)>,
    rusqlite::Error,
>) {
    let mut statement = conn.prepare(sql)?;
    let rows = statement.query_map([], |row| Ok((row.get(0)?, row.get(1)?, row.get(2)?)))?;
    let collected = rows.collect();
    collected
}

/// Relies on rusqlite::Connection::prepare and Statement::query_map: the rows
/// that `sql` selects, each read as (integer, text, integer, text).
#[verifier::external_body]
fn query_int_text_int_text(conn: &rusqlite::Connection, sql: &str) -> (r: Result<
    Vec<(i64, String, i64, String)>,
    rusqlite::Error,
>) {
    let mut statement = conn.prepare(sql)?;
    let rows = statement.query_map(
        [],
        |row| Ok((row.get(0)?, row.get(1)?, row.get(2)?, row.get(3)?)),
    )?;
    let collected = rows.collect();
    collected
}

/// Relies on rusqlite::Connection::prepare and Statement::query_map: the rows
/// that `sql` selects with `key` bound to its one parameter, each read as
/// (integer, integer, text, integer).
#[verifier::external_body]
fn query_keyed_int_int_text_int(conn: &rusqlite::Connection, sql: &str, key: i64) -> (r: Result<
    Vec<(i64, i64, String, i64)>,
    rusqlite::Error,
>) {
    let mut statement = conn.prepare(sql)?;
    let rows = statement.query_map(
        [key],
        |row| Ok((row.get(0)?, row.get(1)?, row.get(2)?, row.get(3)?)),
    )?;
    let collected = rows.collect();
    collected
}

/// Relies on the Display impl of i64: its decimal digits, after a minus sign
/// when negative.
#[verifier::external_body]
pub(crate) fn decimal(n: i64) -> (r: String)
    ensures
        r@ == decimal_of(n as int),
{
    n.to_string()
}

/// The character of a decimal digit.
pub open spec fn digit_char(d: nat) -> char {
    seq!['0', '1', '2', '3', '4', '5', '6', '7', '8', '9'][d as int]
}

/// The decimal digits of a natural number, without leading zeros.
pub open spec fn digits_of(n: nat) -> Seq<char>
    decreases n,
{
    if n < 10 {
        seq![digit_char(n)]
    } else {
        digits_of(n / 10).push(digit_char(n % 10))
    }
}

/// The decimal notation of an integer.
pub open spec fn decimal_of(n: int) -> Seq<char> {
    if n < 0 {
        seq!['-'] + digits_of((-n) as nat)
    } else {
        digits_of(n as nat)
    }
}

/// The name of the registry database.
pub const REGISTRY: &'static str = "db";

/// The parameters of a registry row: name, creation time, type tag.
pub fn registry_row_params(name: &String, created_at: i64, race_event_type: RaceEventType) -> (r:
    Vec<SqlParam>)
    ensures
        params_view(r@) == seq![
            SqlParamView::Text(name@),
            SqlParamView::Integer(created_at),
            SqlParamView::Text(event_type_tag(race_event_type)),
        ],
{
    let mut r: Vec<SqlParam> = Vec::new();
    r.push(SqlParam::Text(name.clone()));
    r.push(SqlParam::Integer(created_at));
    r.push(SqlParam::Text(String::from_str(race_event_type.tag())));
    assert(params_view(r@) =~= seq![
        SqlParamView::Text(name@),
        SqlParamView::Integer(created_at),
        SqlParamView::Text(event_type_tag(race_event_type)),
    ]);
    r
}

/// The parameters that select a row by id.
pub fn id_params(id: i64) -> (r: Vec<SqlParam>)
    ensures
        params_view(r@) == seq![SqlParamView::Integer(id)],
{
    let mut r: Vec<SqlParam> = Vec::new();
    r.push(SqlParam::Integer(id));
    assert(params_view(r@) =~= seq![SqlParamView::Integer(id)]);
    r
}

/// The parameters of a pilot row: its name.
pub fn pilot_row_params(name: &String) -> (r: Vec<SqlParam>)
    ensures
        params_view(r@) == seq![SqlParamView::Text(name@)],
{
    let mut r: Vec<SqlParam> = Vec::new();
    r.push(SqlParam::Text(name.clone()));
    assert(params_view(r@) =~= seq![SqlParamView::Text(name@)]);
    r
}

/// The parameters of a new race row: its name and the tag of status `New`.
pub fn race_row_params(dto: &NewRaceDto) -> (r: Vec<SqlParam>)
    ensures
        params_view(r@) == seq![
            SqlParamView::Text(dto.name@),
            SqlParamView::Text(status_tag(RaceStatus::New)),
        ],
{
    let mut r: Vec<SqlParam> = Vec::new();
    r.push(SqlParam::Text(dto.name.clone()));
    r.push(SqlParam::Text(String::from_str(RaceStatus::New.tag())));
    assert(params_view(r@) =~= seq![
        SqlParamView::Text(dto.name@),
        SqlParamView::Text(status_tag(RaceStatus::New)),
    ]);
    r
}

/// The parameters of a new heat row of race `race_id`: number, channel,
/// pilot, race, and an empty telemetry buffer.
pub fn heat_row_params(d: &NewHeatDto, race_id: i64) -> (r: Vec<SqlParam>)
    ensures
        params_view(r@) == seq![
            SqlParamView::Integer(d.no as i64),
            SqlParamView::Text(d.channel@),
            SqlParamView::Integer(d.pilot_id),
            SqlParamView::Integer(race_id),
            SqlParamView::Text(Seq::empty()),
        ],
{
    let mut r: Vec<SqlParam> = Vec::new();
    r.push(SqlParam::Integer(d.no as i64));
    r.push(SqlParam::Text(d.channel.clone()));
    r.push(SqlParam::Integer(d.pilot_id));
    r.push(SqlParam::Integer(race_id));
    r.push(SqlParam::Text(String::new()));
    assert(params_view(r@) =~= seq![
        SqlParamView::Integer(d.no as i64),
        SqlParamView::Text(d.channel@),
        SqlParamView::Integer(d.pilot_id),
        SqlParamView::Integer(race_id),
        SqlParamView::Text(Seq::empty()),
    ]);
    r
}

/// The statement that ends a transaction: `COMMIT` when its work succeeded,
/// `ROLLBACK` otherwise.
pub fn transaction_end(succeeded: bool) -> (r: &'static str)
    ensures
        succeeded ==> r@ == "COMMIT"@,
        !succeeded ==> r@ == "ROLLBACK"@,
{
    if succeeded {
        "COMMIT"
    } else {
        "ROLLBACK"
    }
}

/// Why a store operation failed.
#[derive(Debug)]
pub enum StoreError {
    /// The database reported a failure, described here.
    Database(String),
    /// A stored tag names no variant.
    UnknownTag(String),
    /// A stored heat number does not fit in `u8`.
    HeatNumberOutOfRange(i64),
}

impl StoreError {
    /// A readable description of the failure.
    pub fn describe(&self) -> (r: String)
        ensures
            match self {
                StoreError::Database(m) => r@ == m@,
                StoreError::UnknownTag(t) => r@ == "Unknown stored tag '"@ + t@ + "'"@,
                StoreError::HeatNumberOutOfRange(n) => r@ == "Stored heat number out of range: "@
                    + decimal_of(*n as int),
            },
    {
        match self {
            StoreError::Database(m) => m.clone(),
            StoreError::UnknownTag(t) => String::from_str("Unknown stored tag '").concat(
                t.as_str(),
            ).concat("'"),
            StoreError::HeatNumberOutOfRange(n) => String::from_str(
                "Stored heat number out of range: ",
            ).concat(decimal(*n).as_str()),
        }
    }
}

fn database_error(e: rusqlite::Error) -> (r: StoreError)
    ensures
        r is Database,
{
    StoreError::Database(error_text(&e))
}

/// Reads a registry row back into a race event.
pub fn decode_race_event(id: i64, name: String, created_at: i64, tag: String) -> (r: Result<
    RaceEvent,
    StoreError,
>)
    ensures
        match event_type_of_tag(tag@) {
            Some(t) => r matches Ok(e) && e@ == (RaceEventView {
                id,
                name: name@,
                race_event_type: t,
                created_at,
            }),
            None => r matches Err(StoreError::UnknownTag(u)) && u@ == tag@,
        },
{
    match RaceEventType::from_tag(tag.as_str()) {
        Some(t) => Ok(RaceEvent::new(id, t, created_at, name)),
        None => Err(StoreError::UnknownTag(tag)),
    }
}

/// Reads a heat row back; the heat number must fit in `u8`.
pub fn decode_heat(id: i64, no: i64, channel: String, pilot_id: i64) -> (r: Result<
    Heat,
    StoreError,
>)
    ensures
        0 <= no <= 255 ==> (r matches Ok(h) && h@ == (HeatView {
            id,
            no: no as u8,
            channel: channel@,
            pilot_id,
        })),
        !(0 <= no <= 255) ==> (r matches Err(StoreError::HeatNumberOutOfRange(n)) && n == no),
{
    if 0 <= no && no <= 255 {
        Ok(Heat::new(id, no as u8, channel, pilot_id))
    } else {
        Err(StoreError::HeatNumberOutOfRange(no))
    }
}

/// Reads a race row back, with the heats already read for it.
pub fn decode_race(id: i64, name: String, tag: String, heats: Vec<Heat>) -> (r: Result<
    Race,
    StoreError,
>)
    ensures
        match status_of_tag(tag@) {
            Some(s) => r matches Ok(race) && race.id == id && race.name@ == name@ && race.status
                == s && race.heats@ == heats@,
            None => r matches Err(StoreError::UnknownTag(u)) && u@ == tag@,
        },
{
    match RaceStatus::from_tag(tag.as_str()) {
        Some(s) => Ok(Race::new(id, name, s, heats)),
        None => Err(StoreError::UnknownTag(tag)),
    }
}

/// Whether a registry row's type tag is known.
pub open spec fn event_row_known(row: (i64, String, i64, String)) -> bool {
    event_type_of_tag(row.3@) is Some
}

/// The race event that a registry row (id, name, created_at, type tag)
/// holds, when its tag is known.
pub open spec fn event_of_row(row: (i64, String, i64, String)) -> RaceEventView {
    RaceEventView {
        id: row.0,
        name: row.1@,
        race_event_type: match event_type_of_tag(row.3@) {
            Some(t) => t,
            None => RaceEventType::Local,
        },
        created_at: row.2,
    }
}

/// The race events that registry rows hold.
pub open spec fn events_of_rows(rows: Seq<(i64, String, i64, String)>) -> Seq<RaceEventView> {
    rows.map_values(|row| event_of_row(row))
}

/// Reads registry rows back, in order. The first row with an unknown type
/// tag makes the whole read fail with that tag.
pub fn decode_race_events(rows: &Vec<(i64, String, i64, String)>) -> (r: Result<
    Vec<RaceEvent>,
    StoreError,
>)
    ensures
        match r {
            Ok(v) => (forall|i: int| 0 <= i < rows@.len() ==> event_row_known(#[trigger] rows@[i]))
                && event_views(v@) == events_of_rows(rows@),
            Err(e) => exists|k: int|
                0 <= k < rows@.len() && !event_row_known(#[trigger] rows@[k]) && (forall|j: int|
                    0 <= j < k ==> event_row_known(#[trigger] rows@[j])) && (e matches StoreError::UnknownTag(
                    t,
                ) && t@ == rows@[k].3@),
        },
{
    let mut events: Vec<RaceEvent> = Vec::new();
    let mut i: usize = 0;
    while i < rows.len()
        invariant
            i <= rows@.len(),
            forall|j: int| 0 <= j < i ==> event_row_known(#[trigger] rows@[j]),
            event_views(events@) == rows@.take(i as int).map_values(|row| event_of_row(row)),
        decreases rows@.len() - i,
    {
        let row = &rows[i];
        match decode_race_event(row.0, row.1.clone(), row.2, row.3.clone()) {
            Ok(e) => {
                let ghost before = events@;
                events.push(e);
                assert(event_views(events@) =~= event_views(before).push(e@));
                assert(rows@.take(i + 1).map_values(|row| event_of_row(row)) =~= rows@.take(
                    i as int,
                ).map_values(|row| event_of_row(row)).push(event_of_row(rows@[i as int])));
            },
            Err(e) => {
                assert(!event_row_known(rows@[i as int]));
                return Err(e);
            },
        }
        i += 1;
    }
    assert(rows@.take(i as int) =~= rows@);
    Ok(events)
}

/// The pilot that a row (id, name) holds.
pub open spec fn pilot_of_row(row: (i64, String)) -> PilotView {
    PilotView { id: row.0, name: row.1@ }
}

/// The pilots that pilot rows hold.
pub open spec fn pilots_of_row_seq(rows: Seq<(i64, String)>) -> Seq<PilotView> {
    rows.map_values(|row| pilot_of_row(row))
}

/// Reads pilot rows back, in order.
pub fn pilots_of_rows(rows: &Vec<(i64, String)>) -> (r: Vec<Pilot>)
    ensures
        pilot_views(r@) == pilots_of_row_seq(rows@),
{
    let mut pilots: Vec<Pilot> = Vec::new();
    let mut i: usize = 0;
    while i < rows.len()
        invariant
            i <= rows@.len(),
            pilot_views(pilots@) == rows@.take(i as int).map_values(|row| pilot_of_row(row)),
        decreases rows@.len() - i,
    {
        let ghost before = pilots@;
        let p = Pilot::new(rows[i].0, rows[i].1.clone());
        pilots.push(p);
        assert(pilot_views(pilots@) =~= pilot_views(before).push(p@));
        assert(rows@.take(i + 1).map_values(|row| pilot_of_row(row)) =~= rows@.take(
            i as int,
        ).map_values(|row| pilot_of_row(row)).push(pilot_of_row(rows@[i as int])));
        i += 1;
    }
    assert(rows@.take(i as int) =~= rows@);
    pilots
}

/// Whether a heat row's number fits in `u8`.
pub open spec fn heat_row_in_range(row: (i64, i64, String, i64)) -> bool {
    0 <= row.1 <= 255
}

/// The heat that a row (id, number, channel, pilot id) holds.
pub open spec fn heat_of_row(row: (i64, i64, String, i64)) -> HeatView {
    HeatView { id: row.0, no: row.1 as u8, channel: row.2@, pilot_id: row.3 }
}

/// The failure for heat rows of which some number does not fit in `u8`: it
/// names the first such number.
pub open spec fn heats_error(rows: Seq<(i64, i64, String, i64)>, e: StoreError) -> bool {
    exists|k: int|
        0 <= k < rows.len() && !heat_row_in_range(#[trigger] rows[k]) && (forall|j: int|
            0 <= j < k ==> heat_row_in_range(#[trigger] rows[j])) && e
            == StoreError::HeatNumberOutOfRange(rows[k].1)
}

/// Reads heat rows back, in order.
pub fn decode_heats(rows: &Vec<(i64, i64, String, i64)>) -> (r: Result<Vec<Heat>, StoreError>)
    ensures
        match r {
            Ok(v) => (forall|i: int| 0 <= i < rows@.len() ==> heat_row_in_range(#[trigger] rows@[i]))
                && heat_views(v@) == rows@.map_values(|row| heat_of_row(row)),
            Err(e) => heats_error(rows@, e),
        },
{
    let mut heats: Vec<Heat> = Vec::new();
    let mut i: usize = 0;
    while i < rows.len()
        invariant
            i <= rows@.len(),
            forall|j: int| 0 <= j < i ==> heat_row_in_range(#[trigger] rows@[j]),
            heat_views(heats@) == rows@.take(i as int).map_values(|row| heat_of_row(row)),
        decreases rows@.len() - i,
    {
        let row = &rows[i];
        match decode_heat(row.0, row.1, row.2.clone(), row.3) {
            Ok(h) => {
                let ghost before = heats@;
                heats.push(h);
                assert(heat_views(heats@) =~= heat_views(before).push(h@));
                assert(rows@.take(i + 1).map_values(|row| heat_of_row(row)) =~= rows@.take(
                    i as int,
                ).map_values(|row| heat_of_row(row)).push(heat_of_row(rows@[i as int])));
            },
            Err(e) => {
                assert(!heat_row_in_range(rows@[i as int]));
                return Err(e);
            },
        }
        i += 1;
    }
    assert(rows@.take(i as int) =~= rows@);
    Ok(heats)
}

/// Whether a race row (id, name, status tag) and its heat rows read back:
/// the tag is known and every heat number fits.
pub open spec fn race_row_ok(row: (i64, String, String), heats: Seq<(i64, i64, String, i64)>) -> bool {
    &&& status_of_tag(row.2@) is Some
    &&& forall|m: int| 0 <= m < heats.len() ==> heat_row_in_range(#[trigger] heats[m])
}

/// The race that a race row and its heat rows hold.
pub open spec fn race_of_rows(row: (i64, String, String), heats: Seq<(i64, i64, String, i64)>) -> RaceView {
    RaceView {
        id: row.0,
        name: row.1@,
        status: match status_of_tag(row.2@) {
            Some(s) => s,
            None => RaceStatus::New,
        },
        heats: heats.map_values(|h| heat_of_row(h)),
    }
}

/// The failure for a race row that does not read back: a bad heat number
/// first, else the unknown status tag.
pub open spec fn race_row_error(
    row: (i64, String, String),
    heats: Seq<(i64, i64, String, i64)>,
    e: StoreError,
) -> bool {
    if forall|m: int| 0 <= m < heats.len() ==> heat_row_in_range(#[trigger] heats[m]) {
        e matches StoreError::UnknownTag(t) && t@ == row.2@
    } else {
        heats_error(heats, e)
    }
}

/// The views of the heat rows read for each race.
pub open spec fn heat_rows_view(h: Seq<Vec<(i64, i64, String, i64)>>) -> Seq<
    Seq<(i64, i64, String, i64)>,
> {
    h.map_values(|v: Vec<(i64, i64, String, i64)>| v@)
}

/// The races that race rows and, for each, its heat rows hold.
pub open spec fn races_of_rows(
    rows: Seq<(i64, String, String)>,
    heats: Seq<Seq<(i64, i64, String, i64)>>,
) -> Seq<RaceView> {
    Seq::new(rows.len(), |i: int| race_of_rows(rows[i], heats[i]))
}

/// Reads race rows back, each with its heat rows, in order. The first race
/// that does not read back makes the whole read fail.
pub fn decode_races_with_heats(
    rows: &Vec<(i64, String, String)>,
    heat_rows: &Vec<Vec<(i64, i64, String, i64)>>,
) -> (r: Result<Vec<Race>, StoreError>)
    requires
        heat_rows@.len() == rows@.len(),
    ensures
        match r {
            Ok(v) => (forall|i: int|
                0 <= i < rows@.len() ==> race_row_ok(#[trigger] rows@[i], heat_rows@[i]@))
                && race_views(v@) == races_of_rows(rows@, heat_rows_view(heat_rows@)),
            Err(e) => exists|k: int|
                0 <= k < rows@.len() && !race_row_ok(#[trigger] rows@[k], heat_rows@[k]@) && (forall|
                    j: int,
                | 0 <= j < k ==> race_row_ok(#[trigger] rows@[j], heat_rows@[j]@)) && race_row_error(
                    rows@[k],
                    heat_rows@[k]@,
                    e,
                ),
        },
{
    let ghost hv = heat_rows_view(heat_rows@);
    let mut races: Vec<Race> = Vec::new();
    let mut i: usize = 0;
    while i < rows.len()
        invariant
            i <= rows@.len(),
            heat_rows@.len() == rows@.len(),
            hv == heat_rows_view(heat_rows@),
            forall|j: int| 0 <= j < i ==> race_row_ok(#[trigger] rows@[j], heat_rows@[j]@),
            race_views(races@) == races_of_rows(rows@, hv).take(i as int),
        decreases rows@.len() - i,
    {
        let row = &rows[i];
        assert(hv[i as int] == heat_rows@[i as int]@);
        let heats = match decode_heats(&heat_rows[i]) {
            Ok(heats) => heats,
            Err(e) => {
                assert(!race_row_ok(rows@[i as int], heat_rows@[i as int]@));
                return Err(e);
            },
        };
        match decode_race(row.0, row.1.clone(), row.2.clone(), heats) {
            Ok(race) => {
                let ghost before = races@;
                races.push(race);
                assert(race@ == race_of_rows(rows@[i as int], hv[i as int]));
                assert(race_views(races@) =~= race_views(before).push(race@));
                assert(races_of_rows(rows@, hv).take(i + 1) =~= races_of_rows(rows@, hv).take(
                    i as int,
                ).push(race@));
            },
            Err(e) => {
                assert(!race_row_ok(rows@[i as int], heat_rows@[i as int]@));
                return Err(e);
            },
        }
        i += 1;
    }
    assert(races_of_rows(rows@, hv).take(i as int) =~= races_of_rows(rows@, hv));
    Ok(races)
}

/// A connection to one of the databases, with the name it was opened by.
pub struct Db {
    connection: rusqlite::Connection,
    name: String,
}

impl Db {
    /// The name this database was opened by.
    pub closed spec fn spec_name(&self) -> Seq<char> {
        self.name@
    }

    pub fn name(&self) -> (r: &str)
        ensures
            r@ == self.spec_name(),
    {
        self.name.as_str()
    }

    /// Opens the database called `name`, creating it when absent.
    pub fn new(name: String) -> (r: Result<Db, StoreError>)
        ensures
            r matches Ok(db) ==> db.spec_name() == name@,
            r matches Err(e) ==> e is Database,
    {
        match open_connection(name.as_str()) {
            Ok(connection) => Ok(Db { connection, name }),
            Err(e) => Err(database_error(e)),
        }
    }

    fn run(&self, sql: &str, params: Vec<SqlParam>) -> (r: Result<(), StoreError>)
        ensures
            r matches Err(e) ==> e is Database,
    {
        match execute(&self.connection, sql, params) {
            Ok(_) => Ok(()),
            Err(e) => Err(database_error(e)),
        }
    }

    /// Ends the transaction that `outcome` was computed in: commits it when
    /// `outcome` is a success, rolls it back otherwise.
    fn finish<T>(&self, outcome: Result<T, StoreError>) -> (r: Result<T, StoreError>)
        ensures
            r matches Ok(v) ==> outcome == Ok::<T, StoreError>(v),
            outcome matches Err(e) ==> r == Err::<T, StoreError>(e),
            r matches Err(e) ==> e is Database || outcome == Err::<T, StoreError>(e),
    {
        match outcome {
            Ok(v) => match self.run(transaction_end(true), Vec::new()) {
                Ok(()) => Ok(v),
                Err(e) => {
                    let _ = self.run(transaction_end(false), Vec::new());
                    Err(e)
                },
            },
            Err(e) => {
                let _ = self.run(transaction_end(false), Vec::new());
                Err(e)
            },
        }
    }

    /// Opens the registry and reads every race event in it, in storage order.
    pub fn init() -> (r: Result<Vec<RaceEvent>, StoreError>)
        ensures
            r matches Err(e) ==> e is Database || e is UnknownTag,
            r matches Ok(v) ==> exists|rows: Seq<(i64, String, i64, String)>|
                (forall|i: int| 0 <= i < rows.len() ==> event_row_known(#[trigger] rows[i]))
                    && event_views(v@) == #[trigger] events_of_rows(rows),
    {
        let db = Db::new(String::from_str(REGISTRY))?;
        db.read_registry()
    }

    /// Creates the registry's table when absent, and reads every race event
    /// in it, in storage order.
    pub fn read_registry(&self) -> (r: Result<Vec<RaceEvent>, StoreError>)
        ensures
            r matches Err(e) ==> e is Database || e is UnknownTag,
            r matches Ok(v) ==> exists|rows: Seq<(i64, String, i64, String)>|
                (forall|i: int| 0 <= i < rows.len() ==> event_row_known(#[trigger] rows[i]))
                    && event_views(v@) == #[trigger] events_of_rows(rows),
    {
        self.run(
            "CREATE TABLE IF NOT EXISTS raceEvents (
                id INTEGER PRIMARY KEY,
                name TEXT NOT NULL,
                created_at INTEGER NOT NULL,
                race_event_type TEXT NOT NULL
            )",
            Vec::new(),
        )?;
        let rows = match query_int_text_int_text(
            &self.connection,
            "SELECT id, name, created_at, race_event_type FROM raceEvents ORDER BY id",
        ) {
            Ok(rows) => rows,
            Err(e) => return Err(database_error(e)),
        };
        decode_race_events(&rows)
    }

    /// Creates the tables of a race event's isolated store, in one
    /// transaction.
    pub fn provision(&self) -> (r: Result<(), StoreError>)
        ensures
            r matches Err(e) ==> e is Database,
    {
        self.run("BEGIN", Vec::new())?;
        let created = self.create_event_tables();
        self.finish(created)
    }

    fn create_event_tables(&self) -> (r: Result<(), StoreError>)
        ensures
            r matches Err(e) ==> e is Database,
    {
        self.run(
            "CREATE TABLE IF NOT EXISTS pilots (
                id INTEGER PRIMARY KEY,
                name TEXT NOT NULL
            )",
            Vec::new(),
        )?;
        self.run(
            "CREATE TABLE IF NOT EXISTS races (
                id INTEGER PRIMARY KEY,
                name TEXT NOT NULL,
                status TEXT NOT NULL
            )",
            Vec::new(),
        )?;
        self.run(
            "CREATE TABLE IF NOT EXISTS heats (
                id INTEGER PRIMARY KEY,
                no INTEGER NOT NULL,
                channel TEXT NOT NULL,
                pilot_id INTEGER NOT NULL,
                race_id INTEGER NOT NULL,
                rssi_raw TEXT NOT NULL,
                FOREIGN KEY(pilot_id) REFERENCES pilots(id),
                FOREIGN KEY(race_id) REFERENCES races(id)
            )",
            Vec::new(),
        )
    }

    /// Adds a row for a race event to the registry.
    pub fn insert_race(&self, name: String, created_at: i64, race_event_type: RaceEventType) -> (r:
        Result<RaceEvent, StoreError>)
        ensures
            r matches Ok(e) ==> e.name == name && e.created_at == created_at && e.race_event_type
                == race_event_type,
            r matches Err(e) ==> e is Database,
    {
        self.run(
            "INSERT INTO raceEvents (name, created_at, race_event_type) VALUES (?1, ?2, ?3)",
            registry_row_params(&name, created_at, race_event_type),
        )?;
        let id = last_insert_rowid(&self.connection);
        Ok(RaceEvent::new(id, race_event_type, created_at, name))
    }

    /// Deletes the registry row of race event `id`.
    pub fn remove_race_event(&self, race_event_id: i64) -> (r: Result<(), StoreError>)
        ensures
            r matches Err(e) ==> e is Database,
    {
        self.run("DELETE FROM raceEvents WHERE id = ?1", id_params(race_event_id))
    }

    /// Stores a pilot. Names are not checked for uniqueness here.
    pub fn insert_pilot(&self, name: String) -> (r: Result<Pilot, StoreError>)
        ensures
            r matches Ok(p) ==> p.name == name,
            r matches Err(e) ==> e is Database,
    {
        self.run("INSERT INTO pilots (name) VALUES (?1)", pilot_row_params(&name))?;
        let id = last_insert_rowid(&self.connection);
        Ok(Pilot::new(id, name))
    }

    /// Every pilot of this store, in storage order.
    pub fn find_pilots(&self) -> (r: Result<Vec<Pilot>, StoreError>)
        ensures
            r matches Err(e) ==> e is Database,
            r matches Ok(v) ==> exists|rows: Seq<(i64, String)>| pilot_views(v@)
                == #[trigger] pilots_of_row_seq(rows),
    {
        let rows = match query_int_text(&self.connection, "SELECT id, name FROM pilots ORDER BY id") {
            Ok(rows) => rows,
            Err(e) => return Err(database_error(e)),
        };
        Ok(pilots_of_rows(&rows))
    }

    fn insert_race_rows(&self, dto: &NewRaceDto) -> (r: Result<(i64, Vec<Heat>), StoreError>)
        ensures
            r matches Err(e) ==> e is Database,
            r matches Ok((_, heats)) ==> heats@.len() == dto.heats@.len() && forall|i: int|
                0 <= i < heats@.len() ==> heat_matches(#[trigger] heats@[i]@, dto.heats@[i]),
    {
        self.run(
            "INSERT INTO races (name, status) VALUES (?1, ?2)",
            race_row_params(dto),
        )?;
        let race_id = last_insert_rowid(&self.connection);
        let mut heats: Vec<Heat> = Vec::new();
        let mut i: usize = 0;
        while i < dto.heats.len()
            invariant
                i <= dto.heats@.len(),
                heats@.len() == i,
                forall|j: int| 0 <= j < i ==> heat_matches(#[trigger] heats@[j]@, dto.heats@[j]),
            decreases dto.heats@.len() - i,
        {
            let d: &NewHeatDto = &dto.heats[i];
            self.run(
                "INSERT INTO heats (no, channel, pilot_id, race_id, rssi_raw) VALUES (?1, ?2, ?3, ?4, ?5)",
                heat_row_params(d, race_id),
            )?;
            let id = last_insert_rowid(&self.connection);
            heats.push(Heat::new(id, d.no, d.channel.clone(), d.pilot_id));
            i += 1;
        }
        Ok((race_id, heats))
    }

    /// Stores a race and all of its heats in one transaction: either all of
    /// them are stored, or none is.
    pub fn insert_race_with_heats(&self, new_race_dto: NewRaceDto) -> (r: Result<Race, StoreError>)
        ensures
            r matches Ok(race) ==> race_matches(race@, new_race_dto),
            r matches Err(e) ==> e is Database,
    {
        self.run("BEGIN", Vec::new())?;
        let inserted = self.insert_race_rows(&new_race_dto);
        let (race_id, heats) = self.finish(inserted)?;
        let race = Race::new(race_id, new_race_dto.name, RaceStatus::New, heats);
        assert(race@.heats.len() == new_race_dto.heats@.len());
        assert forall|i: int| 0 <= i < race@.heats.len() implies heat_matches(
            #[trigger] race@.heats[i],
            new_race_dto.heats@[i],
        ) by {
            assert(race@.heats[i] == race.heats@[i]@);
        }
        Ok(race)
    }

    /// Every race of this store with its heats, races and heats each in
    /// storage order.
    pub fn find_races_with_heats(&self) -> (r: Result<Vec<Race>, StoreError>)
        ensures
            r matches Err(e) ==> e is Database || e is UnknownTag || e is HeatNumberOutOfRange,
            r matches Ok(v) ==> exists|
                rows: Seq<(i64, String, String)>,
                heats: Seq<Seq<(i64, i64, String, i64)>>,
            |
                heats.len() == rows.len() && (forall|i: int|
                    0 <= i < rows.len() ==> race_row_ok(#[trigger] rows[i], heats[i]))
                    && race_views(v@) == #[trigger] races_of_rows(rows, heats),
    {
        let rows = match query_int_text_text(
            &self.connection,
            "SELECT id, name, status FROM races ORDER BY id",
        ) {
            Ok(rows) => rows,
            Err(e) => return Err(database_error(e)),
        };
        let mut heat_rows: Vec<Vec<(i64, i64, String, i64)>> = Vec::new();
        let mut i: usize = 0;
        while i < rows.len()
            invariant
                i <= rows@.len(),
                heat_rows@.len() == i,
            decreases rows@.len() - i,
        {
            match query_keyed_int_int_text_int(
                &self.connection,
                "SELECT id, no, channel, pilot_id FROM heats WHERE race_id = ?1 ORDER BY id",
                rows[i].0,
            ) {
                Ok(heats) => heat_rows.push(heats),
                Err(e) => return Err(database_error(e)),
            }
            i += 1;
        }
        decode_races_with_heats(&rows, &heat_rows)
    }
}

/// The registry, and where the isolated store of each race event lives: the
/// store of race event `id` is named `prefix`, then `id` in decimal, then
/// `suffix`.
pub struct Stores {
    pub registry: Db,
    pub prefix: String,
    pub suffix: String,
}

impl Stores {
    pub fn new(registry: Db, prefix: String, suffix: String) -> (r: Stores)
        ensures
            r.registry == registry,
            r.prefix == prefix,
            r.suffix == suffix,
    {
        Stores { registry, prefix, suffix }
    }

    /// The name of the isolated store of race event `id`.
    pub fn store_name(&self, id: i64) -> (r: String)
        ensures
            r@ == self.prefix@ + decimal_of(id as int) + self.suffix@,
    {
        self.prefix.clone().concat(decimal(id).as_str()).concat(self.suffix.as_str())
    }

    /// Opens the isolated store of race event `id`.
    pub fn open_race_event(&self, id: i64) -> (r: Result<Db, StoreError>)
        ensures
            r matches Ok(db) ==> db.spec_name() == self.prefix@ + decimal_of(id as int)
                + self.suffix@,
            r matches Err(e) ==> e is Database,
    {
        Db::new(self.store_name(id))
    }

    /// Adds a race event to the registry and provisions its isolated store.
    /// When the store cannot be provisioned, it asks the registry to delete
    /// the new row again, and returns the failure.
    pub fn insert_race_event(
        &self,
        name: String,
        created_at: i64,
        race_event_type: RaceEventType,
    ) -> (r: Result<RaceEvent, StoreError>)
        ensures
            r matches Ok(e) ==> e.name == name && e.created_at == created_at && e.race_event_type
                == race_event_type,
            r matches Err(e) ==> e is Database,
    {
        let event = self.registry.insert_race(name, created_at, race_event_type)?;
        let provisioned = match self.open_race_event(event.id) {
            Ok(store) => store.provision(),
            Err(e) => Err(e),
        };
        match provisioned {
            Ok(()) => Ok(event),
            Err(e) => {
                let _ = self.registry.remove_race_event(event.id);
                Err(e)
            },
        }
    }
}

} // verus!
