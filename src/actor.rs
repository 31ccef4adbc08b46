//! The state actor's aggregate and its handlers. Each handler validates its
//! request, persists through the event store, and only then changes the
//! in-memory state, so that a failure leaves the state as it was.

use vstd::prelude::*;
use crate::model::{
    ErrorKind, ErrorMessage, NewPilotDto, NewRaceDto, NewRaceEventDto, Pilot, PilotView, Race,
    RaceEvent, RaceEventDetailsDto, RaceEventDetailsView, RaceEventType, RaceEventView, RaceView,
    event_views, pilot_views, race_matches, race_views,
};
use crate::store::{
    StoreError, Stores, decimal, pilots_of_row_seq, race_row_ok, races_of_rows,
};

verus! {

/// Relies on std::time::SystemTime::now and SystemTime::duration_since: how
/// far the system clock reads from the Unix epoch, in microseconds, and
/// whether it reads before it (then `duration_since` fails and its error
/// carries the distance).
#[verifier::external_body]
fn clock_offset_micros() -> (r: (bool, u128)) {
    match std::time::SystemTime::now().duration_since(std::time::UNIX_EPOCH) {
        Ok(d) => (false, d.as_micros()),
        Err(e) => (true, e.duration().as_micros()),
    }
}

/// Microseconds since the Unix epoch, for a clock that reads `m`
/// microseconds after it (or before it, when `before`), saturated to the
/// range of `i64`.
pub open spec fn micros_of_offset(before: bool, m: int) -> int {
    let v = if before {
        -m
    } else {
        m
    };
    if v > i64::MAX {
        i64::MAX as int
    } else if v < i64::MIN {
        i64::MIN as int
    } else {
        v
    }
}

/// A signed timestamp from a clock's distance to the Unix epoch.
pub fn timestamp_micros(before: bool, m: u128) -> (r: i64)
    ensures
        r as int == micros_of_offset(before, m as int),
{
    if before {
        if m >= 9223372036854775808u128 {
            i64::MIN
        } else {
            -(m as i64)
        }
    } else {
        if m > 9223372036854775807u128 {
            i64::MAX
        } else {
            m as i64
        }
    }
}

/// The application state, owned by the state actor alone.
#[derive(Debug)]
pub struct State {
    upcoming_races: Vec<Race>,
    current_race: Option<Race>,
    pilots: Vec<Pilot>,
    race_events: Vec<RaceEvent>,
}

/// The mathematical value of a [`State`].
pub struct StateView {
    pub upcoming_races: Seq<RaceView>,
    pub current_race: Option<RaceView>,
    pub pilots: Seq<PilotView>,
    pub race_events: Seq<RaceEventView>,
}

impl View for State {
    type V = StateView;

    closed spec fn view(&self) -> StateView {
        StateView {
            upcoming_races: race_views(self.upcoming_races@),
            current_race: match self.current_race {
                Some(r) => Some(r@),
                None => None,
            },
            pilots: pilot_views(self.pilots@),
            race_events: event_views(self.race_events@),
        }
    }
}

/// Whether a pilot of that name is in the sequence.
pub open spec fn has_pilot_named(pilots: Seq<PilotView>, name: Seq<char>) -> bool {
    exists|i: int| 0 <= i < pilots.len() && #[trigger] pilots[i].name == name
}

/// Whether no two pilots of the sequence share a name.
pub open spec fn names_unique(pilots: Seq<PilotView>) -> bool {
    forall|i: int, j: int|
        0 <= i < pilots.len() && 0 <= j < pilots.len() && i != j ==> #[trigger] pilots[i].name
            != #[trigger] pilots[j].name
}

/// Whether a race event with that id is in the sequence.
pub open spec fn has_race_event(events: Seq<RaceEventView>, id: i64) -> bool {
    exists|i: int| 0 <= i < events.len() && #[trigger] events[i].id == id
}

/// The race events of the sequence other than those with that id, in order.
pub open spec fn without_race_event(events: Seq<RaceEventView>, id: i64) -> Seq<RaceEventView>
    decreases events.len(),
{
    if events.len() == 0 {
        events
    } else {
        let rest = without_race_event(events.drop_last(), id);
        if events.last().id == id {
            rest
        } else {
            rest.push(events.last())
        }
    }
}

/// A reply as the laws see it: the view of the value, or the kind of the
/// failure.
pub open spec fn outcome<T: View>(r: Result<T, ErrorMessage>) -> Result<T::V, ErrorKind> {
    match r {
        Ok(v) => Ok(v@),
        Err(e) => Err(e.kind),
    }
}

/// What CreateRaceEvent does: from state `s`, with the requested `name`,
/// reply `r` and state `t` after.
pub open spec fn create_race_event_step(
    s: StateView,
    name: Seq<char>,
    r: Result<RaceEventView, ErrorKind>,
    t: StateView,
) -> bool {
    match r {
        Ok(e) => {
            &&& name.len() > 0
            &&& e.name == name
            &&& e.race_event_type == RaceEventType::Local
            &&& t == StateView { race_events: s.race_events.push(e), ..s }
        },
        Err(k) => {
            &&& t == s
            &&& (k == ErrorKind::Validation <==> name.len() == 0)
            &&& (k == ErrorKind::Validation || k == ErrorKind::Storage)
        },
    }
}

/// What RemoveRaceEvent does: from state `s`, for race event `id`.
pub open spec fn remove_race_event_step(
    s: StateView,
    id: i64,
    r: Result<(), ErrorKind>,
    t: StateView,
) -> bool {
    match r {
        Ok(_) => {
            &&& has_race_event(s.race_events, id)
            &&& t == StateView { race_events: without_race_event(s.race_events, id), ..s }
        },
        Err(k) => {
            &&& t == s
            &&& (k == ErrorKind::NotFound <==> !has_race_event(s.race_events, id))
            &&& (k == ErrorKind::NotFound || k == ErrorKind::Storage)
        },
    }
}

/// What AddPilot does: from state `s`, for a pilot called `name` in race
/// event `event_id`.
pub open spec fn add_pilot_step(
    s: StateView,
    event_id: i64,
    name: Seq<char>,
    r: Result<PilotView, ErrorKind>,
    t: StateView,
) -> bool {
    match r {
        Ok(p) => {
            &&& has_race_event(s.race_events, event_id)
            &&& !has_pilot_named(s.pilots, name)
            &&& p.name == name
            &&& t == StateView { pilots: s.pilots.push(p), ..s }
        },
        Err(k) => {
            &&& t == s
            &&& (k == ErrorKind::NotFound <==> !has_race_event(s.race_events, event_id))
            &&& (k == ErrorKind::Conflict <==> has_race_event(s.race_events, event_id)
                && has_pilot_named(s.pilots, name))
            &&& (k == ErrorKind::NotFound || k == ErrorKind::Conflict || k == ErrorKind::Storage)
        },
    }
}

/// What AddRace does: from state `s`, for the race that `dto` describes.
pub open spec fn add_race_step(
    s: StateView,
    dto: NewRaceDto,
    r: Result<RaceView, ErrorKind>,
    t: StateView,
) -> bool {
    match r {
        Ok(race) => {
            &&& has_race_event(s.race_events, dto.race_event_id)
            &&& race_matches(race, dto)
            &&& t == StateView { upcoming_races: s.upcoming_races.push(race), ..s }
        },
        Err(k) => {
            &&& t == s
            &&& (k == ErrorKind::NotFound <==> !has_race_event(s.race_events, dto.race_event_id))
            &&& (k == ErrorKind::NotFound || k == ErrorKind::Storage)
        },
    }
}

/// What LoadRaceEvent replies, for race event `id` in state `s`.
pub open spec fn load_race_event_reply(
    s: StateView,
    id: i64,
    r: Result<RaceEventDetailsView, ErrorKind>,
) -> bool {
    match r {
        Ok(_) => has_race_event(s.race_events, id),
        Err(k) => {
            &&& (k == ErrorKind::NotFound <==> !has_race_event(s.race_events, id))
            &&& (k == ErrorKind::NotFound || k == ErrorKind::Storage)
        },
    }
}

/// How StartRace is answered, given whether the start command reached the
/// device link.
pub open spec fn start_race_reply(delivered: bool) -> Result<(), ErrorKind> {
    if delivered {
        Ok(())
    } else {
        Err(ErrorKind::Device)
    }
}

/// The failure for an unknown race event.
fn not_found(id: i64) -> (r: ErrorMessage)
    ensures
        r.kind == ErrorKind::NotFound,
{
    ErrorMessage::new(
        ErrorKind::NotFound,
        String::from_str("Race event ").concat(decimal(id).as_str()).concat(" does not exist"),
    )
}

/// The failure for a store that could not be used.
fn storage_failure(e: StoreError) -> (r: ErrorMessage)
    ensures
        r.kind == ErrorKind::Storage,
{
    ErrorMessage::new(ErrorKind::Storage, e.describe())
}

/// Answers StartRace once the start command was handed, or not, to the
/// device link.
pub fn start_race_outcome(delivered: bool) -> (r: Result<(), ErrorMessage>)
    ensures
        outcome(r) == start_race_reply(delivered),
{
    if delivered {
        Ok(())
    } else {
        Err(
            ErrorMessage::new(
                ErrorKind::Device,
                String::from_str("The timing device is not connected"),
            ),
        )
    }
}

impl StateView {
    /// The state's invariant: pilot names are unique.
    pub open spec fn wf(self) -> bool {
        names_unique(self.pilots)
    }
}

impl State {
    pub open spec fn wf(&self) -> bool {
        self@.wf()
    }

    /// The state at start-up: the race events read from the registry, and
    /// nothing else.
    pub fn init(race_events: Vec<RaceEvent>) -> (r: State)
        ensures
            r.wf(),
            r@.upcoming_races.len() == 0,
            r@.current_race is None,
            r@.pilots.len() == 0,
            r@.race_events == event_views(race_events@),
    {
        State { upcoming_races: Vec::new(), current_race: None, pilots: Vec::new(), race_events }
    }

    pub fn upcoming_races(&self) -> (r: &Vec<Race>)
        ensures
            race_views(r@) == self@.upcoming_races,
    {
        &self.upcoming_races
    }

    pub fn current_race(&self) -> (r: &Option<Race>)
        ensures
            match r {
                Some(race) => self@.current_race == Some(race@),
                None => self@.current_race is None,
            },
    {
        &self.current_race
    }

    pub fn pilots(&self) -> (r: &Vec<Pilot>)
        ensures
            pilot_views(r@) == self@.pilots,
    {
        &self.pilots
    }

    pub fn race_events(&self) -> (r: &Vec<RaceEvent>)
        ensures
            event_views(r@) == self@.race_events,
    {
        &self.race_events
    }

    /// Whether the state lists race event `id`.
    pub fn knows_race_event(&self, id: i64) -> (r: bool)
        ensures
            r == has_race_event(self@.race_events, id),
    {
        let ghost events = self@.race_events;
        let mut i: usize = 0;
        while i < self.race_events.len()
            invariant
                i <= self.race_events@.len(),
                events == event_views(self.race_events@),
                forall|j: int| 0 <= j < i ==> #[trigger] events[j].id != id,
            decreases self.race_events@.len() - i,
        {
            assert(events[i as int] == self.race_events@[i as int]@);
            if self.race_events[i].id == id {
                assert(events[i as int].id == id);
                return true;
            }
            i += 1;
        }
        false
    }

    /// Whether a pilot called `name` is in the state.
    pub fn has_pilot(&self, name: &String) -> (r: bool)
        ensures
            r == has_pilot_named(self@.pilots, name@),
    {
        let ghost pilots = self@.pilots;
        let mut i: usize = 0;
        while i < self.pilots.len()
            invariant
                i <= self.pilots@.len(),
                pilots == pilot_views(self.pilots@),
                forall|j: int| 0 <= j < i ==> #[trigger] pilots[j].name != name@,
            decreases self.pilots@.len() - i,
        {
            assert(pilots[i as int] == self.pilots@[i as int]@);
            if self.pilots[i].name == *name {
                assert(pilots[i as int].name == name@);
                return true;
            }
            i += 1;
        }
        false
    }

    /// Init: a copy of the whole state.
    pub fn snapshot(&self) -> (r: State)
        ensures
            r@ == self@,
    {
        let upcoming_races = self.upcoming_races.clone();
        let pilots = self.pilots.clone();
        let race_events = self.race_events.clone();
        let current_race = match &self.current_race {
            Some(race) => Some(race.clone()),
            None => None,
        };
        let r = State { upcoming_races, current_race, pilots, race_events };
        assert(race_views(r.upcoming_races@) =~= race_views(self.upcoming_races@));
        assert(pilot_views(r.pilots@) =~= pilot_views(self.pilots@));
        assert(event_views(r.race_events@) =~= event_views(self.race_events@));
        r
    }

    /// CreateRaceEvent: a race event needs a name; it is added to the
    /// registry, then to the state.
    pub fn create_race_event(&mut self, stores: &Stores, new_race_event_dto: NewRaceEventDto) -> (r:
        Result<RaceEvent, ErrorMessage>)
        requires
            old(self).wf(),
        ensures
            final(self).wf(),
            create_race_event_step(
                old(self)@,
                new_race_event_dto.name@,
                outcome(r),
                final(self)@,
            ),
    {
        if new_race_event_dto.name.as_str().is_empty() {
            return Err(
                ErrorMessage::new(
                    ErrorKind::Validation,
                    String::from_str("Missing 'name' property in RaceEvent"),
                ),
            );
        }
        let (before, offset) = clock_offset_micros();
        let created_at = timestamp_micros(before, offset);
        match stores.insert_race_event(
            new_race_event_dto.name,
            created_at,
            RaceEventType::Local,
        ) {
            Ok(event) => {
                let ghost before = self.race_events@;
                self.race_events.push(event.clone());
                assert(event_views(self.race_events@) =~= event_views(before).push(event@));
                Ok(event)
            },
            Err(e) => Err(storage_failure(e)),
        }
    }

    /// LoadRaceEvent: the pilots and races of a known race event, read from
    /// its isolated store.
    pub fn load_race_event(&self, stores: &Stores, race_event_id: i64) -> (r: Result<RaceEventDetailsDto, ErrorMessage>)
        ensures
            load_race_event_reply(self@, race_event_id, outcome(r)),
            r matches Ok(d) ==> exists|rows: Seq<(i64, String)>| pilot_views(d.pilots@)
                == #[trigger] pilots_of_row_seq(rows),
            r matches Ok(d) ==> exists|
                rows: Seq<(i64, String, String)>,
                heats: Seq<Seq<(i64, i64, String, i64)>>,
            |
                heats.len() == rows.len() && (forall|i: int|
                    0 <= i < rows.len() ==> race_row_ok(#[trigger] rows[i], heats[i]))
                    && race_views(d.races@) == #[trigger] races_of_rows(rows, heats),
    {
        if !self.knows_race_event(race_event_id) {
            return Err(not_found(race_event_id));
        }
        let db = match stores.open_race_event(race_event_id) {
            Ok(db) => db,
            Err(e) => return Err(storage_failure(e)),
        };
        let pilots = match db.find_pilots() {
            Ok(pilots) => pilots,
            Err(e) => return Err(storage_failure(e)),
        };
        let races = match db.find_races_with_heats() {
            Ok(races) => races,
            Err(e) => return Err(storage_failure(e)),
        };
        Ok(RaceEventDetailsDto { pilots, races })
    }

    /// RemoveRaceEvent: a known race event leaves the registry, then the
    /// state. Its isolated store's file is left to the caller to delete.
    pub fn remove_race_event(&mut self, stores: &Stores, race_event_id: i64) -> (r: Result<
        (),
        ErrorMessage,
    >)
        requires
            old(self).wf(),
        ensures
            final(self).wf(),
            remove_race_event_step(old(self)@, race_event_id, outcome(r), final(self)@),
    {
        if !self.knows_race_event(race_event_id) {
            return Err(not_found(race_event_id));
        }
        if let Err(e) = stores.registry.remove_race_event(race_event_id) {
            return Err(storage_failure(e));
        }
        let ghost events = self@.race_events;
        let mut kept: Vec<RaceEvent> = Vec::new();
        let mut i: usize = 0;
        while i < self.race_events.len()
            invariant
                i <= self.race_events@.len(),
                events == event_views(self.race_events@),
                event_views(kept@) == without_race_event(events.take(i as int), race_event_id),
            decreases self.race_events@.len() - i,
        {
            let ghost before = kept@;
            assert(events.take(i + 1).drop_last() =~= events.take(i as int));
            assert(events[i as int] == self.race_events@[i as int]@);
            if self.race_events[i].id != race_event_id {
                kept.push(self.race_events[i].clone());
                assert(event_views(kept@) =~= event_views(before).push(events[i as int]));
            }
            i += 1;
        }
        assert(events.take(i as int) =~= events);
        self.race_events = kept;
        Ok(())
    }

    /// AddPilot: the race event must be known and the name not taken; the
    /// pilot is stored in the race event's isolated store, then added to the
    /// state.
    pub fn add_pilot(&mut self, stores: &Stores, new_pilot_dto: NewPilotDto) -> (r: Result<Pilot, ErrorMessage>)
        requires
            old(self).wf(),
        ensures
            final(self).wf(),
            add_pilot_step(
                old(self)@,
                new_pilot_dto.race_event_id,
                new_pilot_dto.name@,
                outcome(r),
                final(self)@,
            ),
    {
        if !self.knows_race_event(new_pilot_dto.race_event_id) {
            return Err(not_found(new_pilot_dto.race_event_id));
        }
        if self.has_pilot(&new_pilot_dto.name) {
            return Err(
                ErrorMessage::new(
                    ErrorKind::Conflict,
                    String::from_str("Pilot with name '").concat(
                        new_pilot_dto.name.as_str(),
                    ).concat("' already exists"),
                ),
            );
        }
        let db = match stores.open_race_event(new_pilot_dto.race_event_id) {
            Ok(db) => db,
            Err(e) => return Err(storage_failure(e)),
        };
        match db.insert_pilot(new_pilot_dto.name) {
            Ok(pilot) => {
                let ghost before = self.pilots@;
                self.pilots.push(pilot.clone());
                assert(pilot_views(self.pilots@) =~= pilot_views(before).push(pilot@));
                Ok(pilot)
            },
            Err(e) => Err(storage_failure(e)),
        }
    }

    /// AddRace: the race event must be known; the race and its heats are
    /// stored in one transaction, then the race joins the upcoming races.
    pub fn add_race(&mut self, stores: &Stores, new_race_dto: NewRaceDto) -> (r: Result<Race, ErrorMessage>)
        requires
            old(self).wf(),
        ensures
            final(self).wf(),
            add_race_step(old(self)@, new_race_dto, outcome(r), final(self)@),
    {
        if !self.knows_race_event(new_race_dto.race_event_id) {
            return Err(not_found(new_race_dto.race_event_id));
        }
        let db = match stores.open_race_event(new_race_dto.race_event_id) {
            Ok(db) => db,
            Err(e) => return Err(storage_failure(e)),
        };
        match db.insert_race_with_heats(new_race_dto) {
            Ok(race) => {
                let ghost before = self.upcoming_races@;
                self.upcoming_races.push(race.clone());
                assert(race_views(self.upcoming_races@) =~= race_views(before).push(race@));
                Ok(race)
            },
            Err(e) => Err(storage_failure(e)),
        }
    }
}

} // verus!
