//! Entities of a race event and the values exchanged with the state actor.

use vstd::prelude::*;

verus! {

/// A pilot, as stored in a race event's own store.
#[derive(Debug)]
pub struct Pilot {
    pub id: i64,
    pub name: String,
}

/// The mathematical value of a [`Pilot`].
pub struct PilotView {
    pub id: i64,
    pub name: Seq<char>,
}

impl View for Pilot {
    type V = PilotView;

    open spec fn view(&self) -> PilotView {
        PilotView { id: self.id, name: self.name@ }
    }
}

impl Pilot {
    pub fn new(id: i64, name: String) -> (r: Pilot)
        ensures
            r.id == id,
            r.name == name,
    {
        Pilot { id, name }
    }
}

impl Clone for Pilot {
    fn clone(&self) -> (r: Self)
        ensures
            r == *self,
    {
        Pilot { id: self.id, name: self.name.clone() }
    }
}

/// Request to add a pilot to a race event.
#[derive(Debug)]
pub struct NewPilotDto {
    pub race_event_id: i64,
    pub name: String,
}

/// Where a race stands.
#[derive(Debug, Clone, Copy, PartialEq, Eq, Structural)]
pub enum RaceStatus {
    New,
    InProgress,
    Interrupted,
    Finished,
}

/// The textual tag under which a race status is stored.
pub open spec fn status_tag(s: RaceStatus) -> Seq<char> {
    match s {
        RaceStatus::New => "New"@,
        RaceStatus::InProgress => "InProgress"@,
        RaceStatus::Interrupted => "Interrupted"@,
        RaceStatus::Finished => "Finished"@,
    }
}

/// The race status that a stored tag names, if any.
pub open spec fn status_of_tag(t: Seq<char>) -> Option<RaceStatus> {
    if t == "New"@ {
        Some(RaceStatus::New)
    } else if t == "InProgress"@ {
        Some(RaceStatus::InProgress)
    } else if t == "Interrupted"@ {
        Some(RaceStatus::Interrupted)
    } else if t == "Finished"@ {
        Some(RaceStatus::Finished)
    } else {
        None
    }
}

/// Whether two strings hold the same characters.
pub fn same_text(a: &str, b: &str) -> (r: bool)
    ensures
        r == (a@ == b@),
{
    String::from_str(a) == String::from_str(b)
}

impl RaceStatus {
    /// The tag under which this status is stored.
    pub fn tag(&self) -> (r: &'static str)
        ensures
            r@ == status_tag(*self),
    {
        match self {
            RaceStatus::New => "New",
            RaceStatus::InProgress => "InProgress",
            RaceStatus::Interrupted => "Interrupted",
            RaceStatus::Finished => "Finished",
        }
    }

    /// Reads a stored tag back; an unknown tag gives `None`.
    pub fn from_tag(t: &str) -> (r: Option<RaceStatus>)
        ensures
            r == status_of_tag(t@),
    {
        if same_text(t, "New") {
            Some(RaceStatus::New)
        } else if same_text(t, "InProgress") {
            Some(RaceStatus::InProgress)
        } else if same_text(t, "Interrupted") {
            Some(RaceStatus::Interrupted)
        } else if same_text(t, "Finished") {
            Some(RaceStatus::Finished)
        } else {
            None
        }
    }
}

/// A race status is stored losslessly: its tag reads back as that status,
/// and a tag that reads back as a status is that status's tag.
pub proof fn status_tag_round_trip(s: RaceStatus, t: Seq<char>)
    ensures
        status_of_tag(status_tag(s)) == Some(s),
        status_of_tag(t) matches Some(u) ==> status_tag(u) == t,
{
    reveal_strlit("New");
    reveal_strlit("InProgress");
    reveal_strlit("Interrupted");
    reveal_strlit("Finished");
    assert("New"@.len() == 3 && "InProgress"@.len() == 10);
    assert("Interrupted"@.len() == 11 && "Finished"@.len() == 8);
}

/// One timed segment of a race, flown by one pilot on one channel.
#[derive(Debug)]
pub struct Heat {
    pub id: i64,
    pub no: u8,
    pub channel: String,
    pub pilot_id: i64,
}

/// The mathematical value of a [`Heat`].
pub struct HeatView {
    pub id: i64,
    pub no: u8,
    pub channel: Seq<char>,
    pub pilot_id: i64,
}

impl View for Heat {
    type V = HeatView;

    open spec fn view(&self) -> HeatView {
        HeatView { id: self.id, no: self.no, channel: self.channel@, pilot_id: self.pilot_id }
    }
}

impl Heat {
    pub fn new(id: i64, no: u8, channel: String, pilot_id: i64) -> (r: Heat)
        ensures
            r.id == id,
            r.no == no,
            r.channel == channel,
            r.pilot_id == pilot_id,
    {
        Heat { id, no, channel, pilot_id }
    }
}

impl Clone for Heat {
    fn clone(&self) -> (r: Self)
        ensures
            r == *self,
    {
        Heat { id: self.id, no: self.no, channel: self.channel.clone(), pilot_id: self.pilot_id }
    }
}

/// The views of a sequence of heats.
pub open spec fn heat_views(hs: Seq<Heat>) -> Seq<HeatView> {
    hs.map_values(|h: Heat| h@)
}

/// A race and its heats, in the order in which they were stored.
#[derive(Debug)]
pub struct Race {
    pub id: i64,
    pub name: String,
    pub status: RaceStatus,
    pub heats: Vec<Heat>,
}

/// The mathematical value of a [`Race`].
pub struct RaceView {
    pub id: i64,
    pub name: Seq<char>,
    pub status: RaceStatus,
    pub heats: Seq<HeatView>,
}

impl View for Race {
    type V = RaceView;

    open spec fn view(&self) -> RaceView {
        RaceView {
            id: self.id,
            name: self.name@,
            status: self.status,
            heats: heat_views(self.heats@),
        }
    }
}

impl Race {
    pub fn new(id: i64, name: String, status: RaceStatus, heats: Vec<Heat>) -> (r: Race)
        ensures
            r.id == id,
            r.name == name,
            r.status == status,
            r.heats == heats,
    {
        Race { id, name, status, heats }
    }
}

impl Clone for Race {
    fn clone(&self) -> (r: Self)
        ensures
            r@ == self@,
    {
        let heats = self.heats.clone();
        assert(heats@ =~= self.heats@);
        Race { id: self.id, name: self.name.clone(), status: self.status, heats }
    }
}

/// One heat of a race that is about to be created.
#[derive(Debug)]
pub struct NewHeatDto {
    pub no: u8,
    pub pilot_id: i64,
    pub channel: String,
}

/// Request to create a race, with its heats, in a race event.
#[derive(Debug)]
pub struct NewRaceDto {
    pub name: String,
    pub heats: Vec<NewHeatDto>,
    pub race_event_id: i64,
}

/// Whether a stored heat carries what its descriptor asked for.
pub open spec fn heat_matches(h: HeatView, d: NewHeatDto) -> bool {
    h.no == d.no && h.channel == d.channel@ && h.pilot_id == d.pilot_id
}

/// Whether a stored race is the one that a request described: same name,
/// status `New`, and one heat per descriptor, in order.
pub open spec fn race_matches(r: RaceView, dto: NewRaceDto) -> bool {
    &&& r.name == dto.name@
    &&& r.status == RaceStatus::New
    &&& r.heats.len() == dto.heats@.len()
    &&& forall|i: int| 0 <= i < r.heats.len() ==> heat_matches(#[trigger] r.heats[i], dto.heats@[i])
}

/// Where a race event's data lives.
#[derive(Debug, Clone, Copy, PartialEq, Eq, Structural)]
pub enum RaceEventType {
    Local,
    Cloud,
}

/// The textual tag under which a race event type is stored.
pub open spec fn event_type_tag(t: RaceEventType) -> Seq<char> {
    match t {
        RaceEventType::Local => "Local"@,
        RaceEventType::Cloud => "Cloud"@,
    }
}

/// The race event type that a stored tag names, if any.
pub open spec fn event_type_of_tag(t: Seq<char>) -> Option<RaceEventType> {
    if t == "Local"@ {
        Some(RaceEventType::Local)
    } else if t == "Cloud"@ {
        Some(RaceEventType::Cloud)
    } else {
        None
    }
}

impl RaceEventType {
    /// The tag under which this type is stored.
    pub fn tag(&self) -> (r: &'static str)
        ensures
            r@ == event_type_tag(*self),
    {
        match self {
            RaceEventType::Local => "Local",
            RaceEventType::Cloud => "Cloud",
        }
    }

    /// Reads a stored tag back; an unknown tag gives `None`.
    pub fn from_tag(t: &str) -> (r: Option<RaceEventType>)
        ensures
            r == event_type_of_tag(t@),
    {
        if same_text(t, "Local") {
            Some(RaceEventType::Local)
        } else if same_text(t, "Cloud") {
            Some(RaceEventType::Cloud)
        } else {
            None
        }
    }
}

/// A race event type is stored losslessly: its tag reads back as that type,
/// and a tag that reads back as a type is that type's tag.
pub proof fn event_type_tag_round_trip(e: RaceEventType, t: Seq<char>)
    ensures
        event_type_of_tag(event_type_tag(e)) == Some(e),
        event_type_of_tag(t) matches Some(u) ==> event_type_tag(u) == t,
{
    reveal_strlit("Local");
    reveal_strlit("Cloud");
    assert("Local"@[0] != "Cloud"@[0]);
}

/// A competition session. `created_at` counts microseconds since the Unix
/// epoch, in UTC.
#[derive(Debug)]
pub struct RaceEvent {
    pub id: i64,
    pub name: String,
    pub race_event_type: RaceEventType,
    pub created_at: i64,
}

/// The mathematical value of a [`RaceEvent`].
pub struct RaceEventView {
    pub id: i64,
    pub name: Seq<char>,
    pub race_event_type: RaceEventType,
    pub created_at: i64,
}

impl View for RaceEvent {
    type V = RaceEventView;

    open spec fn view(&self) -> RaceEventView {
        RaceEventView {
            id: self.id,
            name: self.name@,
            race_event_type: self.race_event_type,
            created_at: self.created_at,
        }
    }
}

impl RaceEvent {
    pub fn new(id: i64, race_event_type: RaceEventType, created_at: i64, name: String) -> (r:
        RaceEvent)
        ensures
            r.id == id,
            r.name == name,
            r.race_event_type == race_event_type,
            r.created_at == created_at,
    {
        RaceEvent { id, name, race_event_type, created_at }
    }
}

impl Clone for RaceEvent {
    fn clone(&self) -> (r: Self)
        ensures
            r == *self,
    {
        RaceEvent {
            id: self.id,
            name: self.name.clone(),
            race_event_type: self.race_event_type,
            created_at: self.created_at,
        }
    }
}

/// Request to create a race event.
#[derive(Debug)]
pub struct NewRaceEventDto {
    pub name: String,
}

/// What a race event holds: its pilots and its races with their heats.
#[derive(Debug)]
pub struct RaceEventDetailsDto {
    pub pilots: Vec<Pilot>,
    pub races: Vec<Race>,
}

/// The mathematical value of a [`RaceEventDetailsDto`].
pub struct RaceEventDetailsView {
    pub pilots: Seq<PilotView>,
    pub races: Seq<RaceView>,
}

impl View for RaceEventDetailsDto {
    type V = RaceEventDetailsView;

    open spec fn view(&self) -> RaceEventDetailsView {
        RaceEventDetailsView { pilots: pilot_views(self.pilots@), races: race_views(self.races@) }
    }
}

/// The views of a sequence of pilots.
pub open spec fn pilot_views(ps: Seq<Pilot>) -> Seq<PilotView> {
    ps.map_values(|p: Pilot| p@)
}

/// The views of a sequence of races.
pub open spec fn race_views(rs: Seq<Race>) -> Seq<RaceView> {
    rs.map_values(|r: Race| r@)
}

/// The views of a sequence of race events.
pub open spec fn event_views(es: Seq<RaceEvent>) -> Seq<RaceEventView> {
    es.map_values(|e: RaceEvent| e@)
}

/// The kinds of failure reported to a caller of the state actor.
#[derive(Debug, Clone, Copy, PartialEq, Eq, Structural)]
pub enum ErrorKind {
    /// A required field is empty or missing.
    Validation,
    /// A pilot of that name exists already.
    Conflict,
    /// The request names an unknown id.
    NotFound,
    /// The store could not be opened, read or written.
    Storage,
    /// The timing device could not be reached.
    Device,
}

/// A failure, as handed back to a caller.
#[derive(Debug)]
pub struct ErrorMessage {
    pub kind: ErrorKind,
    pub message: String,
}

impl ErrorMessage {
    pub fn new(kind: ErrorKind, message: String) -> (r: ErrorMessage)
        ensures
            r.kind == kind,
            r.message == message,
    {
        ErrorMessage { kind, message }
    }
}

} // verus!
