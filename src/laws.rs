//! Properties of the state actor that hold across several requests, proved
//! from the handlers' contracts.

use vstd::prelude::*;
use crate::actor::{
    StateView, add_pilot_step, add_race_step, create_race_event_step, has_pilot_named,
    has_race_event, load_race_event_reply, remove_race_event_step, start_race_reply,
    without_race_event,
};
use crate::device::{PortDescriptor, usb_port_names};
use crate::model::{ErrorKind, NewRaceDto, PilotView, RaceEventDetailsView, RaceView, RaceEventView};

verus! {

/// How many pilots of the sequence are called `name`.
pub open spec fn count_named(pilots: Seq<PilotView>, name: Seq<char>) -> nat
    decreases pilots.len(),
{
    if pilots.len() == 0 {
        0
    } else {
        count_named(pilots.drop_last(), name) + if pilots.last().name == name {
            1nat
        } else {
            0nat
        }
    }
}

/// How many of the replies are successes.
pub open spec fn ok_count(replies: Seq<Result<PilotView, ErrorKind>>) -> nat
    decreases replies.len(),
{
    if replies.len() == 0 {
        0
    } else {
        ok_count(replies.drop_last()) + if replies.last() is Ok {
            1nat
        } else {
            0nat
        }
    }
}

proof fn lemma_count_named_zero(pilots: Seq<PilotView>, name: Seq<char>)
    ensures
        count_named(pilots, name) == 0 <==> !has_pilot_named(pilots, name),
    decreases pilots.len(),
{
    if pilots.len() > 0 {
        let rest = pilots.drop_last();
        lemma_count_named_zero(rest, name);
        if has_pilot_named(rest, name) {
            let i = choose|i: int| 0 <= i < rest.len() && #[trigger] rest[i].name == name;
            assert(pilots[i].name == name);
        }
        if has_pilot_named(pilots, name) && pilots.last().name != name {
            let i = choose|i: int| 0 <= i < pilots.len() && #[trigger] pilots[i].name == name;
            assert(rest[i].name == name);
        }
        if pilots.last().name == name {
            assert(pilots[pilots.len() - 1].name == name);
        }
    }
}

proof fn lemma_count_named_push(pilots: Seq<PilotView>, p: PilotView, name: Seq<char>)
    ensures
        count_named(pilots.push(p), name) == count_named(pilots, name) + if p.name == name {
            1nat
        } else {
            0nat
        },
{
    assert(pilots.push(p).drop_last() =~= pilots);
}

proof fn lemma_ok_count_take(replies: Seq<Result<PilotView, ErrorKind>>, k: int)
    requires
        0 <= k < replies.len(),
    ensures
        ok_count(replies.take(k + 1)) == ok_count(replies.take(k)) + if replies[k] is Ok {
            1nat
        } else {
            0nat
        },
{
    assert(replies.take(k + 1).drop_last() =~= replies.take(k));
}

/// The first `k` of a run of AddPilot requests for one name.
proof fn lemma_add_pilot_run(
    states: Seq<StateView>,
    replies: Seq<Result<PilotView, ErrorKind>>,
    event_id: i64,
    name: Seq<char>,
    k: int,
)
    requires
        states.len() == replies.len() + 1,
        0 <= k <= replies.len(),
        has_race_event(states[0].race_events, event_id),
        !has_pilot_named(states[0].pilots, name),
        forall|i: int|
            0 <= i < replies.len() ==> add_pilot_step(
                #[trigger] states[i],
                event_id,
                name,
                replies[i],
                states[i + 1],
            ),
    ensures
        states[k].race_events == states[0].race_events,
        ok_count(replies.take(k)) <= 1,
        count_named(states[k].pilots, name) == ok_count(replies.take(k)),
        ok_count(replies.take(k)) == 0 ==> forall|i: int| 0 <= i < k ==> replies[i] is Err,
        forall|i: int, j: int|
            0 <= i < j < k && replies[i] is Ok ==> replies[j] == Err::<PilotView, ErrorKind>(
                ErrorKind::Conflict,
            ),
        k >= 1 && replies[0] != Err::<PilotView, ErrorKind>(ErrorKind::Storage) ==> replies[0] is Ok,
    decreases k,
{
    if k == 0 {
        assert(replies.take(0) =~= Seq::<Result<PilotView, ErrorKind>>::empty());
        lemma_count_named_zero(states[0].pilots, name);
    } else {
        let j = k - 1;
        lemma_add_pilot_run(states, replies, event_id, name, j);
        lemma_ok_count_take(replies, j);
        assert(add_pilot_step(states[j], event_id, name, replies[j], states[j + 1]));
        lemma_count_named_zero(states[j].pilots, name);
        match replies[j] {
            Ok(p) => {
                lemma_count_named_push(states[j].pilots, p, name);
            },
            Err(_) => {},
        }
    }
}

/// However many AddPilot requests for one name reach the actor, it applies
/// them one after another; starting from a state that knows the race event
/// and has no pilot of that name: at most one succeeds, every request after
/// a success fails with a conflict, the state ends with exactly as many
/// pilots of that name as there were successes, and when the store never
/// fails, the first request is the one that succeeds.
pub proof fn add_pilot_serialized(
    states: Seq<StateView>,
    replies: Seq<Result<PilotView, ErrorKind>>,
    event_id: i64,
    name: Seq<char>,
)
    requires
        states.len() == replies.len() + 1,
        has_race_event(states[0].race_events, event_id),
        !has_pilot_named(states[0].pilots, name),
        forall|i: int|
            0 <= i < replies.len() ==> add_pilot_step(
                #[trigger] states[i],
                event_id,
                name,
                replies[i],
                states[i + 1],
            ),
    ensures
        ok_count(replies) <= 1,
        count_named(states.last().pilots, name) == ok_count(replies),
        forall|i: int, j: int|
            0 <= i < j < replies.len() && replies[i] is Ok ==> replies[j] == Err::<
                PilotView,
                ErrorKind,
            >(ErrorKind::Conflict),
        replies.len() >= 1 && (forall|i: int|
            0 <= i < replies.len() ==> #[trigger] replies[i] != Err::<PilotView, ErrorKind>(
                ErrorKind::Storage,
            )) ==> ok_count(replies) == 1 && replies[0] is Ok,
{
    let n = replies.len() as int;
    lemma_add_pilot_run(states, replies, event_id, name, n);
    assert(replies.take(n) =~= replies);
    if n >= 1 && (forall|i: int|
        0 <= i < replies.len() ==> #[trigger] replies[i] != Err::<PilotView, ErrorKind>(
            ErrorKind::Storage,
        )) {
        assert(replies[0] != Err::<PilotView, ErrorKind>(ErrorKind::Storage));
        assert(replies[0] is Ok);
        if ok_count(replies) == 0 {
            assert(replies[0] is Err);
        }
    }
}

/// An AddPilot that succeeded is seen by every later AddPilot of the same
/// name: the later one fails with a conflict and changes nothing.
pub proof fn added_pilot_is_seen(
    s: StateView,
    event_id: i64,
    name: Seq<char>,
    p: PilotView,
    t: StateView,
    r: Result<PilotView, ErrorKind>,
    u: StateView,
)
    requires
        add_pilot_step(s, event_id, name, Ok(p), t),
        add_pilot_step(t, event_id, name, r, u),
    ensures
        r == Err::<PilotView, ErrorKind>(ErrorKind::Conflict),
        u == t,
{
    assert(t.pilots[t.pilots.len() - 1].name == name);
}

/// A race event that CreateRaceEvent added is found by a later
/// RemoveRaceEvent of its id, and by a later LoadRaceEvent.
pub proof fn created_race_event_is_seen(
    s: StateView,
    name: Seq<char>,
    e: RaceEventView,
    t: StateView,
    r: Result<(), ErrorKind>,
    u: StateView,
    d: Result<RaceEventDetailsView, ErrorKind>,
)
    requires
        create_race_event_step(s, name, Ok(e), t),
        remove_race_event_step(t, e.id, r, u),
        load_race_event_reply(t, e.id, d),
    ensures
        r != Err::<(), ErrorKind>(ErrorKind::NotFound),
        d != Err::<RaceEventDetailsView, ErrorKind>(ErrorKind::NotFound),
{
    assert(t.race_events[t.race_events.len() - 1].id == e.id);
}

proof fn lemma_without_race_event(events: Seq<RaceEventView>, id: i64)
    ensures
        !has_race_event(without_race_event(events, id), id),
        forall|i: int|
            0 <= i < without_race_event(events, id).len() ==> #[trigger] without_race_event(
                events,
                id,
            )[i].id != id,
    decreases events.len(),
{
    if events.len() > 0 {
        lemma_without_race_event(events.drop_last(), id);
    }
}

/// After a successful RemoveRaceEvent, the state no longer lists the race
/// event, and a LoadRaceEvent of it fails with NotFound.
pub proof fn removed_race_event_is_gone(
    s: StateView,
    id: i64,
    t: StateView,
    d: Result<RaceEventDetailsView, ErrorKind>,
)
    requires
        remove_race_event_step(s, id, Ok(()), t),
        load_race_event_reply(t, id, d),
    ensures
        !has_race_event(t.race_events, id),
        d == Err::<RaceEventDetailsView, ErrorKind>(ErrorKind::NotFound),
{
    lemma_without_race_event(s.race_events, id);
}

/// CreateRaceEvent with an empty name fails with a validation error and
/// leaves the state as it was.
pub proof fn empty_name_is_rejected(
    s: StateView,
    r: Result<RaceEventView, ErrorKind>,
    t: StateView,
)
    requires
        create_race_event_step(s, Seq::empty(), r, t),
    ensures
        r == Err::<RaceEventView, ErrorKind>(ErrorKind::Validation),
        t == s,
{
}

/// A successful AddRace answers with one heat per descriptor asked for, and
/// adds exactly that race to the upcoming races; a failed one changes
/// nothing.
pub proof fn added_race_is_whole(
    s: StateView,
    dto: NewRaceDto,
    r: Result<RaceView, ErrorKind>,
    t: StateView,
)
    requires
        add_race_step(s, dto, r, t),
    ensures
        r matches Ok(race) ==> race.heats.len() == dto.heats@.len() && t.upcoming_races
            == s.upcoming_races.push(race),
        r is Err ==> t == s,
{
}

proof fn lemma_no_usb_port(ports: Seq<PortDescriptor>)
    requires
        forall|i: int| 0 <= i < ports.len() ==> !(#[trigger] ports[i]).usb,
    ensures
        usb_port_names(ports).len() == 0,
    decreases ports.len(),
{
    if ports.len() > 0 {
        assert(!ports[ports.len() - 1].usb);
        lemma_no_usb_port(ports.drop_last());
    }
}

/// With no USB port enumerated, no timing device is found, and StartRace,
/// whose command then reaches no device, fails with a device error; it
/// leaves the state alone, as it takes none.
pub proof fn start_race_without_device(ports: Seq<PortDescriptor>)
    requires
        forall|i: int| 0 <= i < ports.len() ==> !(#[trigger] ports[i]).usb,
    ensures
        usb_port_names(ports).len() == 0,
        start_race_reply(false) == Err::<(), ErrorKind>(ErrorKind::Device),
{
    lemma_no_usb_port(ports);
}

} // verus!
