//! Which events are recorded, when, and under which label.

use std::collections::HashMap;
use vstd::prelude::*;

use crate::candidates::ZonedDate;
use crate::clock::{stamp_text, time_until, utc_now, Instant, Span, MAX_SECS};
use crate::text::{decimal_text, starts_with};
use crate::vote::{CollectingStatus, NewEvent};

verus! {

/// Where an event takes place.
#[derive(Clone, Copy, Debug, PartialEq, Eq, Structural)]
pub enum EventKind {
    Voice,
    Other,
}

/// How far an event has come.
#[derive(Clone, Copy, Debug, PartialEq, Eq, Structural)]
pub enum EventStatus {
    Scheduled,
    Active,
    Other,
}

/// An event of a guild.
#[derive(Clone, Debug, PartialEq, Eq)]
pub struct GuildEvent {
    pub id: u64,
    pub guild_id: u64,
    pub name: String,
    pub kind: EventKind,
    pub status: EventStatus,
    pub channel_id: Option<u64>,
    pub start_time: Instant,
    pub end_time: Option<Instant>,
}

/// The seconds that an event lasts whose end is not set.
pub const DEFAULT_EVENT_SECS: u32 = 7200;

/// How names of events of a group start.
pub open spec fn name_prefix(asg_name: Seq<char>) -> Seq<char> {
    asg_name + " 第"@
}

impl GuildEvent {
    /// Whether the times of the event exist.
    pub open spec fn valid(&self) -> bool {
        &&& self.start_time.in_range()
        &&& self.end_time matches Some(t) ==> t.in_range()
    }

    /// Whether the event is one of the group's, in a voice channel, and not
    /// over or called off.
    pub open spec fn is_of_group(&self, asg_name: Seq<char>) -> bool {
        &&& self.kind == EventKind::Voice
        &&& name_prefix(asg_name).is_prefix_of(self.name@)
        &&& self.status == EventStatus::Scheduled || self.status == EventStatus::Active
        &&& self.channel_id is Some
    }

    /// Whether the event is to be recorded: one of the group's whose end is not
    /// past.
    pub open spec fn recordable(&self, asg_name: Seq<char>, now: Instant) -> bool {
        &&& self.is_of_group(asg_name)
        &&& self.end_time matches Some(end) ==> now.at() < end.at()
    }

    /// Whether the end of the event exists, where it is asked for.
    pub open spec fn has_end(&self, asg_name: Seq<char>) -> bool {
        self.is_of_group(asg_name) && self.end_time is None ==> self.start_time.secs
            + DEFAULT_EVENT_SECS <= MAX_SECS
    }

    /// When the event ends: two hours after its start where nothing else is
    /// set.
    pub open spec fn end(&self) -> Instant {
        match self.end_time {
            Some(t) => t,
            None => self.start_time.later(DEFAULT_EVENT_SECS as int),
        }
    }

    /// When the recording starts: with the event, or now where it has begun.
    pub open spec fn record_start(&self, now: Instant) -> Instant {
        if now.at() < self.start_time.at() {
            self.start_time
        } else {
            now
        }
    }
}

/// Whether an event is to be recorded, by what the clock says.
pub fn is_recordable_event_at(event: &GuildEvent, asg_name: &str, now: Instant) -> (r: bool)
    requires
        event.valid(),
        now.in_range(),
    ensures
        r == event.recordable(asg_name@, now),
        r <==> event.kind == EventKind::Voice && (asg_name@ + " 第"@).is_prefix_of(event.name@) && (
        event.status == EventStatus::Scheduled || event.status == EventStatus::Active)
            && event.channel_id is Some && (event.end_time is None || now.secs
            < event.end_time->0.secs || (now.secs == event.end_time->0.secs && now.nanos
            < event.end_time->0.nanos)),
{
    let prefix = String::from_str(asg_name).concat(" 第");
    let of_group = event.kind == EventKind::Voice && starts_with(
        event.name.as_str(),
        prefix.as_str(),
    ) && (event.status == EventStatus::Scheduled || event.status == EventStatus::Active)
        && event.channel_id.is_some();
    let not_over = match event.end_time {
        Some(end) => now.is_before(end),
        None => true,
    };
    of_group && not_over
}

/// Whether an event is to be recorded.
pub fn is_recordable_event(event: &GuildEvent, asg_name: &str) -> (r: bool)
    requires
        event.valid(),
    ensures
        r ==> event.is_of_group(asg_name@),
        event.end_time is None ==> r == event.is_of_group(asg_name@),
        exists|now: Instant|
            now.in_range() && now.secs >= 0 && r == #[trigger] event.recordable(asg_name@, now),
{
    let now = utc_now();
    is_recordable_event_at(event, asg_name, now)
}

/// A recording of an event that is to be made.
#[derive(Debug)]
pub struct RecordingPlan {
    pub event_id: u64,
    pub guild_id: u64,
    pub voice_channel_id: u64,
    pub start: Instant,
    pub duration: Span,
    pub label: String,
}

/// The label of a recording of an event that starts at a second.
pub open spec fn event_label(event_id: u64, secs: int) -> Seq<char> {
    "event-"@ + crate::text::decimal(event_id as nat) + "-"@ + crate::clock::stamp(secs)
}

/// The label of a recording of an event.
fn event_label_text(event_id: u64, start: Instant) -> (r: String)
    requires
        start.in_range(),
    ensures
        r@ == event_label(event_id, start.secs as int),
{
    String::from_str("event-").concat(decimal_text(event_id).as_str()).concat("-").concat(
        stamp_text(start, 0).as_str(),
    )
}

/// What is recorded of an event, by what the clock says when it is asked
/// whether to record (`now`) and from when on (`start_now`).
pub open spec fn is_recording_of(
    r: Option<RecordingPlan>,
    event: &GuildEvent,
    asg_name: Seq<char>,
    now: Instant,
    start_now: Instant,
) -> bool {
    let start = event.record_start(start_now);
    if event.recordable(asg_name, now) && start.at() < event.end().at() {
        &&& r matches Some(plan)
        &&& plan.event_id == event.id
        &&& plan.guild_id == event.guild_id
        &&& event.channel_id == Some(plan.voice_channel_id)
        &&& plan.start == start
        &&& plan.duration.length() == event.end().at() - start.at()
        &&& plan.duration.nanos < 1000000000
        &&& plan.label@ == event_label(event.id, start.secs as int)
    } else {
        r is None
    }
}

/// What is recorded of an event, by what the clock says.
pub fn plan_event_recording_at(
    event: &GuildEvent,
    asg_name: &str,
    now: Instant,
    start_now: Instant,
) -> (r: Option<RecordingPlan>)
    requires
        event.valid(),
        event.has_end(asg_name@),
        now.in_range(),
        start_now.in_range(),
    ensures
        is_recording_of(r, event, asg_name@, now, start_now),
{
    if !is_recordable_event_at(event, asg_name, now) {
        return None;
    }
    let end = match event.end_time {
        Some(t) => t,
        None => event.start_time.plus_secs(DEFAULT_EVENT_SECS),
    };
    let start = if start_now.is_before(event.start_time) {
        event.start_time
    } else {
        start_now
    };
    if !start.is_before(end) {
        return None;
    }
    let label = event_label_text(event.id, start);
    let voice_channel_id: u64 = match event.channel_id {
        Some(c) => c,
        None => {
            return None;
        },
    };
    match time_until(end, start) {
        Some(duration) => Some(
            RecordingPlan {
                event_id: event.id,
                guild_id: event.guild_id,
                voice_channel_id,
                start,
                duration,
                label,
            },
        ),
        None => None,
    }
}

/// What is recorded of an event that is learnt of now.
pub fn plan_event_recording(event: &GuildEvent, asg_name: &str) -> (r: Option<RecordingPlan>)
    requires
        event.valid(),
        event.has_end(asg_name@),
    ensures
        r is Some ==> event.is_of_group(asg_name@),
        exists|now: Instant, start_now: Instant|
            now.in_range() && now.secs >= 0 && start_now.in_range() && start_now.secs >= 0
                && #[trigger] is_recording_of(
                r,
                event,
                asg_name@,
                now,
                start_now,
            ),
{
    let now = utc_now();
    let start_now = utc_now();
    plan_event_recording_at(event, asg_name, now, start_now)
}

/// A recording of an event ends with the event. Of an event that is to come it
/// is the whole event, of one that has begun what remains of it.
pub proof fn recordings_end_with_the_event(
    plan: RecordingPlan,
    event: GuildEvent,
    asg_name: Seq<char>,
    now: Instant,
    start_now: Instant,
)
    requires
        is_recording_of(Some(plan), &event, asg_name, now, start_now),
    ensures
        plan.start.at() + plan.duration.length() == event.end().at(),
        plan.duration.length() > 0,
        start_now.at() < event.start_time.at() ==> plan.start == event.start_time
            && plan.duration.length() == event.end().at() - event.start_time.at(),
        event.start_time.at() <= start_now.at() ==> plan.start == start_now
            && plan.duration.length() == event.end().at() - start_now.at(),
{
}

/// Every voice event of the group that is to come or under way is recorded for
/// as long as the clock is before its end, whether or not an end is set: where
/// none is set it comes two hours after the start. The recording is made in the
/// channel of the event, from its start or from now on, whichever is later, up to
/// its end. It is labelled with the event and the second at which it starts.
pub proof fn events_of_the_group_are_recorded_until_they_end(
    r: Option<RecordingPlan>,
    event: GuildEvent,
    asg_name: Seq<char>,
    now: Instant,
    start_now: Instant,
)
    requires
        event.kind == EventKind::Voice,
        (asg_name + " 第"@).is_prefix_of(event.name@),
        event.status == EventStatus::Scheduled || event.status == EventStatus::Active,
        event.channel_id is Some,
        event.start_time.secs + 7200 <= MAX_SECS,
        is_recording_of(r, &event, asg_name, now, start_now),
    ensures
        ({
            let start = event.start_time.secs * 1000000000 + event.start_time.nanos;
            let end = match event.end_time {
                Some(t) => t.secs * 1000000000 + t.nanos,
                None => (event.start_time.secs + 7200) * 1000000000 + event.start_time.nanos,
            };
            let asked = now.secs * 1000000000 + now.nanos;
            let begun = start_now.secs * 1000000000 + start_now.nanos;
            &&& asked < end && begun < end && start < end ==> r is Some
            &&& begun >= end || start >= end ==> r is None
            &&& event.end_time is Some && asked >= end ==> r is None
            &&& r matches Some(plan) ==> {
                &&& plan.event_id == event.id
                &&& plan.guild_id == event.guild_id
                &&& plan.voice_channel_id == event.channel_id->0
                &&& begun < start ==> plan.start == event.start_time
                &&& begun >= start ==> plan.start == start_now
                &&& plan.start.secs * 1000000000 + plan.start.nanos + plan.duration.secs
                    * 1000000000 + plan.duration.nanos == end
                &&& plan.label@ == "event-"@ + crate::text::decimal(event.id as nat) + "-"@
                    + crate::clock::stamp(plan.start.secs as int)
            }
        }),
{
}

/// Nothing is recorded of events elsewhere than in a voice channel, of events of
/// other names, and of events that are over or called off.
pub proof fn other_events_are_not_recorded(
    r: Option<RecordingPlan>,
    event: GuildEvent,
    asg_name: Seq<char>,
    now: Instant,
    start_now: Instant,
)
    requires
        is_recording_of(r, &event, asg_name, now, start_now),
    ensures
        event.kind != EventKind::Voice ==> r is None,
        !(asg_name + " 第"@).is_prefix_of(event.name@) ==> r is None,
        event.status == EventStatus::Other ==> r is None,
        event.channel_id is None ==> r is None,
{
}

/// An event that a vote decided on is one of the group's by its name.
pub proof fn decided_events_are_of_the_group(asg_name: Seq<char>, event_number: int)
    ensures
        name_prefix(asg_name).is_prefix_of(crate::vote::event_name(asg_name, event_number)),
{
    let prefix = name_prefix(asg_name);
    let name = crate::vote::event_name(asg_name, event_number);
    assert(name.subrange(0, prefix.len() as int) =~= prefix);
}

/// Whether an event of a guild is one that was created as a vote decided, and
/// is not over or called off.
pub open spec fn is_created_from(event: &GuildEvent, new: &NewEvent) -> bool {
    &&& event.name@ == new.name@
    &&& event.kind == EventKind::Voice
    &&& event.status == EventStatus::Scheduled || event.status == EventStatus::Active
    &&& event.channel_id == Some(new.voice_channel_id)
    &&& event.start_time == new.start_time
    &&& event.end_time == Some(new.end_time)
}

/// An event that a vote decided on is recorded until it is over, in the voice
/// channel that the vote was opened for: up to the second of the hours that the
/// vote was opened for, where that comes later than the first. Before the first
/// hour the recording is of the whole event, and from then on of what remains.
pub proof fn decided_events_are_recorded(
    r: Option<RecordingPlan>,
    event: GuildEvent,
    new: NewEvent,
    status: CollectingStatus,
    day: ZonedDate,
    asg_name: Seq<char>,
    now: Instant,
    start_now: Instant,
)
    requires
        new.is_decided_by(asg_name, &status, day),
        new.start_time.at() < new.end_time.at(),
        is_created_from(&event, &new),
        now.at() < new.end_time.at(),
        start_now.at() < new.end_time.at(),
        is_recording_of(r, &event, asg_name, now, start_now),
    ensures
        r matches Some(plan) && {
            &&& plan.voice_channel_id == status.voice_channel_id
            &&& plan.guild_id == event.guild_id
            &&& plan.start.at() + plan.duration.length() == new.end_time.at()
            &&& crate::zone::is_local_hour(
                status.timezone@,
                new.end_time,
                day.date,
                status.time_range.1 as int,
            )
            &&& start_now.at() < new.start_time.at() ==> plan.start == new.start_time
                && crate::zone::is_local_hour(
                status.timezone@,
                plan.start,
                day.date,
                status.time_range.0 as int,
            )
            &&& new.start_time.at() <= start_now.at() ==> plan.start == start_now
        },
{
    decided_events_are_of_the_group(asg_name, status.event_number as int);
}

/// The recordings that are waiting or running, by the event that they are of.
pub struct RecordingTable<H> {
    handles: HashMap<u64, H>,
}

/// The recordings with the one that was started for an event, where one was.
pub open spec fn with_started<H>(m: Map<u64, H>, event_id: u64, started: Option<H>) -> Map<u64, H> {
    match started {
        Some(h) => m.insert(event_id, h),
        None => m,
    }
}

impl<H> RecordingTable<H> {
    /// The recordings, by the event that they are of.
    pub closed spec fn view(&self) -> Map<u64, H> {
        self.handles@
    }

    /// No recordings.
    pub fn new() -> (r: RecordingTable<H>)
        ensures
            r@ == Map::<u64, H>::empty(),
    {
        RecordingTable { handles: HashMap::new() }
    }

    /// Takes out the recording of an event, where there is one.
    pub fn remove(&mut self, event_id: u64) -> (r: Option<H>)
        ensures
            final(self)@ == old(self)@.remove(event_id),
            r is Some <==> old(self)@.contains_key(event_id),
            r matches Some(h) ==> h == old(self)@[event_id],
    {
        broadcast use vstd::std_specs::hash::group_hash_axioms;

        self.handles.remove(&event_id)
    }

    /// Adds the recording of an event, and takes out the one that was there,
    /// where there was one.
    pub fn insert(&mut self, event_id: u64, handle: H) -> (r: Option<H>)
        ensures
            final(self)@ == old(self)@.insert(event_id, handle),
            r is Some <==> old(self)@.contains_key(event_id),
            r matches Some(h) ==> h == old(self)@[event_id],
    {
        broadcast use vstd::std_specs::hash::group_hash_axioms;

        self.handles.insert(event_id, handle)
    }

    /// Adds the recording of an event, where one was started.
    pub fn insert_started(&mut self, event_id: u64, started: Option<H>)
        ensures
            final(self)@ == with_started(old(self)@, event_id, started),
    {
        if let Some(handle) = started {
            let _ = self.insert(event_id, handle);
        }
    }
}

/// An event is looked at anew by taking out its recording and adding the one
/// that was started, where one was. That leaves the recordings of other events
/// as they were, and of the event the one that was started, or none.
pub proof fn syncing_concerns_one_event<H>(
    m: Map<u64, H>,
    event_id: u64,
    started: Option<H>,
    other: u64,
)
    requires
        other != event_id,
    ensures
        ({
            let after = with_started(m.remove(event_id), event_id, started);
            &&& after.contains_key(other) == m.contains_key(other)
            &&& m.contains_key(other) ==> after[other] == m[other]
            &&& after.contains_key(event_id) == started is Some
            &&& started matches Some(h) ==> after[event_id] == h
        }),
{
}

} // verus!
