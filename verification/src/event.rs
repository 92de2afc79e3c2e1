//! The canonical event model.
//!
//! An [`Event`] is one timestamped user action: the timestamp counts
//! milliseconds from the start of the recording session, and the payload is
//! one tagged variant per kind of action. Events are immutable once produced.
//!
//! A [`RecordedWorkflow`] is a named, ordered recording of events. Its
//! invariant is that timestamps never decrease in stored order; insertion
//! order is the contract for chronological order as delivered to the
//! consumer, not a cross-thread wall-clock guarantee.

use vstd::prelude::*;

verus! {

/// The payload of one recorded user action.
pub enum EventData {
    /// The pointer moved to an absolute position.
    Move { x: i32, y: i32 },
    /// A button was pressed at the last reported pointer position.
    Click { x: i32, y: i32, button: u8, clicks: u8, modifiers: u8 },
    /// The wheel scrolled at the last reported pointer position.
    Scroll { x: i32, y: i32, dx: i16, dy: i16 },
    /// A key went down, by platform key code.
    Key { code: u16, modifiers: u8 },
    /// A run of printable keys, aggregated into one string.
    Text { text: String },
    /// Focus moved to another application.
    App { name: String, pid: i32 },
    /// The focused window changed, within or with the application.
    Window { app: String, title: String },
}

/// The mathematical value of an [`EventData`]: the same shape with strings
/// read as character sequences.
pub enum EventDataV {
    Move { x: i32, y: i32 },
    Click { x: i32, y: i32, button: u8, clicks: u8, modifiers: u8 },
    Scroll { x: i32, y: i32, dx: i16, dy: i16 },
    Key { code: u16, modifiers: u8 },
    Text { text: Seq<char> },
    App { name: Seq<char>, pid: i32 },
    Window { app: Seq<char>, title: Seq<char> },
}

impl View for EventData {
    type V = EventDataV;

    open spec fn view(&self) -> EventDataV {
        match self {
            EventData::Move { x, y } => EventDataV::Move { x: *x, y: *y },
            EventData::Click { x, y, button, clicks, modifiers } => EventDataV::Click {
                x: *x,
                y: *y,
                button: *button,
                clicks: *clicks,
                modifiers: *modifiers,
            },
            EventData::Scroll { x, y, dx, dy } => EventDataV::Scroll {
                x: *x,
                y: *y,
                dx: *dx,
                dy: *dy,
            },
            EventData::Key { code, modifiers } => EventDataV::Key {
                code: *code,
                modifiers: *modifiers,
            },
            EventData::Text { text } => EventDataV::Text { text: text@ },
            EventData::App { name, pid } => EventDataV::App { name: name@, pid: *pid },
            EventData::Window { app, title } => EventDataV::Window { app: app@, title: title@ },
        }
    }
}

/// One timestamped user action.
pub struct Event {
    /// Milliseconds since the start of the recording session.
    pub t: u64,
    /// What happened.
    pub data: EventData,
}

/// The mathematical value of an [`Event`].
pub struct EventV {
    pub t: u64,
    pub data: EventDataV,
}

impl View for Event {
    type V = EventV;

    open spec fn view(&self) -> EventV {
        EventV { t: self.t, data: self.data@ }
    }
}

impl Clone for EventData {
    fn clone(&self) -> (d: Self)
        ensures
            d@ == self@,
    {
        match self {
            EventData::Move { x, y } => EventData::Move { x: *x, y: *y },
            EventData::Click { x, y, button, clicks, modifiers } => EventData::Click {
                x: *x,
                y: *y,
                button: *button,
                clicks: *clicks,
                modifiers: *modifiers,
            },
            EventData::Scroll { x, y, dx, dy } => EventData::Scroll {
                x: *x,
                y: *y,
                dx: *dx,
                dy: *dy,
            },
            EventData::Key { code, modifiers } => EventData::Key {
                code: *code,
                modifiers: *modifiers,
            },
            EventData::Text { text } => EventData::Text { text: text.clone() },
            EventData::App { name, pid } => EventData::App { name: name.clone(), pid: *pid },
            EventData::Window { app, title } => EventData::Window {
                app: app.clone(),
                title: title.clone(),
            },
        }
    }
}

impl Clone for Event {
    fn clone(&self) -> (e: Self)
        ensures
            e@ == self@,
    {
        Event { t: self.t, data: self.data.clone() }
    }
}

/// The views of a sequence of events, in order.
pub open spec fn events_view(s: Seq<Event>) -> Seq<EventV> {
    s.map_values(|e: Event| e@)
}

/// Appending events behind a last timestamp `last`, each timestamp clamped
/// up to the one before it so that the result never runs backwards.
pub open spec fn clamped_append(evs: Seq<EventV>, last: u64) -> Seq<EventV>
    decreases evs.len(),
{
    if evs.len() == 0 {
        Seq::empty()
    } else {
        let t = if evs[0].t >= last {
            evs[0].t
        } else {
            last
        };
        seq![EventV { t, data: evs[0].data }] + clamped_append(evs.drop_first(), t)
    }
}

/// Timestamps never decrease along the sequence.
pub open spec fn timestamps_sorted(s: Seq<Event>) -> bool {
    forall|i: int, j: int| 0 <= i <= j < s.len() ==> s[i].t <= s[j].t
}

/// A named, ordered recording of one user session.
pub struct RecordedWorkflow {
    /// The name given when recording started.
    pub name: String,
    /// The creation anchor: milliseconds of wall clock at which the
    /// session started, as supplied by the host.
    pub created_ms: u64,
    /// The events, in the order they were delivered to the consumer.
    pub events: Vec<Event>,
}

impl RecordedWorkflow {
    /// The invariant of every workflow: stored timestamps never decrease.
    pub open spec fn wf(&self) -> bool {
        timestamps_sorted(self.events@)
    }

    /// The timestamp of the last stored event, or zero for an empty recording.
    pub open spec fn spec_last_t(&self) -> u64 {
        if self.events@.len() == 0 {
            0u64
        } else {
            self.events@.last().t
        }
    }

    /// Starts an empty recording under a name, anchored at a wall-clock
    /// millisecond count supplied by the host.
    pub fn new(name: String, created_ms: u64) -> (w: RecordedWorkflow)
        ensures
            w.wf(),
            w.name == name,
            w.created_ms == created_ms,
            w.events@.len() == 0,
    {
        RecordedWorkflow { name, created_ms, events: Vec::new() }
    }

    /// The timestamp of the last stored event, or zero for an empty recording.
    pub fn last_t(&self) -> (t: u64)
        ensures
            t == self.spec_last_t(),
    {
        if self.events.len() == 0 {
            0
        } else {
            self.events[self.events.len() - 1].t
        }
    }

    /// Appends one event, keeping the timestamp invariant: a timestamp that
    /// would run backwards — producers are independent threads, so a late
    /// delivery can carry an earlier clock reading — is clamped up to the
    /// timestamp of the event before it. The payload is stored unchanged.
    pub fn push(&mut self, e: Event)
        requires
            old(self).wf(),
        ensures
            final(self).wf(),
            final(self).name == old(self).name,
            final(self).created_ms == old(self).created_ms,
            final(self).events@.len() == old(self).events@.len() + 1,
            final(self).events@.subrange(0, old(self).events@.len() as int) == old(self).events@,
            final(self).events@.last().data@ == e.data@,
            final(self).events@.last().t == if e.t >= old(self).spec_last_t() {
                e.t
            } else {
                old(self).spec_last_t()
            },
    {
        let last = self.last_t();
        let t = if e.t >= last {
            e.t
        } else {
            last
        };
        self.events.push(Event { t, data: e.data });
        proof {
            assert(final(self).events@.subrange(0, old(self).events@.len() as int) =~= old(
                self,
            ).events@);
        }
    }

    /// How many events are stored.
    pub fn len(&self) -> (n: usize)
        ensures
            n == self.events@.len(),
    {
        self.events.len()
    }
}

/// Compares two event payloads by value, strings compared by contents.
#[verifier::rlimit(60)]
pub fn event_data_eq(a: &EventData, b: &EventData) -> (r: bool)
    ensures
        r == (a@ == b@),
{
    match a {
        EventData::Move { x, y } => match b {
            EventData::Move { x: x2, y: y2 } => *x == *x2 && *y == *y2,
            _ => false,
        },
        EventData::Click { x, y, button, clicks, modifiers } => match b {
            EventData::Click { x: x2, y: y2, button: b2, clicks: c2, modifiers: m2 } => *x == *x2
                && *y == *y2 && *button == *b2 && *clicks == *c2 && *modifiers == *m2,
            _ => false,
        },
        EventData::Scroll { x, y, dx, dy } => match b {
            EventData::Scroll { x: x2, y: y2, dx: dx2, dy: dy2 } => *x == *x2 && *y == *y2
                && *dx == *dx2 && *dy == *dy2,
            _ => false,
        },
        EventData::Key { code, modifiers } => match b {
            EventData::Key { code: k2, modifiers: m2 } => *code == *k2 && *modifiers == *m2,
            _ => false,
        },
        EventData::Text { text } => match b {
            EventData::Text { text: t2 } => text.eq(t2),
            _ => false,
        },
        EventData::App { name, pid } => match b {
            EventData::App { name: n2, pid: p2 } => name.eq(n2) && *pid == *p2,
            _ => false,
        },
        EventData::Window { app, title } => match b {
            EventData::Window { app: a2, title: t2 } => app.eq(a2) && title.eq(t2),
            _ => false,
        },
    }
}

/// Compares two events by value: same timestamp and the same payload,
/// strings compared by contents.
pub fn event_eq(a: &Event, b: &Event) -> (r: bool)
    ensures
        r == (a@ == b@),
{
    a.t == b.t && event_data_eq(&a.data, &b.data)
}

} // verus!

