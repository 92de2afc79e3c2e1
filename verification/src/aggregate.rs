//! Event shaping: pointer sampling, text aggregation and focus tracking.
//!
//! Two independent pieces of per-recording state shape raw input before an
//! event reaches the output stream. The pointer sampler drops a pointer
//! sample unless it is far enough from the last *reported* position; clicks
//! and scrolls are stamped with the last reported position, a deliberate
//! imprecision bounded by the threshold and part of the recorded contract.
//! The text aggregator gathers printable keys into one pending buffer and
//! flushes it as one `Text` event when the quiet timeout passes — or, forced,
//! before any click, scroll, non-printable key or stop, so that no recorded
//! text run spans past a user action.
//!
//! The focus tracker keeps the last known application and window title and
//! emits `App`/`Window` events only on change, a `Window` event always
//! following an `App` event when the application changed.

use vstd::prelude::*;

use crate::event::{Event, EventData, EventDataV, EventV, events_view};
use crate::keymap::{KeyId, is_printable, key_to_char, key_to_code, spec_key_char, spec_key_code};
use crate::shims::string_push_char;

verus! {

/// Whether the squared Euclidean distance between two positions reaches the
/// squared threshold. Squares compare like distances and need no rounding.
pub open spec fn far_enough(threshold: u32, x0: i32, y0: i32, x1: i32, y1: i32) -> bool {
    (x1 - x0) * (x1 - x0) + (y1 - y0) * (y1 - y0) >= threshold * threshold
}

/// The squared distance between two positions, exactly.
fn sq_dist(x0: i32, y0: i32, x1: i32, y1: i32) -> (d: i128)
    ensures
        d == (x1 - x0) * (x1 - x0) + (y1 - y0) * (y1 - y0),
{
    let dx: i128 = (x1 as i128) - (x0 as i128);
    let dy: i128 = (y1 as i128) - (y0 as i128);
    proof {
        assert(dx * dx <= 0x10000000000000000 && dx * dx >= 0 && dy * dy <= 0x10000000000000000
            && dy * dy >= 0) by (nonlinear_arith)
            requires
                -0x100000000 <= dx <= 0x100000000,
                -0x100000000 <= dy <= 0x100000000,
        ;
    }
    dx * dx + dy * dy
}

/// Pointer sampling state: the threshold and the last *reported* position.
pub struct PointerSampler {
    /// Minimum Euclidean distance, in pixels, before a move is reported.
    pub threshold: u32,
    /// The last reported x position.
    pub x: i32,
    /// The last reported y position.
    pub y: i32,
}

impl PointerSampler {
    /// A sampler that has reported nothing yet: the reference position is
    /// the origin, as the capture backends deliver positions.
    pub fn new(threshold: u32) -> (s: PointerSampler)
        ensures
            s.threshold == threshold,
            s.x == 0,
            s.y == 0,
    {
        PointerSampler { threshold, x: 0, y: 0 }
    }

    /// Offers a pointer sample. It is reported — and becomes the new
    /// reference position — only if it is at least the threshold away from
    /// the last reported position; otherwise it is dropped and the reported
    /// position is unchanged.
    pub fn sample(&mut self, x: i32, y: i32) -> (reported: bool)
        ensures
            reported == far_enough(old(self).threshold, old(self).x, old(self).y, x, y),
            final(self).threshold == old(self).threshold,
            reported ==> final(self).x == x && final(self).y == y,
            !reported ==> final(self).x == old(self).x && final(self).y == old(self).y,
    {
        let d = sq_dist(self.x, self.y, x, y);
        proof {
            let th = self.threshold as i128;
            assert(th * th <= 0x10000000000000000 && th * th >= 0) by (nonlinear_arith)
                requires
                    0 <= th <= 0x100000000,
            ;
        }
        let t2: i128 = (self.threshold as i128) * (self.threshold as i128);
        if d >= t2 {
            self.x = x;
            self.y = y;
            true
        } else {
            false
        }
    }
}

/// The positions the sampler reports for the samples from `from` on, given
/// threshold `th` and reference position `(x, y)`.
pub open spec fn sampler_reports_from(
    th: u32,
    x: i32,
    y: i32,
    samples: Seq<(i32, i32)>,
    from: int,
) -> Seq<(i32, i32)>
    decreases samples.len() - from,
{
    if from < 0 || from >= samples.len() {
        Seq::empty()
    } else {
        let s = samples[from];
        if far_enough(th, x, y, s.0, s.1) {
            seq![s] + sampler_reports_from(th, s.0, s.1, samples, from + 1)
        } else {
            sampler_reports_from(th, x, y, samples, from + 1)
        }
    }
}

/// The positions the sampler reports for a whole sequence of samples.
pub open spec fn sampler_reports(th: u32, x: i32, y: i32, samples: Seq<(i32, i32)>) -> Seq<
    (i32, i32),
> {
    sampler_reports_from(th, x, y, samples, 0)
}

/// The law of pointer sampling: for any sequence of samples, every two
/// consecutively reported positions are at least the threshold apart, and the
/// first reported position is at least the threshold from the reference.
pub proof fn lemma_reported_moves_spaced(th: u32, x: i32, y: i32, samples: Seq<(i32, i32)>)
    ensures
        ({
            let r = sampler_reports(th, x, y, samples);
            &&& (r.len() > 0 ==> far_enough(th, x, y, r[0].0, r[0].1))
            &&& (forall|i: int|
                0 <= i < r.len() - 1 ==> far_enough(
                    th,
                    (#[trigger] r[i]).0,
                    r[i].1,
                    r[i + 1].0,
                    r[i + 1].1,
                ))
        }),
{
    lemma_reported_moves_spaced_from(th, x, y, samples, 0);
}

proof fn lemma_reported_moves_spaced_from(
    th: u32,
    x: i32,
    y: i32,
    samples: Seq<(i32, i32)>,
    from: int,
)
    ensures
        ({
            let r = sampler_reports_from(th, x, y, samples, from);
            &&& (r.len() > 0 ==> far_enough(th, x, y, r[0].0, r[0].1))
            &&& (forall|i: int|
                0 <= i < r.len() - 1 ==> far_enough(
                    th,
                    (#[trigger] r[i]).0,
                    r[i].1,
                    r[i + 1].0,
                    r[i + 1].1,
                ))
        }),
    decreases samples.len() - from,
{
    if from < 0 || from >= samples.len() {
    } else {
        let s = samples[from];
        if far_enough(th, x, y, s.0, s.1) {
            lemma_reported_moves_spaced_from(th, s.0, s.1, samples, from + 1);
            let rest = sampler_reports_from(th, s.0, s.1, samples, from + 1);
            let r = sampler_reports_from(th, x, y, samples, from);
            assert(r == seq![s] + rest);
            assert(forall|i: int|
                0 <= i < r.len() - 1 ==> far_enough(
                    th,
                    (#[trigger] r[i]).0,
                    r[i].1,
                    r[i + 1].0,
                    r[i + 1].1,
                )) by {
                assert forall|i: int| 0 <= i < r.len() - 1 implies far_enough(
                    th,
                    (#[trigger] r[i]).0,
                    r[i].1,
                    r[i + 1].0,
                    r[i + 1].1,
                ) by {
                    if i == 0 {
                        assert(r[0] == s);
                        assert(rest.len() > 0 ==> r[1] == rest[0]);
                    } else {
                        assert(r[i] == rest[i - 1]);
                        assert(r[i + 1] == rest[i]);
                    }
                }
            }
        } else {
            lemma_reported_moves_spaced_from(th, x, y, samples, from + 1);
        }
    }
}

/// Runs a fresh sampler over a sequence of samples and collects the reported
/// positions, exactly as the model predicts.
pub fn reported_positions(th: u32, samples: &Vec<(i32, i32)>) -> (out: Vec<(i32, i32)>)
    ensures
        out@ == sampler_reports(th, 0, 0, samples@),
{
    let mut s = PointerSampler::new(th);
    let mut out: Vec<(i32, i32)> = Vec::new();
    let mut i: usize = 0;
    proof {
        assert(sampler_reports(th, 0, 0, samples@) =~= out@ + sampler_reports_from(
            th,
            s.x,
            s.y,
            samples@,
            0,
        ));
    }
    while i < samples.len()
        invariant
            i <= samples@.len(),
            s.threshold == th,
            sampler_reports(th, 0, 0, samples@) == out@ + sampler_reports_from(
                th,
                s.x,
                s.y,
                samples@,
                i as int,
            ),
        decreases samples@.len() - i,
    {
        let (x, y) = samples[i];
        let ghost prev = s;
        let reported = s.sample(x, y);
        if reported {
            out.push((x, y));
        }
        proof {
            assert(sampler_reports_from(th, prev.x, prev.y, samples@, i as int) == (if far_enough(
                th,
                prev.x,
                prev.y,
                x,
                y,
            ) {
                seq![(x, y)] + sampler_reports_from(th, x, y, samples@, i + 1)
            } else {
                sampler_reports_from(th, prev.x, prev.y, samples@, i + 1)
            }));
            assert(sampler_reports(th, 0, 0, samples@) =~= out@ + sampler_reports_from(
                th,
                s.x,
                s.y,
                samples@,
                i + 1,
            ));
        }
        i = i + 1;
    }
    out
}

/// Text aggregation state: a pending buffer of printable characters and the
/// time the last one arrived. The machine is idle when the buffer is empty
/// and accumulating otherwise.
pub struct TextAggregator {
    /// Milliseconds of inactivity after which the pending buffer flushes.
    pub quiet_timeout: u64,
    /// The pending characters; empty when idle.
    pub buf: String,
    /// When the last printable character arrived; meaningful only while
    /// accumulating.
    pub last_input: u64,
}

impl TextAggregator {
    /// Whether the machine is accumulating a text run.
    pub open spec fn accumulating(&self) -> bool {
        self.buf@.len() > 0
    }

    /// Whether a pending buffer must flush at time `t` because the quiet
    /// timeout has passed since the last printable character.
    pub open spec fn should_timer_flush(&self, t: u64) -> bool {
        self.accumulating() && t >= self.last_input + self.quiet_timeout
    }

    /// The `Text` event a flush at time `t` emits.
    pub open spec fn flush_event(&self, t: u64) -> EventV {
        EventV { t, data: EventDataV::Text { text: self.buf@ } }
    }

    /// What a timer-driven flush at time `t` emits: one `Text` event, or
    /// nothing if the timeout has not passed or nothing is pending.
    pub open spec fn timer_flush_seq(&self, t: u64) -> Seq<EventV> {
        if self.should_timer_flush(t) {
            seq![self.flush_event(t)]
        } else {
            Seq::empty()
        }
    }

    /// What a forced flush at time `t` emits: one `Text` event carrying the
    /// pending buffer, or nothing if nothing is pending.
    pub open spec fn force_flush_seq(&self, t: u64) -> Seq<EventV> {
        if self.accumulating() {
            seq![self.flush_event(t)]
        } else {
            Seq::empty()
        }
    }

    /// An idle aggregator.
    pub fn new(quiet_timeout: u64) -> (a: TextAggregator)
        ensures
            a.quiet_timeout == quiet_timeout,
            !a.accumulating(),
            a.last_input == 0,
    {
        TextAggregator { quiet_timeout, buf: String::new(), last_input: 0 }
    }

    /// Flushes the pending buffer if the quiet timeout has passed at `t`.
    pub fn maybe_flush(&mut self, t: u64) -> (r: Option<Event>)
        ensures
            final(self).quiet_timeout == old(self).quiet_timeout,
            final(self).last_input == old(self).last_input,
            match r {
                Some(e) => old(self).should_timer_flush(t) && e@ == old(self).flush_event(t)
                    && !final(self).accumulating(),
                None => !old(self).should_timer_flush(t) && final(self).buf@ == old(self).buf@,
            },
    {
        if !self.buf.as_str().is_empty() && t >= self.last_input && t - self.last_input
            >= self.quiet_timeout {
            let text = self.buf.clone();
            self.buf = String::new();
            Some(Event { t, data: EventData::Text { text } })
        } else {
            None
        }
    }

    /// Flushes the pending buffer unconditionally: a click, scroll,
    /// non-printable key or stop must not let a text run span past it.
    pub fn force_flush(&mut self, t: u64) -> (r: Option<Event>)
        ensures
            final(self).quiet_timeout == old(self).quiet_timeout,
            final(self).last_input == old(self).last_input,
            !final(self).accumulating(),
            match r {
                Some(e) => old(self).accumulating() && e@ == old(self).flush_event(t),
                None => !old(self).accumulating(),
            },
    {
        if !self.buf.as_str().is_empty() {
            let text = self.buf.clone();
            self.buf = String::new();
            Some(Event { t, data: EventData::Text { text } })
        } else {
            None
        }
    }

    /// Takes one printable character at time `t`: flushes first if the quiet
    /// timeout has passed, then appends the character and resets the quiet
    /// timer.
    pub fn on_char(&mut self, t: u64, c: char) -> (r: Option<Event>)
        ensures
            final(self).quiet_timeout == old(self).quiet_timeout,
            final(self).last_input == t,
            match r {
                Some(e) => old(self).should_timer_flush(t) && e@ == old(self).flush_event(t)
                    && final(self).buf@ == Seq::empty().push(c),
                None => !old(self).should_timer_flush(t) && final(self).buf@ == old(
                    self,
                ).buf@.push(c),
            },
    {
        let r = self.maybe_flush(t);
        string_push_char(&mut self.buf, c);
        self.last_input = t;
        proof {
            if r is Some {
                assert(final(self).buf@ =~= Seq::empty().push(c));
            }
        }
        r
    }
}


/// Focus tracking state: the last known application and window title.
pub struct FocusTracker {
    /// The last reported application, as (name, pid).
    pub app: Option<(String, i32)>,
    /// The last reported window title.
    pub window: Option<String>,
}

impl FocusTracker {
    /// Whether a poll reading `(name, pid)` differs from the last known
    /// application.
    pub open spec fn app_changed(&self, name: Seq<char>, pid: i32) -> bool {
        match self.app {
            Some(a) => a.0@ != name || a.1 != pid,
            None => true,
        }
    }

    /// Whether a poll reading `title` under `(name, pid)` must report a
    /// window event: the title differs, or the application itself changed.
    pub open spec fn window_changed(&self, name: Seq<char>, pid: i32, title: Seq<char>) -> bool {
        self.app_changed(name, pid) || (match self.window {
            Some(w) => w@ != title,
            None => true,
        })
    }

    /// Exactly what one poll reading emits: an `App` event when the
    /// application changed, then a `Window` event when the title or the
    /// application changed, and nothing otherwise.
    pub open spec fn observe_events(
        &self,
        t: u64,
        name: Seq<char>,
        pid: i32,
        title: Seq<char>,
    ) -> Seq<EventV> {
        (if self.app_changed(name, pid) {
            seq![EventV { t, data: EventDataV::App { name, pid } }]
        } else {
            Seq::empty()
        }) + (if self.window_changed(name, pid, title) {
            seq![EventV { t, data: EventDataV::Window { app: name, title } }]
        } else {
            Seq::empty()
        })
    }

    /// A tracker that has seen no focus yet: the first poll always reports.
    pub fn new() -> (f: FocusTracker)
        ensures
            f.app is None,
            f.window is None,
    {
        FocusTracker { app: None, window: None }
    }

    /// Takes one focus poll reading and emits the change events it calls
    /// for, `App` before `Window`.
    pub fn observe(&mut self, t: u64, name: &String, pid: i32, title: &String) -> (out: Vec<
        Event,
    >)
        ensures
            events_view(out@) == old(self).observe_events(t, name@, pid, title@),
            final(self).app is Some,
            (final(self).app->0).0@ == name@,
            (final(self).app->0).1 == pid,
            final(self).window is Some,
            final(self).window->0@ == title@,
    {
        let app_ch = match &self.app {
            Some(a) => !(a.0.eq(name) && a.1 == pid),
            None => true,
        };
        let win_ch = app_ch || match &self.window {
            Some(w) => !w.eq(title),
            None => true,
        };
        let mut out: Vec<Event> = Vec::new();
        if app_ch {
            out.push(Event { t, data: EventData::App { name: name.clone(), pid } });
            self.app = Some((name.clone(), pid));
        }
        if win_ch {
            out.push(Event { t, data: EventData::Window { app: name.clone(), title: title.clone() } });
            self.window = Some(title.clone());
        }
        proof {
            assert(events_view(out@) =~= old(self).observe_events(t, name@, pid, title@));
        }
        out
    }
}

/// The law of focus tracking: a poll that reads exactly the last known
/// application and title emits nothing — there are no duplicate emissions
/// per poll tick.
pub proof fn lemma_focus_no_duplicates(
    f: FocusTracker,
    t: u64,
    name: Seq<char>,
    pid: i32,
    title: Seq<char>,
)
    requires
        f.app is Some,
        (f.app->0).0@ == name,
        (f.app->0).1 == pid,
        f.window is Some,
        f.window->0@ == title,
    ensures
        f.observe_events(t, name, pid, title) == Seq::<EventV>::empty(),
{
    assert(f.observe_events(t, name, pid, title) =~= Seq::<EventV>::empty());
}

/// One raw sample from the input hook, already translated to the library's
/// own vocabulary by the host.
#[derive(Clone, Copy, Debug, PartialEq, Eq, Structural)]
pub enum RawInput {
    /// The pointer was seen at an absolute position.
    PointerMove { x: i32, y: i32 },
    /// A button went down.
    ButtonPress { button: u8 },
    /// The wheel scrolled.
    Wheel { dx: i16, dy: i16 },
    /// A key went down.
    KeyPress { key: KeyId },
}

/// The per-recording shaping state: pointer sampling plus text aggregation.
pub struct RecorderCore {
    /// Pointer sampling state.
    pub sampler: PointerSampler,
    /// Text aggregation state.
    pub text: TextAggregator,
}

impl RecorderCore {
    /// Exactly which events one raw sample at time `t` turns into: any flush
    /// of pending text first, then the sample's own event, if any.
    pub open spec fn step_events(self, t: u64, raw: RawInput) -> Seq<EventV> {
        match raw {
            RawInput::PointerMove { x, y } => self.text.timer_flush_seq(t) + (if far_enough(
                self.sampler.threshold,
                self.sampler.x,
                self.sampler.y,
                x,
                y,
            ) {
                seq![EventV { t, data: EventDataV::Move { x, y } }]
            } else {
                Seq::empty()
            }),
            RawInput::ButtonPress { button } => self.text.force_flush_seq(t) + seq![
                EventV {
                    t,
                    data: EventDataV::Click {
                        x: self.sampler.x,
                        y: self.sampler.y,
                        button,
                        clicks: 1u8,
                        modifiers: 0u8,
                    },
                },
            ],
            RawInput::Wheel { dx, dy } => self.text.force_flush_seq(t) + seq![
                EventV {
                    t,
                    data: EventDataV::Scroll { x: self.sampler.x, y: self.sampler.y, dx, dy },
                },
            ],
            RawInput::KeyPress { key } => (if is_printable(key) {
                self.text.timer_flush_seq(t)
            } else {
                self.text.force_flush_seq(t)
            }) + seq![EventV { t, data: EventDataV::Key { code: spec_key_code(key), modifiers: 0u8 } }],
        }
    }

    /// The pointer-sampling state after one raw sample.
    pub open spec fn step_sampler(self, t: u64, raw: RawInput) -> PointerSampler {
        match raw {
            RawInput::PointerMove { x, y } => if far_enough(
                self.sampler.threshold,
                self.sampler.x,
                self.sampler.y,
                x,
                y,
            ) {
                PointerSampler { threshold: self.sampler.threshold, x, y }
            } else {
                self.sampler
            },
            _ => self.sampler,
        }
    }

    /// The quiet-timer reading after one raw sample.
    pub open spec fn step_last_input(self, t: u64, raw: RawInput) -> u64 {
        match raw {
            RawInput::KeyPress { key } => if is_printable(key) {
                t
            } else {
                self.text.last_input
            },
            _ => self.text.last_input,
        }
    }

    /// The pending text buffer after one raw sample.
    pub open spec fn step_buf(self, t: u64, raw: RawInput) -> Seq<char> {
        match raw {
            RawInput::PointerMove { x, y } => if self.text.should_timer_flush(t) {
                Seq::<char>::empty()
            } else {
                self.text.buf@
            },
            RawInput::ButtonPress { button } => Seq::<char>::empty(),
            RawInput::Wheel { dx, dy } => Seq::<char>::empty(),
            RawInput::KeyPress { key } => match spec_key_char(key) {
                Some(c) => (if self.text.should_timer_flush(t) {
                    Seq::<char>::empty()
                } else {
                    self.text.buf@
                }).push(c),
                None => Seq::<char>::empty(),
            },
        }
    }

    /// A fresh shaping state.
    pub fn new(pointer_move_threshold: u32, text_quiet_timeout: u64) -> (c: RecorderCore)
        ensures
            c.sampler.threshold == pointer_move_threshold,
            c.sampler.x == 0,
            c.sampler.y == 0,
            c.text.quiet_timeout == text_quiet_timeout,
            !c.text.accumulating(),
    {
        RecorderCore {
            sampler: PointerSampler::new(pointer_move_threshold),
            text: TextAggregator::new(text_quiet_timeout),
        }
    }

    /// Shapes one raw sample into the events it is recorded as.
    pub fn on_raw(&mut self, t: u64, raw: RawInput) -> (out: Vec<Event>)
        ensures
            events_view(out@) == old(self).step_events(t, raw),
            final(self).text.quiet_timeout == old(self).text.quiet_timeout,
            final(self).sampler == old(self).step_sampler(t, raw),
            final(self).text.last_input == old(self).step_last_input(t, raw),
            final(self).text.buf@ == old(self).step_buf(t, raw),
    {
        let mut out: Vec<Event> = Vec::new();
        match raw {
            RawInput::PointerMove { x, y } => {
                if let Some(e) = self.text.maybe_flush(t) {
                    out.push(e);
                }
                let reported = self.sampler.sample(x, y);
                if reported {
                    out.push(Event { t, data: EventData::Move { x, y } });
                }
            },
            RawInput::ButtonPress { button } => {
                if let Some(e) = self.text.force_flush(t) {
                    out.push(e);
                }
                out.push(
                    Event {
                        t,
                        data: EventData::Click {
                            x: self.sampler.x,
                            y: self.sampler.y,
                            button,
                            clicks: 1,
                            modifiers: 0,
                        },
                    },
                );
            },
            RawInput::Wheel { dx, dy } => {
                if let Some(e) = self.text.force_flush(t) {
                    out.push(e);
                }
                out.push(
                    Event {
                        t,
                        data: EventData::Scroll { x: self.sampler.x, y: self.sampler.y, dx, dy },
                    },
                );
            },
            RawInput::KeyPress { key } => {
                match key_to_char(key) {
                    Some(c) => {
                        if let Some(e) = self.text.on_char(t, c) {
                            out.push(e);
                        }
                    },
                    None => {
                        if let Some(e) = self.text.force_flush(t) {
                            out.push(e);
                        }
                    },
                }
                out.push(
                    Event { t, data: EventData::Key { code: key_to_code(key), modifiers: 0 } },
                );
            },
        }
        proof {
            assert(events_view(out@) =~= old(self).step_events(t, raw));
        }
        out
    }

    /// Stops shaping: any pending text flushes as one final `Text` event, so
    /// a recording never loses a text run at shutdown.
    pub fn finish(&mut self, t: u64) -> (r: Option<Event>)
        ensures
            final(self).text.quiet_timeout == old(self).text.quiet_timeout,
            final(self).sampler == old(self).sampler,
            !final(self).text.accumulating(),
            match r {
                Some(e) => old(self).text.accumulating() && e@ == old(self).text.flush_event(t),
                None => !old(self).text.accumulating(),
            },
    {
        self.text.force_flush(t)
    }
}

} // verus!
