//! The bounded, lossy event buffer.
//!
//! Capture is best-effort, at-most-once: producers must never block, because
//! stalling the input-hook thread would stall all system input delivery. So
//! when the buffer is full the incoming event is dropped — newest first,
//! never the producer blocked — and a drop counter records the loss. The
//! buffer length can never exceed the configured bound.

use vstd::prelude::*;

use crate::event::{Event, EventV, RecordedWorkflow, clamped_append, events_view};

verus! {

/// One push against the mathematical queue: the event enters at the back if
/// there is room, and is dropped otherwise.
pub open spec fn spec_push(items: Seq<EventV>, cap: nat, e: EventV) -> Seq<EventV> {
    if items.len() < cap {
        items.push(e)
    } else {
        items
    }
}

/// A whole sequence of pushes, oldest first.
pub open spec fn spec_push_all(items: Seq<EventV>, cap: nat, es: Seq<EventV>) -> Seq<EventV>
    decreases es.len(),
{
    if es.len() == 0 {
        items
    } else {
        spec_push_all(spec_push(items, cap, es[0]), cap, es.drop_first())
    }
}

/// The law of the lossy buffer: however many events are pushed, the length
/// never exceeds the bound; exactly `min(len + n, cap)` events are retained;
/// and once the flood exceeds the free room, at least one event is lost.
pub proof fn lemma_queue_bounded(items: Seq<EventV>, cap: nat, es: Seq<EventV>)
    requires
        items.len() <= cap,
    ensures
        spec_push_all(items, cap, es).len() <= cap,
        spec_push_all(items, cap, es).len() == if items.len() + es.len() <= cap {
            items.len() + es.len()
        } else {
            cap
        },
        items.len() + es.len() > cap ==> spec_push_all(items, cap, es).len() < items.len()
            + es.len(),
    decreases es.len(),
{
    if es.len() > 0 {
        lemma_queue_bounded(spec_push(items, cap, es[0]), cap, es.drop_first());
    }
}

/// A bounded multi-event buffer with a drop-newest backpressure policy.
pub struct BoundedQueue {
    /// Buffered events, oldest first.
    pub items: Vec<Event>,
    /// The bound on how many events may sit in the buffer at once.
    pub cap: usize,
    /// How many events were dropped because the buffer was full, saturating.
    pub dropped: u64,
}

impl BoundedQueue {
    /// The buffer never holds more than its bound.
    pub open spec fn wf(&self) -> bool {
        self.items@.len() <= self.cap
    }

    /// The buffered events as mathematical values, oldest first.
    pub open spec fn contents(&self) -> Seq<EventV> {
        events_view(self.items@)
    }

    /// An empty buffer with the given bound.
    pub fn new(cap: usize) -> (q: BoundedQueue)
        ensures
            q.wf(),
            q.cap == cap,
            q.contents().len() == 0,
            q.dropped == 0,
    {
        BoundedQueue { items: Vec::new(), cap, dropped: 0 }
    }

    /// How many events sit in the buffer.
    pub fn len(&self) -> (n: usize)
        ensures
            n == self.contents().len(),
    {
        self.items.len()
    }

    /// The bound the buffer was made with.
    pub fn capacity(&self) -> (c: usize)
        ensures
            c == self.cap,
    {
        self.cap
    }

    /// How many events were dropped so far (saturating at the counter's top).
    pub fn dropped_count(&self) -> (d: u64)
        ensures
            d == self.dropped,
    {
        self.dropped
    }

    /// Offers one event. If there is room it enters at the back and `true`
    /// comes back; otherwise it is dropped, the drop counter moves, and
    /// `false` comes back. Never blocks.
    pub fn push(&mut self, e: Event) -> (accepted: bool)
        requires
            old(self).wf(),
        ensures
            final(self).wf(),
            final(self).cap == old(self).cap,
            final(self).contents() == spec_push(old(self).contents(), old(self).cap as nat, e@),
            accepted == (old(self).contents().len() < old(self).cap),
            accepted ==> final(self).dropped == old(self).dropped,
            !accepted ==> final(self).dropped == if old(self).dropped == u64::MAX {
                u64::MAX
            } else {
                (old(self).dropped + 1) as u64
            },
    {
        if self.items.len() < self.cap {
            self.items.push(e);
            proof {
                assert(events_view(self.items@) =~= events_view(old(self).items@).push(e@));
            }
            true
        } else {
            if self.dropped < u64::MAX {
                self.dropped = self.dropped + 1;
            }
            false
        }
    }

    /// Takes the oldest buffered event, if any.
    pub fn pop_front(&mut self) -> (r: Option<Event>)
        requires
            old(self).wf(),
        ensures
            final(self).wf(),
            final(self).cap == old(self).cap,
            final(self).dropped == old(self).dropped,
            old(self).contents().len() == 0 ==> r is None && final(self).contents() == old(
                self,
            ).contents(),
            old(self).contents().len() > 0 ==> r is Some && r->0@ == old(self).contents()[0]
                && final(self).contents() == old(self).contents().drop_first(),
    {
        if self.items.len() > 0 {
            let e = self.items.remove(0);
            proof {
                assert(events_view(self.items@) =~= events_view(old(self).items@).drop_first());
            }
            Some(e)
        } else {
            None
        }
    }

    /// Offers every event of `evs` from `from` on, in order, under the
    /// drop-newest policy.
    pub fn push_from(&mut self, evs: &Vec<Event>, from: usize)
        requires
            old(self).wf(),
            from <= evs@.len(),
        ensures
            final(self).wf(),
            final(self).cap == old(self).cap,
            final(self).contents() == spec_push_all(
                old(self).contents(),
                old(self).cap as nat,
                events_view(evs@).skip(from as int),
            ),
        decreases evs@.len() - from,
    {
        if from < evs.len() {
            let ghost pre = self.contents();
            self.push(evs[from].clone());
            self.push_from(evs, from + 1);
            proof {
                let s = events_view(evs@);
                assert(s.skip(from as int).drop_first() =~= s.skip(from + 1));
                assert(s.skip(from as int)[0] == evs@[from as int]@);
            }
        } else {
            proof {
                assert(events_view(evs@).skip(from as int) =~= Seq::<EventV>::empty());
            }
        }
    }

    /// Offers every event of `evs`, in order, under the drop-newest policy.
    pub fn push_all(&mut self, evs: &Vec<Event>)
        requires
            old(self).wf(),
        ensures
            final(self).wf(),
            final(self).cap == old(self).cap,
            final(self).contents() == spec_push_all(
                old(self).contents(),
                old(self).cap as nat,
                events_view(evs@),
            ),
    {
        self.push_from(evs, 0);
        proof {
            assert(events_view(evs@).skip(0) =~= events_view(evs@));
        }
    }

    /// Drains every buffered event, oldest first, into a workflow: the
    /// buffered events land behind the stored ones, timestamps clamped so
    /// the workflow invariant holds.
    pub fn drain_into(&mut self, w: &mut RecordedWorkflow)
        requires
            old(self).wf(),
            old(w).wf(),
        ensures
            final(self).wf(),
            final(self).cap == old(self).cap,
            final(self).contents().len() == 0,
            final(w).wf(),
            final(w).name == old(w).name,
            final(w).created_ms == old(w).created_ms,
            events_view(final(w).events@) == events_view(old(w).events@) + clamped_append(
                old(self).contents(),
                old(w).spec_last_t(),
            ),
        decreases old(self).contents().len(),
    {
        let ghost pre_q = self.contents();
        let ghost pre_w = events_view(w.events@);
        let ghost pre_last = w.spec_last_t();
        match self.pop_front() {
            Some(e) => {
                w.push(e);
                proof {
                    assert(events_view(w.events@) =~= pre_w + seq![
                        EventV {
                            t: if e@.t >= pre_last {
                                e@.t
                            } else {
                                pre_last
                            },
                            data: e@.data,
                        },
                    ]);
                }
                self.drain_into(w);
                proof {
                    assert(events_view(final(w).events@) =~= pre_w + clamped_append(
                        pre_q,
                        pre_last,
                    ));
                }
            },
            None => {
                proof {
                    assert(clamped_append(pre_q, pre_last) =~= Seq::<EventV>::empty());
                    assert(events_view(w.events@) =~= pre_w + clamped_append(pre_q, pre_last));
                }
            },
        }
    }
}

} // verus!
