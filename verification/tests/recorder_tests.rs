use bigbrother::aggregate::{FocusTracker, PointerSampler, RawInput, RecorderCore, TextAggregator};
use bigbrother::aggregate::reported_positions;
use bigbrother::event::{Event, EventData, RecordedWorkflow, event_eq};
use bigbrother::keymap::KeyId;
use bigbrother::queue::BoundedQueue;
use bigbrother::recorder::{PermissionStatus, RecorderConfig, WorkflowRecorder};

fn sq(a: i64) -> i64 {
    a * a
}

fn dist2(a: (i32, i32), b: (i32, i32)) -> i64 {
    sq(b.0 as i64 - a.0 as i64) + sq(b.1 as i64 - a.1 as i64)
}

#[test]
fn pointer_sampler_reports_only_far_samples() {
    let mut s = PointerSampler::new(5);
    assert!(!s.sample(1, 1)); // distance sqrt(2) < 5
    assert!(!s.sample(3, 0));
    assert!(s.sample(3, 4)); // distance 5 from (0,0)
    assert!(!s.sample(4, 5)); // close to (3,4)
    assert!(s.sample(8, 8)); // far from (3,4)
}

#[test]
fn reported_moves_stay_threshold_apart_on_walks() {
    // pseudo-random walks via a linear congruential generator
    let mut seed: u64 = 0x2545F491;
    for _walk in 0..10 {
        let mut samples: Vec<(i32, i32)> = Vec::new();
        let mut x: i32 = 0;
        let mut y: i32 = 0;
        for _ in 0..200 {
            seed = seed.wrapping_mul(6364136223846793005).wrapping_add(1442695040888963407);
            x += ((seed >> 33) % 7) as i32 - 3;
            y += ((seed >> 45) % 7) as i32 - 3;
            samples.push((x, y));
        }
        let th: u32 = 5;
        let reported = reported_positions(th, &samples);
        let mut prev = (0i32, 0i32);
        for p in reported.iter() {
            assert!(dist2(prev, *p) >= (th as i64) * (th as i64));
            prev = *p;
        }
    }
}

fn key_events(core: &mut RecorderCore, t0: u64, keys: &[KeyId]) -> Vec<Event> {
    let mut out = Vec::new();
    let mut t = t0;
    for k in keys {
        out.extend(core.on_raw(t, RawInput::KeyPress { key: *k }));
        t += 10;
    }
    out
}

fn texts_of(events: &[Event]) -> Vec<String> {
    events
        .iter()
        .filter_map(|e| match &e.data {
            EventData::Text { text } => Some(text.clone()),
            _ => None,
        })
        .collect()
}

#[test]
fn typing_hello_then_pausing_yields_one_text_event() {
    let mut core = RecorderCore::new(5, 300);
    let mut all = key_events(
        &mut core,
        0,
        &[KeyId::KeyH, KeyId::KeyE, KeyId::KeyL, KeyId::KeyL, KeyId::KeyO],
    );
    // next activity comes after the quiet timeout has passed
    all.extend(core.on_raw(400, RawInput::PointerMove { x: 100, y: 100 }));
    let texts = texts_of(&all);
    assert_eq!(texts.len(), 1);
    assert_eq!(texts[0], "hello");
}

#[test]
fn two_runs_split_by_a_pause_yield_two_text_events() {
    let mut core = RecorderCore::new(5, 300);
    let mut all = key_events(&mut core, 0, &[KeyId::KeyH, KeyId::KeyI]);
    // "there" starts after the pause; the flush of "hi" precedes it
    all.extend(key_events(
        &mut core,
        500,
        &[KeyId::KeyT, KeyId::KeyH, KeyId::KeyE, KeyId::KeyR, KeyId::KeyE],
    ));
    if let Some(e) = core.finish(900) {
        all.push(e);
    }
    let texts = texts_of(&all);
    assert_eq!(texts.len(), 2);
    assert_eq!(texts[0], "hi");
    assert_eq!(texts[1], "there");
}

#[test]
fn click_flushes_pending_text_first() {
    let mut core = RecorderCore::new(5, 300);
    let mut all = key_events(&mut core, 0, &[KeyId::KeyO, KeyId::KeyK]);
    all.extend(core.on_raw(20, RawInput::ButtonPress { button: 0 }));
    // the forced flush must precede the click event
    assert!(matches!(all[all.len() - 2].data, EventData::Text { .. }));
    assert!(matches!(all[all.len() - 1].data, EventData::Click { .. }));
    let texts = texts_of(&all);
    assert_eq!(texts.len(), 1);
    assert_eq!(texts[0], "ok");
}

#[test]
fn clicks_are_stamped_with_last_reported_position() {
    let mut core = RecorderCore::new(5, 300);
    core.on_raw(0, RawInput::PointerMove { x: 30, y: 40 });
    core.on_raw(5, RawInput::PointerMove { x: 31, y: 41 }); // dropped: too close
    let evs = core.on_raw(10, RawInput::ButtonPress { button: 1 });
    assert_eq!(evs.len(), 1);
    match evs[0].data {
        EventData::Click { x, y, button, clicks, modifiers } => {
            assert_eq!((x, y), (30, 40));
            assert_eq!(button, 1);
            assert_eq!(clicks, 1);
            assert_eq!(modifiers, 0);
        }
        _ => panic!("expected a click event"),
    }
}

#[test]
fn focus_sequence_emits_exactly_the_changes() {
    let mut f = FocusTracker::new();
    let a = String::from("A");
    let b = String::from("B");
    let w1 = String::from("Win1");
    let w2 = String::from("Win2");
    let w3 = String::from("Win3");
    let mut all: Vec<Event> = Vec::new();
    all.extend(f.observe(0, &a, 1, &w1));
    all.extend(f.observe(100, &a, 1, &w1));
    all.extend(f.observe(200, &a, 1, &w2));
    all.extend(f.observe(300, &b, 2, &w3));
    let shapes: Vec<String> = all
        .iter()
        .map(|e| match &e.data {
            EventData::App { name, pid } => format!("App({},{})", name, pid),
            EventData::Window { app, title } => format!("Window({},{})", app, title),
            _ => String::from("other"),
        })
        .collect();
    assert_eq!(
        shapes,
        vec![
            String::from("App(A,1)"),
            String::from("Window(A,Win1)"),
            String::from("Window(A,Win2)"),
            String::from("App(B,2)"),
            String::from("Window(B,Win3)"),
        ]
    );
}

#[test]
fn queue_never_exceeds_capacity_and_drops_are_observable() {
    let mut q = BoundedQueue::new(5);
    let mut accepted = 0;
    for i in 0..8u64 {
        if q.push(Event { t: i, data: EventData::Move { x: 0, y: 0 } }) {
            accepted += 1;
        }
        assert!(q.len() <= q.capacity());
    }
    assert_eq!(accepted, 5);
    assert_eq!(q.len(), 5);
    assert_eq!(q.dropped_count(), 3);
}

#[test]
fn queue_drains_into_workflow_in_order() {
    let mut q = BoundedQueue::new(10);
    for i in 0..4u64 {
        q.push(Event { t: i * 10, data: EventData::Key { code: i as u16, modifiers: 0 } });
    }
    let mut w = RecordedWorkflow::new(String::from("session"), 7);
    q.drain_into(&mut w);
    assert_eq!(q.len(), 0);
    assert_eq!(w.len(), 4);
    for i in 0..4usize {
        assert_eq!(w.events[i].t, (i as u64) * 10);
        assert!(matches!(w.events[i].data, EventData::Key { code, .. } if code == i as u16));
    }
}

#[test]
fn workflow_push_clamps_backward_timestamps() {
    let mut w = RecordedWorkflow::new(String::from("s"), 0);
    w.push(Event { t: 100, data: EventData::Move { x: 1, y: 2 } });
    w.push(Event { t: 50, data: EventData::Move { x: 3, y: 4 } });
    assert_eq!(w.events[1].t, 100);
    assert_eq!(w.last_t(), 100);
}

#[test]
fn event_eq_compares_by_value() {
    let a = Event { t: 1, data: EventData::Text { text: String::from("x") } };
    let b = Event { t: 1, data: EventData::Text { text: String::from("x") } };
    let c = Event { t: 1, data: EventData::Text { text: String::from("y") } };
    assert!(event_eq(&a, &b));
    assert!(!event_eq(&a, &c));
    assert!(event_eq(&a, &a.clone()));
}

#[test]
fn recorder_defaults_and_permissions() {
    let r = WorkflowRecorder::new();
    assert_eq!(r.config.pointer_move_threshold, 5);
    assert_eq!(r.config.text_quiet_timeout_ms, 300);
    assert_eq!(r.config.max_buffered_events, 10000);
    assert!(!r.config.capture_element_context);
    let p = r.check_permissions();
    assert!(p.all_granted());
    assert!(PermissionStatus { accessibility: true, input_monitoring: false }.all_granted() == false);
    assert!(bigbrother::has_accessibility());
    assert!(bigbrother::request_accessibility());
    assert!(bigbrother::ensure_accessibility().is_ok());
    let c = RecorderConfig::default();
    assert_eq!(c.max_buffered_events, 10000);
}

#[test]
fn capture_session_start_stop_drains_buffered_events() {
    let rec = WorkflowRecorder::new();
    let (mut workflow, handle, mut feed) = rec.start(String::from("demo"), 123);
    assert_eq!(workflow.name, "demo");
    assert_eq!(workflow.created_ms, 123);
    assert!(handle.is_running());
    feed.on_raw(0, RawInput::PointerMove { x: 50, y: 60 });
    feed.on_raw(10, RawInput::ButtonPress { button: 0 });
    feed.finish(20);
    handle.stop(&mut workflow);
    assert_eq!(workflow.len(), 2);
    assert!(matches!(workflow.events[0].data, EventData::Move { x: 50, y: 60 }));
    assert!(matches!(workflow.events[1].data, EventData::Click { x: 50, y: 60, .. }));
}

#[test]
fn event_stream_hands_events_through() {
    let rec = WorkflowRecorder::new();
    let (stream, mut feed) = rec.stream();
    assert!(stream.is_running());
    feed.on_raw(0, RawInput::Wheel { dx: 0, dy: -3 });
    let e = stream.try_recv().expect("one event should be pending");
    assert!(matches!(e.data, EventData::Scroll { dy: -3, .. }));
    assert!(stream.try_recv().is_none());
    stream.stop();
    assert!(feed.stopped());
}

#[test]
fn text_aggregator_flush_carries_timestamp_of_flush() {
    let mut a = TextAggregator::new(100);
    assert!(a.on_char(0, 'h').is_none());
    assert!(a.on_char(50, 'i').is_none());
    let flushed = a.force_flush(60).expect("buffer was pending");
    assert_eq!(flushed.t, 60);
    assert!(matches!(flushed.data, EventData::Text { text } if text == "hi"));
    assert!(a.force_flush(70).is_none());
}
