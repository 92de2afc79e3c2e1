use bigbrother::codec::{decode_workflow, encode_workflow};
use bigbrother::event::{Event, EventData, RecordedWorkflow, event_eq};
use bigbrother::replay::{
    ReplayMode, ReplaySpeed, ReplayStats, StepOutcome, build_plan, plan_total_wait,
};

fn sample_workflow() -> RecordedWorkflow {
    let mut w = RecordedWorkflow::new(String::from("morning routine"), 1700000000000);
    w.push(Event { t: 100, data: EventData::Move { x: -5, y: 12 } });
    w.push(Event {
        t: 250,
        data: EventData::Click { x: -5, y: 12, button: 0, clicks: 1, modifiers: 2 },
    });
    w.push(Event { t: 260, data: EventData::Scroll { x: -5, y: 12, dx: -1, dy: 3 } });
    w.push(Event { t: 300, data: EventData::Key { code: 0x41, modifiers: 0 } });
    w.push(Event { t: 400, data: EventData::Text { text: String::from("héllo wörld") } });
    w.push(Event { t: 450, data: EventData::App { name: String::from("Editor"), pid: -7 } });
    w.push(Event {
        t: 500,
        data: EventData::Window { app: String::from("Editor"), title: String::from("notes.txt") },
    });
    w
}

#[test]
fn plan_preserves_count_order_and_gaps() {
    let w = sample_workflow();
    let plan = build_plan(&w, ReplaySpeed::unit());
    assert_eq!(plan.len(), w.len());
    for (i, step) in plan.iter().enumerate() {
        assert_eq!(step.index, i);
    }
    let waits: Vec<u64> = plan.iter().map(|s| s.wait_ms).collect();
    assert_eq!(waits, vec![100, 150, 10, 40, 100, 50, 50]);
}

#[test]
fn total_wait_at_unit_speed_is_the_last_timestamp() {
    let w = sample_workflow();
    let plan = build_plan(&w, ReplaySpeed::unit());
    assert_eq!(plan_total_wait(&plan), 500);
    let empty = RecordedWorkflow::new(String::from("empty"), 0);
    let plan2 = build_plan(&empty, ReplaySpeed::unit());
    assert_eq!(plan_total_wait(&plan2), 0);
}

#[test]
fn speed_scales_every_gap() {
    let w = sample_workflow();
    let double = build_plan(&w, ReplaySpeed { num: 2, den: 1 });
    let waits: Vec<u64> = double.iter().map(|s| s.wait_ms).collect();
    assert_eq!(waits, vec![200, 300, 20, 80, 200, 100, 100]);
    let half = build_plan(&w, ReplaySpeed { num: 1, den: 2 });
    let waits2: Vec<u64> = half.iter().map(|s| s.wait_ms).collect();
    assert_eq!(waits2, vec![50, 75, 5, 20, 50, 25, 25]);
}

#[test]
fn stats_count_outcomes_and_fail_fast_aborts() {
    let mut stats = ReplayStats::new();
    assert!(!stats.record(ReplayMode::BestEffort, StepOutcome::Replayed));
    assert!(!stats.record(ReplayMode::BestEffort, StepOutcome::Skipped));
    assert!(!stats.record(ReplayMode::BestEffort, StepOutcome::Failed));
    assert!(!stats.record(ReplayMode::BestEffort, StepOutcome::Replayed));
    assert_eq!(stats.replayed, 2);
    assert_eq!(stats.skipped, 1);
    assert_eq!(stats.failed, 1);
    let mut strict = ReplayStats::new();
    assert!(strict.record(ReplayMode::FailFast, StepOutcome::Failed));
    assert_eq!(strict.failed, 1);
}

#[test]
fn workflow_round_trips_through_the_codec() {
    let w = sample_workflow();
    let bytes = encode_workflow(&w);
    let back = decode_workflow(&bytes).expect("an encoding must decode");
    assert_eq!(back.name, w.name);
    assert_eq!(back.created_ms, w.created_ms);
    assert_eq!(back.events.len(), w.events.len());
    for (a, b) in w.events.iter().zip(back.events.iter()) {
        assert!(event_eq(a, b));
    }
}

#[test]
fn empty_workflow_round_trips() {
    let w = RecordedWorkflow::new(String::new(), 0);
    let bytes = encode_workflow(&w);
    let back = decode_workflow(&bytes).expect("an encoding must decode");
    assert_eq!(back.name, "");
    assert_eq!(back.events.len(), 0);
}

#[test]
fn decoder_rejects_malformed_bytes() {
    assert!(decode_workflow(&Vec::new()).is_none());
    assert!(decode_workflow(&vec![0u8; 7]).is_none());
    let w = sample_workflow();
    let mut bytes = encode_workflow(&w);
    bytes.pop(); // truncated
    assert!(decode_workflow(&bytes).is_none());
    let mut padded = encode_workflow(&w);
    padded.push(0); // trailing garbage
    assert!(decode_workflow(&padded).is_none());
    let mut bad_tag = encode_workflow(&RecordedWorkflow::new(String::new(), 0));
    // one event announced, none present
    let n = bad_tag.len();
    bad_tag[n - 8] = 1;
    assert!(decode_workflow(&bad_tag).is_none());
}

#[test]
fn decoder_rejects_backward_timestamps() {
    // splice two encodings so the count says two but times run backwards
    let mut w1 = RecordedWorkflow::new(String::new(), 0);
    w1.push(Event { t: 100, data: EventData::Move { x: 0, y: 0 } });
    let mut w2 = RecordedWorkflow::new(String::new(), 0);
    w2.push(Event { t: 50, data: EventData::Move { x: 0, y: 0 } });
    let b1 = encode_workflow(&w1);
    let b2 = encode_workflow(&w2);
    let header = 8 + 8 + 8; // empty name, anchor, count
    let mut spliced: Vec<u8> = Vec::new();
    spliced.extend_from_slice(&b1[0..8]); // empty name
    spliced.extend_from_slice(&b1[8..16]); // anchor
    spliced.extend_from_slice(&2u64.to_le_bytes()); // count: two events
    spliced.extend_from_slice(&b1[header..]); // event at t=100
    spliced.extend_from_slice(&b2[header..]); // event at t=50
    assert!(decode_workflow(&spliced).is_none());
}
