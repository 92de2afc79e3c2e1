//! The workflow recorder: configuration, permissions, and the hand-off
//! between producer threads and the consumer.
//!
//! Two producers — an input-hook thread and a focus-poll thread, both run by
//! the host — shape raw samples through a [`CaptureFeed`] and push the
//! resulting events into one bounded channel. The only shared state is that
//! channel and an atomic stop flag. When the channel is full the newest
//! event is dropped, never the producer blocked: blocking the hook thread
//! would stall all system input delivery, so capture is best-effort,
//! at-most-once. A producer sitting inside a native blocking listen call may
//! not observe the stop flag until its next event fires; shutdown latency is
//! therefore not guaranteed bounded.

use vstd::prelude::*;

use crate::aggregate::{FocusTracker, RawInput, RecorderCore};
use crate::event::{Event, RecordedWorkflow};
use crate::shims::{
    channel_bounded, channel_recv, channel_recv_timeout, channel_try_recv,
    channel_try_send, flag_clone, flag_load, flag_new, flag_store,
};

verus! {

/// Recording configuration, with the options every host recognizes.
pub struct RecorderConfig {
    /// Minimum pixel distance between two recorded pointer moves.
    pub pointer_move_threshold: u32,
    /// Milliseconds of inactivity after which aggregated text flushes.
    pub text_quiet_timeout_ms: u64,
    /// The bound on the event queue between producers and consumer.
    pub max_buffered_events: usize,
    /// Whether clicks attach a resolved selector for later re-targeting.
    pub capture_element_context: bool,
}

impl Clone for RecorderConfig {
    fn clone(&self) -> (c: Self)
        ensures
            c == *self,
    {
        RecorderConfig {
            pointer_move_threshold: self.pointer_move_threshold,
            text_quiet_timeout_ms: self.text_quiet_timeout_ms,
            max_buffered_events: self.max_buffered_events,
            capture_element_context: self.capture_element_context,
        }
    }
}

impl Default for RecorderConfig {
    /// The defaults: a five-pixel move threshold, a 300 ms text quiet
    /// timeout, room for ten thousand buffered events, and no element
    /// context on clicks.
    fn default() -> (c: Self)
        ensures
            c.pointer_move_threshold == 5,
            c.text_quiet_timeout_ms == 300,
            c.max_buffered_events == 10000,
            !c.capture_element_context,
    {
        RecorderConfig {
            pointer_move_threshold: 5,
            text_quiet_timeout_ms: 300,
            max_buffered_events: 10000,
            capture_element_context: false,
        }
    }
}

/// What the host granted the recorder.
#[derive(Clone, Copy, Debug, PartialEq, Eq, Structural)]
pub struct PermissionStatus {
    /// Whether accessibility queries are allowed.
    pub accessibility: bool,
    /// Whether global input monitoring is allowed.
    pub input_monitoring: bool,
}

impl PermissionStatus {
    /// Whether everything recording needs was granted.
    pub fn all_granted(&self) -> (r: bool)
        ensures
            r == (self.accessibility && self.input_monitoring),
    {
        self.accessibility && self.input_monitoring
    }
}

/// The producer side of a capture session: the shaping state plus the
/// sending half of the event channel. The host's hook thread feeds raw
/// input samples in; the host's poll thread feeds focus readings in.
pub struct CaptureFeed {
    /// Pointer sampling and text aggregation state.
    pub core: RecorderCore,
    /// Focus tracking state.
    pub focus: FocusTracker,
    /// The sending half of the event channel.
    pub tx: crossbeam_channel::Sender<Event>,
    /// The shared stop flag.
    pub stop: std::sync::Arc<std::sync::atomic::AtomicBool>,
}

impl CaptureFeed {
    /// Whether the consumer asked capture to stop. A producer should check
    /// this on every delivery and fall silent once it reads true.
    pub fn stopped(&self) -> bool {
        flag_load(&self.stop)
    }

    /// Shapes one raw input sample and offers the resulting events to the
    /// channel, oldest first; events the full channel refuses are dropped.
    pub fn on_raw(&mut self, t: u64, raw: RawInput) -> (delivered: usize)
        ensures
            final(self).core.text.quiet_timeout == old(self).core.text.quiet_timeout,
            final(self).core.sampler == old(self).core.step_sampler(t, raw),
            final(self).core.text.last_input == old(self).core.step_last_input(t, raw),
            final(self).core.text.buf@ == old(self).core.step_buf(t, raw),
            final(self).focus == old(self).focus,
            delivered <= old(self).core.step_events(t, raw).len(),
    {
        let events = self.core.on_raw(t, raw);
        self.send_all(&events)
    }

    /// Takes one focus poll reading and offers the change events it calls
    /// for to the channel.
    pub fn on_focus(&mut self, t: u64, name: &String, pid: i32, title: &String) -> (delivered:
        usize)
        ensures
            final(self).core == old(self).core,
            final(self).focus.app is Some,
            (final(self).focus.app->0).0@ == name@,
            (final(self).focus.app->0).1 == pid,
            final(self).focus.window is Some,
            final(self).focus.window->0@ == title@,
            delivered <= old(self).focus.observe_events(t, name@, pid, title@).len(),
    {
        let events = self.focus.observe(t, name, pid, title);
        self.send_all(&events)
    }

    /// Flushes any pending text run and offers it to the channel; called by
    /// the host right before its producer thread falls silent.
    pub fn finish(&mut self, t: u64) -> (delivered: usize)
        ensures
            !final(self).core.text.accumulating(),
            delivered <= 1,
    {
        match self.core.finish(t) {
            Some(e) => {
                if channel_try_send(&self.tx, e) {
                    1
                } else {
                    0
                }
            },
            None => 0,
        }
    }

    fn send_all(&self, events: &Vec<Event>) -> (delivered: usize)
        ensures
            delivered <= events@.len(),
    {
        let mut delivered: usize = 0;
        let n = events.len();
        let mut i: usize = 0;
        while i < n
            invariant
                delivered <= i <= n,
                n == events@.len(),
            decreases n - i,
        {
            if channel_try_send(&self.tx, events[i].clone()) {
                delivered = delivered + 1;
            }
            i = i + 1;
        }
        delivered
    }
}

/// A handle on a recording in progress: stop it, or drain what the
/// producers have delivered so far.
pub struct RecordingHandle {
    stop: std::sync::Arc<std::sync::atomic::AtomicBool>,
    rx: crossbeam_channel::Receiver<Event>,
    cap: usize,
}

impl RecordingHandle {
    /// Whether the recording is still running.
    pub fn is_running(&self) -> bool {
        !flag_load(&self.stop)
    }

    /// The receiving half of the event channel, for hosts that select on it.
    pub fn receiver(&self) -> &crossbeam_channel::Receiver<Event> {
        &self.rx
    }

    /// One delivered event, if any is pending; never blocks.
    pub fn try_recv(&self) -> Option<Event> {
        channel_try_recv(&self.rx)
    }

    /// One delivered event; blocks until a producer delivers or every
    /// producer is gone.
    pub fn recv(&self) -> Option<Event> {
        channel_recv(&self.rx)
    }

    /// One delivered event, waiting at most the given milliseconds.
    pub fn recv_timeout(&self, ms: u64) -> Option<Event> {
        channel_recv_timeout(&self.rx, ms)
    }

    /// Moves every event delivered so far into the workflow, in delivery
    /// order, timestamps clamped to keep the workflow invariant. One call
    /// moves at most the channel's capacity many events — the channel never
    /// holds more at once.
    pub fn drain(&self, workflow: &mut RecordedWorkflow)
        requires
            old(workflow).wf(),
        ensures
            final(workflow).wf(),
            final(workflow).name == old(workflow).name,
            final(workflow).created_ms == old(workflow).created_ms,
            final(workflow).events@.len() >= old(workflow).events@.len(),
    {
        let mut i: usize = 0;
        while i < self.cap
            invariant
                workflow.wf(),
                workflow.name == old(workflow).name,
                workflow.created_ms == old(workflow).created_ms,
                workflow.events@.len() >= old(workflow).events@.len(),
            decreases self.cap - i,
        {
            match channel_try_recv(&self.rx) {
                Some(e) => workflow.push(e),
                None => {
                    break ;
                },
            }
            i = i + 1;
        }
    }

    /// Stops the recording: raises the stop flag, then drains every event
    /// already buffered into the workflow. Producer threads observe the flag
    /// on their next delivery; the host joins them afterwards.
    pub fn stop(self, workflow: &mut RecordedWorkflow)
        requires
            old(workflow).wf(),
        ensures
            final(workflow).wf(),
            final(workflow).name == old(workflow).name,
            final(workflow).created_ms == old(workflow).created_ms,
    {
        flag_store(&self.stop, true);
        self.drain(workflow);
    }
}

/// A live event stream: a lazy sequence of events for direct consumption,
/// ended by `stop`. Restartable per call, not rewindable.
pub struct EventStream {
    stop: std::sync::Arc<std::sync::atomic::AtomicBool>,
    rx: crossbeam_channel::Receiver<Event>,
}

impl EventStream {
    /// Whether the stream is still running.
    pub fn is_running(&self) -> bool {
        !flag_load(&self.stop)
    }

    /// The receiving half of the event channel, for hosts that select on it.
    pub fn receiver(&self) -> &crossbeam_channel::Receiver<Event> {
        &self.rx
    }

    /// One event, if any is pending; never blocks.
    pub fn try_recv(&self) -> Option<Event> {
        channel_try_recv(&self.rx)
    }

    /// One event; blocks until a producer delivers or every producer is gone.
    pub fn recv(&self) -> Option<Event> {
        channel_recv(&self.rx)
    }

    /// One event, waiting at most the given milliseconds.
    pub fn recv_timeout(&self, ms: u64) -> Option<Event> {
        channel_recv_timeout(&self.rx, ms)
    }

    /// The next event of the stream, or nothing once the stream was stopped.
    pub fn next_event(&self) -> Option<Event> {
        if flag_load(&self.stop) {
            None
        } else {
            channel_recv(&self.rx)
        }
    }

    /// Ends the stream: producers observe the flag on their next delivery.
    pub fn stop(self) {
        flag_store(&self.stop, true);
    }
}

/// The workflow recorder: holds the configuration and opens capture
/// sessions.
pub struct WorkflowRecorder {
    /// The configuration every session this recorder opens will use.
    pub config: RecorderConfig,
}

impl WorkflowRecorder {
    /// A recorder with the default configuration.
    pub fn new() -> (r: WorkflowRecorder)
        ensures
            r.config.pointer_move_threshold == 5,
            r.config.text_quiet_timeout_ms == 300,
            r.config.max_buffered_events == 10000,
            !r.config.capture_element_context,
    {
        WorkflowRecorder { config: RecorderConfig::default() }
    }

    /// A recorder with the given configuration.
    pub fn with_config(config: RecorderConfig) -> (r: WorkflowRecorder)
        ensures
            r.config == config,
    {
        WorkflowRecorder { config }
    }

    /// What the host granted. The hosts this build targets need no explicit
    /// grants, so everything reports granted.
    pub fn check_permissions(&self) -> (p: PermissionStatus)
        ensures
            p.accessibility,
            p.input_monitoring,
    {
        PermissionStatus { accessibility: true, input_monitoring: true }
    }

    /// Requests whatever is missing and reports the outcome; idempotent.
    pub fn request_permissions(&self) -> (p: PermissionStatus)
        ensures
            p.accessibility,
            p.input_monitoring,
    {
        self.check_permissions()
    }

    /// Opens a capture session that records into a named workflow: the
    /// workflow to fill, the consumer's handle, and the producers' feed.
    /// The host runs the hook and poll threads against the feed; `stop` on
    /// the handle drains whatever was buffered into the workflow.
    pub fn start(&self, name: String, created_ms: u64) -> (r: (
        RecordedWorkflow,
        RecordingHandle,
        CaptureFeed,
    ))
        ensures
            r.0.wf(),
            r.0.name == name,
            r.0.created_ms == created_ms,
            r.0.events@.len() == 0,
            r.2.core.sampler.threshold == self.config.pointer_move_threshold,
            r.2.core.text.quiet_timeout == self.config.text_quiet_timeout_ms,
            !r.2.core.text.accumulating(),
            r.2.focus.app is None,
            r.2.focus.window is None,
    {
        let workflow = RecordedWorkflow::new(name, created_ms);
        let (handle, feed) = self.open_channel();
        (workflow, handle, feed)
    }

    /// Opens a capture session as a live event stream.
    pub fn stream(&self) -> (r: (EventStream, CaptureFeed))
        ensures
            r.1.core.sampler.threshold == self.config.pointer_move_threshold,
            r.1.core.text.quiet_timeout == self.config.text_quiet_timeout_ms,
            !r.1.core.text.accumulating(),
            r.1.focus.app is None,
            r.1.focus.window is None,
    {
        let (tx, rx) = channel_bounded(self.config.max_buffered_events);
        let stop = flag_new();
        let feed = CaptureFeed {
            core: RecorderCore::new(
                self.config.pointer_move_threshold,
                self.config.text_quiet_timeout_ms,
            ),
            focus: FocusTracker::new(),
            tx,
            stop: flag_clone(&stop),
        };
        (EventStream { stop, rx }, feed)
    }

    fn open_channel(&self) -> (r: (RecordingHandle, CaptureFeed))
        ensures
            r.1.core.sampler.threshold == self.config.pointer_move_threshold,
            r.1.core.text.quiet_timeout == self.config.text_quiet_timeout_ms,
            !r.1.core.text.accumulating(),
            r.1.focus.app is None,
            r.1.focus.window is None,
    {
        let (tx, rx) = channel_bounded(self.config.max_buffered_events);
        let stop = flag_new();
        let feed = CaptureFeed {
            core: RecorderCore::new(
                self.config.pointer_move_threshold,
                self.config.text_quiet_timeout_ms,
            ),
            focus: FocusTracker::new(),
            tx,
            stop: flag_clone(&stop),
        };
        (RecordingHandle { stop, rx, cap: self.config.max_buffered_events }, feed)
    }
}

impl Default for WorkflowRecorder {
    fn default() -> (r: Self)
        ensures
            r.config.pointer_move_threshold == 5,
            r.config.text_quiet_timeout_ms == 300,
            r.config.max_buffered_events == 10000,
            !r.config.capture_element_context,
    {
        WorkflowRecorder::new()
    }
}

} // verus!
