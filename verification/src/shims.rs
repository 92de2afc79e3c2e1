//! Thin trusted shims over library functions that vstd gives no
//! specification for. Each shim wraps exactly one outside function and
//! states no more than that function's documentation promises.

use vstd::prelude::*;

use crate::event::Event;

verus! {

/// The sending half of a crossbeam channel, declared so the library can
/// hold and hand around values of it.
#[verifier::external_type_specification]
#[verifier::external_body]
#[verifier::reject_recursive_types(T)]
pub struct ExSender<T>(crossbeam_channel::Sender<T>);

/// The receiving half of a crossbeam channel.
#[verifier::external_type_specification]
#[verifier::external_body]
#[verifier::reject_recursive_types(T)]
pub struct ExReceiver<T>(crossbeam_channel::Receiver<T>);

/// Relies on String::push: appends one character at the end of the string.
#[verifier::external_body]
pub(crate) fn string_push_char(s: &mut String, c: char)
    ensures
        final(s)@ == old(s)@.push(c),
{
    s.push(c);
}


/// Relies on str::from_utf8: succeeds exactly on valid UTF-8, viewing the
/// given bytes.
#[verifier::external_body]
pub(crate) fn bytes_to_str(v: &[u8]) -> (r: Option<&str>)
    ensures
        match r {
            Some(s) => vstd::string::StringSliceAdditionalSpecFns::spec_bytes(s) == v@,
            None => !vstd::utf8::valid_utf8(v@),
        },
{
    std::str::from_utf8(v).ok()
}

/// Relies on crossbeam_channel::bounded: a channel that holds at most `cap`
/// messages at once.
#[verifier::external_body]
pub(crate) fn channel_bounded(cap: usize) -> (crossbeam_channel::Sender<Event>, crossbeam_channel::Receiver<Event>) {
    crossbeam_channel::bounded(cap)
}

/// Relies on Sender::try_send: delivers without ever blocking; a full or
/// disconnected channel refuses the message, which is then dropped. What the
/// channel holds is shared with other threads, so nothing can be promised of
/// the outcome.
#[verifier::external_body]
pub(crate) fn channel_try_send(tx: &crossbeam_channel::Sender<Event>, e: Event) -> bool {
    tx.try_send(e).is_ok()
}

/// Relies on Receiver::try_recv: takes a pending message without blocking,
/// or nothing.
#[verifier::external_body]
pub(crate) fn channel_try_recv(rx: &crossbeam_channel::Receiver<Event>) -> Option<Event> {
    rx.try_recv().ok()
}

/// Relies on Receiver::recv: blocks until a message arrives or every sender
/// is gone; the wait is unbounded while producers stay silent but alive.
#[verifier::external_body]
pub(crate) fn channel_recv(rx: &crossbeam_channel::Receiver<Event>) -> Option<Event> {
    rx.recv().ok()
}

/// Relies on Receiver::recv_timeout: waits at most the given milliseconds.
#[verifier::external_body]
pub(crate) fn channel_recv_timeout(rx: &crossbeam_channel::Receiver<Event>, ms: u64) -> Option<
    Event,
> {
    rx.recv_timeout(core::time::Duration::from_millis(ms)).ok()
}

/// Relies on Arc::new around AtomicBool::new: a fresh shared stop flag,
/// initially clear.
#[verifier::external_body]
pub(crate) fn flag_new() -> std::sync::Arc<std::sync::atomic::AtomicBool> {
    std::sync::Arc::new(std::sync::atomic::AtomicBool::new(false))
}

/// Relies on AtomicBool::load: reads the flag; other threads may move it at
/// any moment, so nothing is promised of the value.
#[verifier::external_body]
pub(crate) fn flag_load(f: &std::sync::Arc<std::sync::atomic::AtomicBool>) -> bool {
    f.load(std::sync::atomic::Ordering::SeqCst)
}

/// Relies on AtomicBool::store: sets the flag.
#[verifier::external_body]
pub(crate) fn flag_store(f: &std::sync::Arc<std::sync::atomic::AtomicBool>, v: bool) {
    f.store(v, std::sync::atomic::Ordering::SeqCst);
}

/// Relies on Arc::clone: another handle to the same flag.
#[verifier::external_body]
pub(crate) fn flag_clone(f: &std::sync::Arc<std::sync::atomic::AtomicBool>) -> std::sync::Arc<
    std::sync::atomic::AtomicBool,
> {
    std::sync::Arc::clone(f)
}

} // verus!
