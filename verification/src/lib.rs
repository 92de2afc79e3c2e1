//! A capture/replay engine and element locator for desktop automation.
//!
//! The library observes and drives a desktop through externally supplied
//! capabilities — raw input hooks, focus polling, accessibility-tree queries
//! and input injection — and owns everything between them: shaping raw input
//! samples into a canonical event stream, recording that stream as a named
//! workflow, persisting and reloading workflows, resolving selectors against
//! an accessibility tree with polling and timeouts, and replaying a workflow
//! with its original pacing.

use vstd::prelude::*;

pub mod aggregate;
pub mod codec;
pub mod error;
pub mod event;
pub mod keymap;
pub mod locator;
pub mod queue;
pub mod recorder;
pub mod replay;
pub mod selector;
pub(crate) mod shims;
pub mod tree;

verus! {

/// Whether the process can use the host's accessibility interfaces.
///
/// This build targets hosts whose automation interfaces need no per-process
/// grant, so the capability is always present; the function is the explicit,
/// idempotent capability check that callers invoke once at startup.
pub fn has_accessibility() -> (granted: bool)
    ensures
        granted,
{
    true
}

/// Asks the host to grant accessibility, and reports the outcome.
///
/// On hosts without a per-process grant there is nothing to request, so the
/// request always succeeds. Idempotent.
pub fn request_accessibility() -> (granted: bool)
    ensures
        granted,
{
    true
}

/// Ensures the accessibility capability is available, as a result.
///
/// The error branch is unreachable on hosts without a per-process grant; the
/// `Result` shape is the boundary contract every host sees.
pub fn ensure_accessibility() -> (r: Result<(), crate::error::Error>)
    ensures
        r is Ok,
{
    if has_accessibility() {
        Ok(())
    } else {
        Err(
            crate::error::Error::new(
                crate::error::ErrorCode::PermissionDenied,
                String::from_str("accessibility permission was not granted"),
            ),
        )
    }
}

} // verus!
