//! The locator: a selector, a scope, and a timeout, resolved against the
//! live tree with polling and disambiguation.
//!
//! One traversal (`find_all`) never waits and an empty result is not an
//! error. A waiting find re-traverses the tree at a fixed polling interval —
//! the host supplies the snapshot each attempt reads — until at least one
//! match exists or the timeout is exhausted, and then fails with
//! `ElementNotFound`. Every wait-bounded operation terminates within the
//! timeout plus one polling interval; the completion-time law is proved
//! below. Where several nodes match, the first match in visitation order
//! wins — an explicit design choice.

use vstd::prelude::*;

use crate::error::{Error, ErrorCode};
use crate::selector::Selector;
use crate::tree::{ElementInfo, ElementInfoV, UiNode, dfs_hits, infos_view};

verus! {

/// The largest timeout and polling interval a locator accepts, in
/// milliseconds: about twelve days. The bound keeps every elapsed-time
/// computation inside `u64`.
pub const MAX_WAIT_MS: u64 = 0x40000000;

/// A selector bound to a scope: how deep to traverse, how long to wait, and
/// how often to re-traverse while waiting.
pub struct Locator {
    /// What to match.
    pub selector: Selector,
    /// How long a waiting find may keep trying, in milliseconds.
    pub timeout_ms: u64,
    /// How long to sleep between two traversals, in milliseconds.
    pub poll_interval_ms: u64,
    /// How many levels below the root a traversal may descend.
    pub max_depth: usize,
}

impl Locator {
    /// The bounds every locator keeps: a positive polling interval, and
    /// waits small enough that no elapsed-time computation can overflow.
    pub open spec fn wf(&self) -> bool {
        1 <= self.poll_interval_ms <= MAX_WAIT_MS && self.timeout_ms <= MAX_WAIT_MS
    }

    /// A locator over the given selector, waiting up to five seconds at a
    /// tenth-of-a-second polling interval, traversing at most 25 levels.
    pub fn new(selector: Selector) -> (l: Locator)
        ensures
            l.wf(),
            l.selector == selector,
            l.timeout_ms == 5000,
            l.poll_interval_ms == 100,
            l.max_depth == 25,
    {
        Locator { selector, timeout_ms: 5000, poll_interval_ms: 100, max_depth: 25 }
    }

    /// The same locator with another timeout, clamped to the supported top.
    pub fn timeout(self, ms: u64) -> (l: Locator)
        requires
            self.wf(),
        ensures
            l.wf(),
            l.selector == self.selector,
            l.poll_interval_ms == self.poll_interval_ms,
            l.max_depth == self.max_depth,
            l.timeout_ms == if ms <= MAX_WAIT_MS {
                ms
            } else {
                MAX_WAIT_MS
            },
    {
        let t = if ms <= MAX_WAIT_MS {
            ms
        } else {
            MAX_WAIT_MS
        };
        Locator { timeout_ms: t, ..self }
    }

    /// The same locator with another polling interval, clamped into the
    /// supported range.
    pub fn poll_interval(self, ms: u64) -> (l: Locator)
        requires
            self.wf(),
        ensures
            l.wf(),
            l.selector == self.selector,
            l.timeout_ms == self.timeout_ms,
            l.max_depth == self.max_depth,
            l.poll_interval_ms == if ms < 1 {
                1u64
            } else if ms <= MAX_WAIT_MS {
                ms
            } else {
                MAX_WAIT_MS
            },
    {
        let p = if ms < 1 {
            1
        } else if ms <= MAX_WAIT_MS {
            ms
        } else {
            MAX_WAIT_MS
        };
        Locator { poll_interval_ms: p, ..self }
    }

    /// How many traversals a waiting find makes: one at once, then one per
    /// polling interval until the timeout is exhausted.
    pub open spec fn spec_attempts(&self) -> int {
        (self.timeout_ms + self.poll_interval_ms - 1) as int / self.poll_interval_ms as int + 1
    }

    /// Counts the traversals a waiting find will make.
    pub fn attempts(&self) -> (n: u64)
        requires
            self.wf(),
        ensures
            n == self.spec_attempts(),
    {
        (self.timeout_ms + self.poll_interval_ms - 1) / self.poll_interval_ms + 1
    }

    /// What one traversal of `root` selects: every match in visitation
    /// order; under an `index:N` token, the Nth match of this traversal
    /// alone, or nothing when fewer matched.
    pub open spec fn spec_select(&self, root: UiNode) -> Seq<ElementInfoV> {
        let m = dfs_hits(root, self.selector@.predicates, self.max_depth as int);
        match self.selector@.index {
            None => m,
            Some(i) => if i < m.len() {
                seq![m[i as int]]
            } else {
                Seq::empty()
            },
        }
    }

    /// One traversal, no waiting: every current match. An empty result is
    /// not an error.
    pub fn find_all(&self, root: &UiNode) -> (out: Vec<ElementInfo>)
        ensures
            infos_view(out@) == self.spec_select(*root),
    {
        let m = crate::tree::find_matches(root, &self.selector.predicates, self.max_depth);
        match self.selector.index {
            None => m,
            Some(i) => {
                let mut out: Vec<ElementInfo> = Vec::new();
                if i < m.len() {
                    out.push(m[i].clone());
                    proof {
                        assert(infos_view(out@) =~= seq![infos_view(m@)[i as int]]);
                    }
                } else {
                    proof {
                        assert(infos_view(out@) =~= Seq::<ElementInfoV>::empty());
                    }
                }
                out
            },
        }
    }

    /// The first round whose traversal selects at least one element,
    /// scanning from round `k` on.
    pub open spec fn spec_first_hit(&self, rounds: Seq<UiNode>, k: int) -> Option<int>
        decreases rounds.len() - k,
    {
        if k < 0 || k >= rounds.len() {
            None
        } else if self.spec_select(rounds[k]).len() > 0 {
            Some(k)
        } else {
            self.spec_first_hit(rounds, k + 1)
        }
    }

    /// A waiting find, against the tree snapshots the host read — one per
    /// attempt, the first at once and each further one a polling interval
    /// later. Succeeds with the first match of the first round that has
    /// one, together with the elapsed wait; fails with `ElementNotFound`
    /// exactly when no round matched, which the completion law below places
    /// within timeout plus one polling interval.
    pub fn find_in_rounds(&self, rounds: &Vec<UiNode>) -> (r: Result<(ElementInfo, u64), Error>)
        requires
            self.wf(),
            rounds@.len() == self.spec_attempts(),
        ensures
            match r {
                Ok(hit) => {
                    let k = self.spec_first_hit(rounds@, 0);
                    &&& k is Some
                    &&& hit.0@ == self.spec_select(rounds@[k->0])[0]
                    &&& hit.1 == k->0 * self.poll_interval_ms
                },
                Err(e) => self.spec_first_hit(rounds@, 0) is None && e.code
                    == ErrorCode::ElementNotFound,
            },
    {
        let n = rounds.len();
        let mut k: usize = 0;
        let mut elapsed: u64 = 0;
        proof {
            lemma_attempts_elapsed_bound(self.timeout_ms, self.poll_interval_ms);
        }
        while k < n
            invariant
                0 <= k <= n,
                n == rounds@.len(),
                n == self.spec_attempts(),
                self.wf(),
                elapsed == k * self.poll_interval_ms,
                elapsed <= self.timeout_ms + 2 * self.poll_interval_ms,
                (self.spec_attempts() - 1) * self.poll_interval_ms <= self.timeout_ms
                    + self.poll_interval_ms,
                self.spec_first_hit(rounds@, 0) == self.spec_first_hit(rounds@, k as int),
            decreases n - k,
        {
            let m = self.find_all(&rounds[k]);
            if m.len() > 0 {
                let e = m[0].clone();
                proof {
                    assert(infos_view(m@)[0] == self.spec_select(rounds@[k as int])[0]);
                }
                return Ok((e, elapsed));
            }
            proof {
                let p = self.poll_interval_ms as int;
                let a = self.spec_attempts();
                assert((k + 1) * p == k * p + p) by (nonlinear_arith);
                assert(k * p <= (a - 1) * p) by (nonlinear_arith)
                    requires
                        0 <= k <= a - 1,
                        p >= 0,
                ;
            }
            elapsed = elapsed + self.poll_interval_ms;
            k = k + 1;
        }
        Err(
            Error::new(
                ErrorCode::ElementNotFound,
                String::from_str("no element matched the selector within the timeout"),
            ),
        )
    }
}

/// The completion-time law of a waiting find: the wait it makes before
/// giving up — one polling interval between each two of its attempts —
/// reaches the timeout and stays under timeout plus one interval.
pub proof fn lemma_find_completion(l: Locator)
    requires
        l.wf(),
    ensures
        l.timeout_ms <= (l.spec_attempts() - 1) * l.poll_interval_ms,
        (l.spec_attempts() - 1) * l.poll_interval_ms < l.timeout_ms + l.poll_interval_ms,
{
    lemma_attempts_elapsed_bound(l.timeout_ms, l.poll_interval_ms);
}

proof fn lemma_attempts_elapsed_bound(t: u64, p: u64)
    requires
        1 <= p,
    ensures
        t <= ((t + p - 1) as int / p as int) * p,
        ((t + p - 1) as int / p as int) * p < t + p,
{
    let x = (t + p - 1) as int;
    let q = x / p as int;
    assert(q * p <= x && x - p < q * p) by (nonlinear_arith)
        requires
            q == x / p as int,
            p >= 1,
            x >= 0,
    ;
}

} // verus!
