//! The connection manager's bookkeeping: a bounded retry loop with an
//! increasing, capped backoff, and the classification of close reasons.
//!
//! The manager owns no transport. The caller performs each connect attempt
//! and reports its outcome; the manager decides whether to stop gracefully,
//! retry after a delay, or give up, and it never allows an attempt beyond the
//! fixed ceiling.

use vstd::prelude::*;

use crate::text::{seq_contains, str_contains};

verus! {

/// The fixed ceiling on connect attempts.
pub const MAX_CONNECTION_ATTEMPTS: u64 = 3;

/// The backoff delay grows by this many milliseconds times the attempt index.
pub const BACKOFF_STEP_MS: u64 = 200;

/// The backoff delay never exceeds this many milliseconds.
pub const BACKOFF_CAP_MS: u64 = 5000;

/// The backoff delay before the attempt that follows `k` failures: zero at
/// first, growing by the step times the failure index, capped.
pub open spec fn retry_delay(k: nat) -> nat
    decreases k,
{
    if k == 0 {
        0
    } else {
        let grown = retry_delay((k - 1) as nat) + BACKOFF_STEP_MS * (k - 1);
        if grown > BACKOFF_CAP_MS {
            BACKOFF_CAP_MS as nat
        } else {
            grown as nat
        }
    }
}

/// The sequence of retry delays starts at zero, never decreases, and never
/// exceeds the cap.
pub proof fn lemma_backoff_monotone(k: nat)
    ensures
        retry_delay(0) == 0,
        retry_delay(k) <= retry_delay(k + 1),
        retry_delay(k) <= BACKOFF_CAP_MS,
{
    if k > 0 {
        assert(retry_delay(k) <= BACKOFF_CAP_MS);
    }
}

/// A close reason that means the server ended an idle connection because it
/// had no subscriptions to serve: a graceful end, not a failure.
pub open spec fn spec_is_graceful_close(reason: Seq<char>) -> bool {
    seq_contains(reason, "No more requests to fulfill"@)
}

/// Classifies a close reason as a graceful idle-connection end.
pub fn is_graceful_close(reason: &str) -> (r: bool)
    ensures
        r == spec_is_graceful_close(reason@),
{
    str_contains(reason, "No more requests to fulfill")
}

/// The lifecycle of one managed connection.
#[derive(Clone, Copy, Debug, PartialEq, Eq, Structural)]
pub enum ConnState {
    /// No attempt has been made yet.
    Idle,
    /// An attempt is in flight or will be retried.
    Connecting,
    /// The connection ran and ended gracefully.
    Disconnected,
    /// The attempt ceiling was exhausted; terminal.
    Failed,
}

/// What the caller must do after reporting a failed attempt.
#[derive(Clone, Debug, PartialEq, Eq, Structural)]
pub enum FailureAction {
    /// The close was a graceful idle-connection end: stop and report success.
    GracefulStop,
    /// Wait for the given delay and attempt again.
    Retry { delay_ms: u64 },
    /// The attempt ceiling is reached: stop and report a terminal failure.
    GiveUp,
}

/// Bookkeeping for one push-protocol connection: how many attempts failed,
/// the delay before the next one, and the lifecycle state.
pub struct ConnectionManager {
    /// Number of failed attempts so far.
    pub attempts: u64,
    /// Backoff delay before the next attempt, in milliseconds.
    pub next_delay_ms: u64,
    /// Lifecycle state.
    pub state: ConnState,
}

impl ConnectionManager {
    /// The manager's invariant: the attempt count is within the ceiling and
    /// the stored delay is the one the backoff schedule gives for it.
    pub open spec fn wf(self) -> bool {
        &&& self.attempts <= MAX_CONNECTION_ATTEMPTS
        &&& self.next_delay_ms == retry_delay(self.attempts as nat)
        &&& (self.state == ConnState::Failed <==> self.attempts == MAX_CONNECTION_ATTEMPTS)
    }

    /// Whether another connect attempt is allowed.
    pub open spec fn spec_should_attempt(self) -> bool {
        self.attempts < MAX_CONNECTION_ATTEMPTS && (self.state == ConnState::Idle || self.state
            == ConnState::Connecting)
    }

    /// A fresh manager: no attempts, no delay, idle.
    pub fn new() -> (m: ConnectionManager)
        ensures
            m.wf(),
            m.attempts == 0,
            m.next_delay_ms == 0,
            m.state == ConnState::Idle,
    {
        ConnectionManager { attempts: 0, next_delay_ms: 0, state: ConnState::Idle }
    }

    /// Whether another connect attempt is allowed.
    pub fn should_attempt(&self) -> (r: bool)
        ensures
            r == self.spec_should_attempt(),
    {
        self.attempts < MAX_CONNECTION_ATTEMPTS && (matches!(self.state, ConnState::Idle)
            || matches!(self.state, ConnState::Connecting))
    }

    /// Marks an attempt as started.
    pub fn begin_attempt(&mut self)
        requires
            old(self).wf(),
            old(self).spec_should_attempt(),
        ensures
            final(self).wf(),
            final(self).state == ConnState::Connecting,
            final(self).attempts == old(self).attempts,
            final(self).next_delay_ms == old(self).next_delay_ms,
    {
        self.state = ConnState::Connecting;
    }

    /// Records that the connection ran and ended gracefully.
    pub fn record_success(&mut self)
        requires
            old(self).wf(),
            old(self).attempts < MAX_CONNECTION_ATTEMPTS,
        ensures
            final(self).wf(),
            final(self).state == ConnState::Disconnected,
            final(self).attempts == old(self).attempts,
            final(self).next_delay_ms == old(self).next_delay_ms,
            !final(self).spec_should_attempt(),
    {
        self.state = ConnState::Disconnected;
    }

    /// Records a failed attempt with the reason the transport gave.
    ///
    /// A reason that means the server closed an idle connection is a graceful
    /// stop, not a failure. Otherwise the failure counts against the ceiling:
    /// below it, the caller is told to retry after the scheduled backoff
    /// delay; at it, the manager fails terminally and allows no further
    /// attempt.
    pub fn record_failure(&mut self, reason: &str) -> (a: FailureAction)
        requires
            old(self).wf(),
            old(self).attempts < MAX_CONNECTION_ATTEMPTS,
        ensures
            final(self).wf(),
            spec_is_graceful_close(reason@) ==> {
                &&& a == FailureAction::GracefulStop
                &&& final(self).state == ConnState::Disconnected
                &&& final(self).attempts == old(self).attempts
                &&& !final(self).spec_should_attempt()
            },
            !spec_is_graceful_close(reason@) ==> {
                &&& final(self).attempts == old(self).attempts + 1
                &&& final(self).next_delay_ms == retry_delay((old(self).attempts + 1) as nat)
            },
            !spec_is_graceful_close(reason@) && old(self).attempts + 1 < MAX_CONNECTION_ATTEMPTS
                ==> {
                &&& a == (FailureAction::Retry { delay_ms: old(self).next_delay_ms })
                &&& final(self).state == ConnState::Connecting
            },
            !spec_is_graceful_close(reason@) && old(self).attempts + 1 == MAX_CONNECTION_ATTEMPTS
                ==> {
                &&& a == FailureAction::GiveUp
                &&& final(self).state == ConnState::Failed
                &&& !final(self).spec_should_attempt()
            },
    {
        if is_graceful_close(reason) {
            self.state = ConnState::Disconnected;
            return FailureAction::GracefulStop;
        }
        let prior_delay = self.next_delay_ms;
        proof {
            lemma_backoff_monotone(self.attempts as nat);
        }
        let grown = self.next_delay_ms + BACKOFF_STEP_MS * self.attempts;
        self.next_delay_ms = if grown > BACKOFF_CAP_MS {
            BACKOFF_CAP_MS
        } else {
            grown
        };
        self.attempts = self.attempts + 1;
        if self.attempts < MAX_CONNECTION_ATTEMPTS {
            self.state = ConnState::Connecting;
            FailureAction::Retry { delay_ms: prior_delay }
        } else {
            self.state = ConnState::Failed;
            FailureAction::GiveUp
        }
    }
}

/// After the attempt ceiling is exhausted the manager is terminally failed:
/// no further attempt is ever allowed.
pub proof fn lemma_retry_ceiling(m: ConnectionManager)
    requires
        m.wf(),
        m.attempts == MAX_CONNECTION_ATTEMPTS,
    ensures
        m.state == ConnState::Failed,
        !m.spec_should_attempt(),
{
}

} // verus!
