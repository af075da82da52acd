use vstd::prelude::*;

verus! {

/// What to do after an attempt.
#[derive(Debug, Copy, Clone, PartialEq, Eq, Structural)]
pub enum RetryAction {
    /// The attempt succeeded: stop trying.
    Done,
    /// The attempt failed: wait this many seconds, then try again.
    RetryAfter(u64),
    /// The attempt failed and was the last one allowed: wait this many
    /// seconds, then give up.
    GiveUpAfter(u64),
}

/// A bounded number of attempts with a fixed pause after each failure.
pub struct Retry {
    attempts: u32,
    max_attempts: u32,
    delay_secs: u64,
}

/// The state of a [`Retry`]: the attempts made so far, the attempts
/// allowed, and the pause after a failure.
pub struct RetryView {
    pub attempts: nat,
    pub max_attempts: nat,
    pub delay_secs: u64,
}

impl View for Retry {
    type V = RetryView;

    closed spec fn view(&self) -> RetryView {
        RetryView {
            attempts: self.attempts as nat,
            max_attempts: self.max_attempts as nat,
            delay_secs: self.delay_secs,
        }
    }
}

/// A state that a [`Retry`] can be in.
pub open spec fn retry_wf(v: RetryView) -> bool {
    &&& 1 <= v.max_attempts <= u32::MAX
    &&& v.attempts <= v.max_attempts
}

/// One attempt's effect: the state after it and the action it calls for.
pub open spec fn retry_step(v: RetryView, succeeded: bool) -> (RetryView, RetryAction) {
    let next = RetryView { attempts: v.attempts + 1, ..v };
    if succeeded {
        (next, RetryAction::Done)
    } else if v.attempts + 1 < v.max_attempts {
        (next, RetryAction::RetryAfter(v.delay_secs))
    } else {
        (next, RetryAction::GiveUpAfter(v.delay_secs))
    }
}

/// The state after `k` failed attempts.
pub open spec fn after_failures(v: RetryView, k: nat) -> RetryView
    decreases k,
{
    if k == 0 {
        v
    } else {
        retry_step(after_failures(v, (k - 1) as nat), false).0
    }
}

impl Retry {
    /// A fresh policy allowing `max_attempts` attempts, pausing
    /// `delay_secs` seconds after each failure.
    pub fn new(max_attempts: u32, delay_secs: u64) -> (r: Retry)
        requires
            max_attempts >= 1,
        ensures
            r@ == (RetryView { attempts: 0, max_attempts: max_attempts as nat, delay_secs }),
            retry_wf(r@),
    {
        Retry { attempts: 0, max_attempts, delay_secs }
    }

    /// The policy for polling the instance's public address: 60 attempts,
    /// two seconds apart.
    pub fn for_public_ip() -> (r: Retry)
        ensures
            r@ == (RetryView { attempts: 0, max_attempts: 60, delay_secs: 2 }),
            retry_wf(r@),
    {
        Retry::new(60, 2)
    }

    /// The policy for copying the OpenVPN key to the instance: 30 attempts,
    /// two seconds apart.
    pub fn for_key_copy() -> (r: Retry)
        ensures
            r@ == (RetryView { attempts: 0, max_attempts: 30, delay_secs: 2 }),
            retry_wf(r@),
    {
        Retry::new(30, 2)
    }

    /// The attempts made so far.
    pub fn attempts(&self) -> (n: u32)
        ensures
            n == self@.attempts,
    {
        self.attempts
    }

    /// Whether every allowed attempt has been made.
    pub fn is_exhausted(&self) -> (b: bool)
        ensures
            b == (self@.attempts >= self@.max_attempts),
    {
        self.attempts >= self.max_attempts
    }

    /// Records the outcome of one more attempt and says what to do next.
    pub fn record(&mut self, succeeded: bool) -> (action: RetryAction)
        requires
            retry_wf(old(self)@),
            old(self)@.attempts < old(self)@.max_attempts,
        ensures
            retry_wf(final(self)@),
            (final(self)@, action) == retry_step(old(self)@, succeeded),
    {
        self.attempts = self.attempts + 1;
        if succeeded {
            RetryAction::Done
        } else if self.attempts < self.max_attempts {
            RetryAction::RetryAfter(self.delay_secs)
        } else {
            RetryAction::GiveUpAfter(self.delay_secs)
        }
    }
}

/// A successful attempt always stops the retrying, whatever the number of
/// attempts made before it (none included); a failed one never does: it
/// always calls for the pause, then a retry or giving up.
pub proof fn lemma_success_stops(v: RetryView)
    requires
        retry_wf(v),
        v.attempts < v.max_attempts,
    ensures
        retry_step(v, true).1 == RetryAction::Done,
        retry_step(v, false).1 != RetryAction::Done,
        retry_step(v, false).1 == RetryAction::RetryAfter(v.delay_secs)
            || retry_step(v, false).1 == RetryAction::GiveUpAfter(v.delay_secs),
        retry_step(v, true).0.attempts == v.attempts + 1,
        retry_step(v, false).0.attempts == v.attempts + 1,
        retry_wf(retry_step(v, true).0),
        retry_wf(retry_step(v, false).0),
{
}

/// From a fresh start, a success after any number of failures (fewer than
/// the attempts allowed) stops the retrying.
pub proof fn lemma_success_after_failures_stops(v: RetryView, k: nat)
    requires
        retry_wf(v),
        v.attempts == 0,
        k < v.max_attempts,
    ensures
        retry_step(after_failures(v, k), true).1 == RetryAction::Done,
{
    lemma_after_failures(v, k);
}

/// Each failure adds one attempt and changes nothing else.
pub proof fn lemma_after_failures(v: RetryView, k: nat)
    ensures
        after_failures(v, k) == (RetryView { attempts: v.attempts + k, ..v }),
    decreases k,
{
    if k > 0 {
        lemma_after_failures(v, (k - 1) as nat);
    }
}

/// From a fresh start, the `k`-th consecutive failure gives up exactly when
/// `k` is the number of attempts allowed, and every failure, the last one
/// too, is followed by the same pause.
pub proof fn lemma_gives_up_exactly_at_last_attempt(v: RetryView, k: nat)
    requires
        retry_wf(v),
        v.attempts == 0,
        1 <= k <= v.max_attempts,
    ensures
        retry_wf(after_failures(v, (k - 1) as nat)),
        after_failures(v, (k - 1) as nat).attempts < v.max_attempts,
        retry_step(after_failures(v, (k - 1) as nat), false).1 == (if k == v.max_attempts {
            RetryAction::GiveUpAfter(v.delay_secs)
        } else {
            RetryAction::RetryAfter(v.delay_secs)
        }),
{
    lemma_after_failures(v, (k - 1) as nat);
}

/// No attempt is allowed once the last one has failed.
pub proof fn lemma_exhausted_after_all_failures(v: RetryView)
    requires
        retry_wf(v),
        v.attempts == 0,
    ensures
        after_failures(v, v.max_attempts).attempts == v.max_attempts,
{
    lemma_after_failures(v, v.max_attempts);
}

} // verus!
