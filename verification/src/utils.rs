//! Bounded retrying of a request whose answer may not be there yet.

use vstd::prelude::*;

use crate::types::Failure;

verus! {

/// How often a request has been retried, how often it may be, and how long to
/// wait in between.
#[derive(Clone, Copy, Debug)]
pub struct Retry {
    pub retries: usize,
    pub max_retries: usize,
    pub interval_millis: u64,
}

/// Whether an outcome leaves something to wait for: the request failed, or it
/// answered that there is nothing yet.
pub open spec fn is_wanting<T>(outcome: Result<Option<T>, Failure>) -> bool {
    !(outcome matches Ok(Some(_)))
}

impl Retry {
    /// Whether the count has stayed within its limit.
    pub open spec fn wf(self) -> bool {
        self.retries <= self.max_retries
    }

    /// Whether another attempt follows an outcome that is `wanting` or not.
    pub open spec fn goes_on(self, wanting: bool) -> bool {
        wanting && self.retries < self.max_retries
    }

    /// The state after one more retry.
    pub open spec fn bumped(self) -> Retry
        recommends
            self.retries < self.max_retries,
    {
        Retry { retries: (self.retries + 1) as usize, ..self }
    }

    /// Nothing retried yet, at most `max_retries` retries to come.
    pub fn new(max_retries: usize, interval_millis: u64) -> (retry: Retry)
        ensures
            retry == (Retry { retries: 0, max_retries, interval_millis }),
            retry.wf(),
    {
        Retry { retries: 0, max_retries, interval_millis }
    }

    /// Judges the outcome of an attempt. `Some(millis)` says to wait that long
    /// and try again, and counts the retry; `None` says that the outcome
    /// stands, be it an answer, or nothing after the last retry.
    pub fn check<T>(&mut self, outcome: &Result<Option<T>, Failure>) -> (wait: Option<u64>)
        ensures
            wait.is_some() == old(self).goes_on(is_wanting(*outcome)),
            wait.is_some() ==> wait == Some(old(self).interval_millis) && *final(self) == old(
                self,
            ).bumped(),
            wait.is_none() ==> *final(self) == *old(self),
            old(self).wf() ==> final(self).wf(),
    {
        match outcome {
            Ok(Some(_)) => None,
            _ => {
                if self.retries < self.max_retries {
                    self.retries = self.retries + 1;
                    Some(self.interval_millis)
                } else {
                    None
                }
            },
        }
    }

    /// How many waits a run makes that starts in this state and is handed the
    /// outcomes `wanting` one after the other, for as long as it goes on.
    pub open spec fn waits(self, wanting: Seq<bool>) -> nat
        decreases wanting.len(),
    {
        if wanting.len() > 0 && self.goes_on(wanting[0]) {
            1 + self.bumped().waits(wanting.skip(1))
        } else {
            0
        }
    }

    /// How many attempts that run makes: one for each outcome it is handed
    /// before it stops.
    pub open spec fn attempts(self, wanting: Seq<bool>) -> nat
        decreases wanting.len(),
    {
        if wanting.len() == 0 {
            0
        } else if self.goes_on(wanting[0]) {
            1 + self.bumped().attempts(wanting.skip(1))
        } else {
            1
        }
    }

    /// A run never waits more often than retries are left, and never makes
    /// more than one attempt beyond that, whatever the outcomes are. From a
    /// fresh state with limit `n` that is at most `n` waits, `n + 1` attempts
    /// and `n` times the interval of waiting.
    pub proof fn law_retry_bound(self, wanting: Seq<bool>)
        requires
            self.wf(),
        ensures
            self.waits(wanting) <= self.max_retries - self.retries,
            self.attempts(wanting) <= self.max_retries - self.retries + 1,
            self.attempts(wanting) <= self.waits(wanting) + 1,
            self.waits(wanting) * self.interval_millis <= (self.max_retries - self.retries)
                * self.interval_millis,
        decreases wanting.len(),
    {
        if wanting.len() > 0 && self.goes_on(wanting[0]) {
            self.bumped().law_retry_bound(wanting.skip(1));
        }
        assert(self.waits(wanting) * self.interval_millis <= (self.max_retries - self.retries)
            * self.interval_millis) by (nonlinear_arith)
            requires
                self.waits(wanting) <= self.max_retries - self.retries,
        ;
    }
}

} // verus!
