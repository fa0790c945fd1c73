//! The bounded retry loop: how often the request is submitted.

use vstd::prelude::*;

verus! {

/// The count of a retry loop: how many submissions it allows and how many it
/// has asked for.
#[derive(Clone, Copy, Debug, PartialEq, Eq, Structural)]
pub struct RetryLoop {
    pub attempts: u64,
    pub submitted: u64,
}

/// What a retry loop decides.
#[derive(Clone, Copy, Debug, PartialEq, Eq, Structural)]
pub enum RetryStep {
    /// Submit the request, the same as before.
    Submit,
    /// All attempts are used up.
    Finished,
}

impl RetryLoop {
    /// The decision of a loop and the count after it. The loop asks for a
    /// submission as long as it has asked for fewer than it allows; what the
    /// submissions brought plays no part.
    pub open spec fn spec_advance(self) -> (RetryLoop, RetryStep) {
        if self.submitted < self.attempts {
            (
                RetryLoop { attempts: self.attempts, submitted: (self.submitted + 1) as u64 },
                RetryStep::Submit,
            )
        } else {
            (self, RetryStep::Finished)
        }
    }

    /// The count after `decisions` decisions.
    pub open spec fn after(self, decisions: nat) -> RetryLoop
        decreases decisions,
    {
        if decisions == 0 {
            self
        } else {
            self.after((decisions - 1) as nat).spec_advance().0
        }
    }

    /// How many of the first `decisions` decisions ask for a submission.
    pub open spec fn submissions(self, decisions: nat) -> nat
        decreases decisions,
    {
        if decisions == 0 {
            0
        } else {
            let earlier = self.submissions((decisions - 1) as nat);
            if self.after((decisions - 1) as nat).spec_advance().1 is Submit {
                earlier + 1
            } else {
                earlier
            }
        }
    }

    /// A loop that allows `attempts` submissions and has asked for none.
    pub fn new(attempts: u64) -> (r: RetryLoop)
        ensures
            r == (RetryLoop { attempts, submitted: 0 }),
    {
        RetryLoop { attempts, submitted: 0 }
    }

    /// Decides whether the request is submitted once more, and counts it.
    /// To be asked before the first submission and after each response.
    pub fn advance(&mut self) -> (r: RetryStep)
        ensures
            (*final(self), r) == old(self).spec_advance(),
    {
        if self.submitted < self.attempts {
            self.submitted = self.submitted + 1;
            RetryStep::Submit
        } else {
            RetryStep::Finished
        }
    }
}

/// A fresh loop that allows `attempts` submissions asks for a submission at
/// each of its first `attempts` decisions and at none after them. So a run
/// that is not cut short makes exactly `attempts` submissions, whatever the
/// responses hold.
pub proof fn lemma_exactly_attempts_submissions(attempts: u64, decisions: nat)
    ensures
        (RetryLoop { attempts, submitted: 0 }).after(decisions).attempts == attempts,
        (RetryLoop { attempts, submitted: 0 }).after(decisions).submitted == if decisions
            <= attempts {
            decisions
        } else {
            attempts as nat
        },
        (RetryLoop { attempts, submitted: 0 }).after(decisions).spec_advance().1 is Submit
            <==> decisions < attempts,
        (RetryLoop { attempts, submitted: 0 }).submissions(decisions) == if decisions <= attempts {
            decisions
        } else {
            attempts as nat
        },
    decreases decisions,
{
    if decisions > 0 {
        lemma_exactly_attempts_submissions(attempts, (decisions - 1) as nat);
    }
}

} // verus!
