//! Ready-made capability implementations for the job tracker: a submitter
//! and a probe that answer from a prepared script, and a sleeper that does
//! not wait. They let a tracking run be driven without a server and without
//! real delays, exactly as the tracker's design intends for tests.

use vstd::prelude::*;
use vstd::pervasive::unreached;
use crate::tracker::{JobHandle, JobStatus, JobStatusProbe, JobSubmitter, Sleeper};

verus! {

/// A submitter that answers its single `submit` call from a prepared outcome.
pub struct ScriptedSubmitter<ES> {
    slot: Option<Result<JobHandle, ES>>,
}

impl<ES> ScriptedSubmitter<ES> {
    /// Prepares a submitter that will answer `outcome` once.
    pub fn new(outcome: Result<JobHandle, ES>) -> (s: Self)
        ensures
            s.can_submit(),
            s.submission() == outcome,
    {
        ScriptedSubmitter { slot: Option::Some(outcome) }
    }
}

impl<ES> JobSubmitter<ES> for ScriptedSubmitter<ES> {
    closed spec fn can_submit(&self) -> bool {
        self.slot is Some
    }

    closed spec fn submission(&self) -> Result<JobHandle, ES> {
        self.slot.unwrap()
    }

    fn submit(&mut self) -> (r: Result<JobHandle, ES>) {
        let taken = self.slot.take();
        match taken {
            Option::Some(outcome) => outcome,
            Option::None => unreached(),
        }
    }
}

/// A probe that answers its calls from a prepared script, in order. Its
/// model supports exactly as many calls as the script holds entries.
pub struct ScriptedProbe<P, EP> {
    script: Vec<Result<JobStatus<P>, EP>>,
    served: usize,
    full: Ghost<Seq<Result<JobStatus<P>, EP>>>,
}

impl<P, EP> ScriptedProbe<P, EP> {
    /// The entries not yet served trail the full script at the call counter.
    closed spec fn wf(&self) -> bool {
        &&& self.full@.len() == self.served + self.script@.len()
        &&& self.script@ == self.full@.skip(self.served as int)
        &&& self.served + self.script@.len() <= usize::MAX
    }

    /// Prepares a probe that answers call `i` with `script[i]`.
    pub fn new(script: Vec<Result<JobStatus<P>, EP>>) -> (p: Self)
        ensures
            p.calls() == 0,
            forall|i: nat| #[trigger] p.supports(i) <==> i < script@.len(),
            forall|i: nat| i < script@.len() ==> #[trigger] p.response(i) == script@[i as int],
    {
        let n = script.len();
        let p = ScriptedProbe { full: Ghost(script@), script, served: 0 };
        proof {
            assert(p.script@ =~= p.full@.skip(0));
        }
        p
    }

    /// How many probe calls have been answered so far.
    pub fn calls_made(&self) -> (n: usize)
        ensures
            n as nat == self.calls(),
    {
        self.served
    }
}

impl<P, EP> JobStatusProbe<P, EP> for ScriptedProbe<P, EP> {
    closed spec fn calls(&self) -> nat {
        self.served as nat
    }

    closed spec fn response(&self, i: nat) -> Result<JobStatus<P>, EP> {
        self.full@[i as int]
    }

    closed spec fn supports(&self, i: nat) -> bool {
        self.wf() && i < self.full@.len()
    }

    fn probe(&mut self, _handle: &JobHandle) -> (r: Result<JobStatus<P>, EP>) {
        proof {
            assert(old(self).script@.len() > 0);
            assert(old(self).script@[0] == old(self).full@[old(self).served as int]);
        }
        let r = self.script.remove(0);
        self.served = self.served + 1;
        proof {
            assert(self.script@ =~= self.full@.skip(self.served as int));
        }
        r
    }
}

/// A sleeper that returns at once: the fake clock for script-driven runs.
pub struct NoopSleeper {}

impl Sleeper for NoopSleeper {
    fn sleep(&mut self, _ms: u64) {
    }
}

} // verus!
