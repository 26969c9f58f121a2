//! Tracks a long-running server-side job: submit it once, then poll its
//! status on a fixed cadence until it reports completion or a failure.
//!
//! The tracker owns no transport. It is driven through three injected
//! capabilities: a [`JobSubmitter`] that starts the job, a [`JobStatusProbe`]
//! that fetches one status snapshot per call, and a [`Sleeper`] that realises
//! the pause between polls. Each capability carries a ghost model of what its
//! calls return, so the outcome of [`track`] is pinned down exactly by the
//! models of the capabilities it was handed.

use vstd::prelude::*;

verus! {

/// An opaque identifier for a submitted job, as the server returned it.
#[derive(Debug, Clone, PartialEq, Eq)]
pub struct JobHandle {
    pub id: String,
}

/// One snapshot of a job's state: the completion flag, which the server may
/// omit, and the full status document, retained verbatim for final reporting.
#[derive(Debug, Clone, PartialEq, Eq)]
pub struct JobStatus<P> {
    pub completed: Option<bool>,
    pub payload: P,
}

/// The ways a single tracking run can fail. None of them is retried.
#[derive(Debug, Clone, PartialEq, Eq)]
pub enum TrackError<ES, EP> {
    /// The request that starts the job could not be completed or was rejected.
    SubmissionFailed(ES),
    /// A status check failed; polling stops at once.
    ProbeFailed(EP),
    /// A status document arrived without its completion flag: the server
    /// broke its contract, which is fatal rather than "still pending".
    MissingCompletionField,
}

/// What one status snapshot means for the polling loop.
#[derive(Debug, Clone, PartialEq, Eq)]
pub enum ProbeDecision<P, EP> {
    /// The job is not finished: poll again after a full interval.
    Continues,
    /// The job reported completion; the payload is the final document.
    Completes(P),
    /// The status check itself failed.
    FailsProbe(EP),
    /// The completion flag was absent.
    MissingField,
}

/// How the tracker reads one probe result: an error or a flag-less document
/// ends the run, `completed == true` finishes it, and only an explicit
/// `completed == false` keeps it polling.
pub open spec fn probe_decision<P, EP>(r: Result<JobStatus<P>, EP>) -> ProbeDecision<P, EP> {
    match r {
        Result::Err(e) => ProbeDecision::FailsProbe(e),
        Result::Ok(st) => match st.completed {
            Option::None => ProbeDecision::MissingField,
            Option::Some(true) => ProbeDecision::Completes(st.payload),
            Option::Some(false) => ProbeDecision::Continues,
        },
    }
}

/// Reads one probe result, exactly as [`probe_decision`] describes.
pub fn decide_probe<P, EP>(r: Result<JobStatus<P>, EP>) -> (d: ProbeDecision<P, EP>)
    ensures
        d == probe_decision(r),
{
    match r {
        Result::Err(e) => ProbeDecision::FailsProbe(e),
        Result::Ok(st) => {
            let JobStatus { completed, payload } = st;
            match completed {
                Option::None => ProbeDecision::MissingField,
                Option::Some(true) => ProbeDecision::Completes(payload),
                Option::Some(false) => ProbeDecision::Continues,
            }
        },
    }
}

/// Starts the server-side operation. The submitter is consulted exactly once
/// per tracking run; `submission` is the ghost model of what that one call
/// returns.
pub trait JobSubmitter<ES>: Sized {
    open spec fn can_submit(&self) -> bool {
        false
    }

    open spec fn submission(&self) -> Result<JobHandle, ES> {
        arbitrary()
    }

    fn submit(&mut self) -> (r: Result<JobHandle, ES>)
        requires
            old(self).can_submit(),
        ensures
            r == old(self).submission(),
    ;
}

/// Fetches the current status of a submitted job. `response(i)` is the ghost
/// model of what the probe's `i`-th call (counted from the probe's creation)
/// returns; `supports(i)` says whether the model extends that far. Probing
/// never changes the model, only the call counter.
pub trait JobStatusProbe<P, EP>: Sized {
    open spec fn calls(&self) -> nat {
        0
    }

    open spec fn response(&self, i: nat) -> Result<JobStatus<P>, EP> {
        arbitrary()
    }

    open spec fn supports(&self, i: nat) -> bool {
        false
    }

    fn probe(&mut self, handle: &JobHandle) -> (r: Result<JobStatus<P>, EP>)
        requires
            old(self).supports(old(self).calls()),
        ensures
            final(self).calls() == old(self).calls() + 1,
            r == old(self).response(old(self).calls()),
            forall|i: nat| #[trigger] final(self).response(i) == old(self).response(i),
            forall|i: nat| #[trigger] final(self).supports(i) == old(self).supports(i),
    ;
}

/// Realises the pause between two polls. A production implementation blocks
/// or yields for the given span; a test implementation returns at once.
pub trait Sleeper: Sized {
    fn sleep(&mut self, ms: u64);
}

/// The probe's model answers `Continues` for every call index `i` with
/// `base <= i < base + k`.
pub open spec fn probes_continue<P, EP, Pr: JobStatusProbe<P, EP>>(
    p: Pr,
    base: nat,
    k: nat,
) -> bool {
    forall|i: nat|
        base <= i < base + k ==> p.supports(i) && probe_decision(
            #[trigger] p.response(i),
        ) is Continues
}

/// Call `base + k` is the first one, counting from `base`, whose modelled
/// answer ends the polling loop.
pub open spec fn terminal_at<P, EP, Pr: JobStatusProbe<P, EP>>(p: Pr, base: nat, k: nat) -> bool {
    &&& probes_continue(p, base, k)
    &&& p.supports((base + k) as nat)
    &&& !(probe_decision(p.response((base + k) as nat)) is Continues)
}

/// Some call at or after `base` ends the polling loop.
pub open spec fn reaches_terminal<P, EP, Pr: JobStatusProbe<P, EP>>(p: Pr, base: nat) -> bool {
    exists|k: nat| terminal_at(p, base, k)
}

/// Saturating addition on `u64`.
pub open spec fn sat_add_u64(a: u64, b: u64) -> u64 {
    if a + b <= u64::MAX {
        (a + b) as u64
    } else {
        u64::MAX
    }
}

/// The elapsed time the tracker reports after `polls` polls: one full
/// interval per poll, saturating at the largest representable value.
pub open spec fn nominal_elapsed(polls: nat, interval_ms: u64) -> u64
    decreases polls,
{
    if polls == 0 {
        0
    } else {
        sat_add_u64(nominal_elapsed((polls - 1) as nat, interval_ms), interval_ms)
    }
}

/// The outcome of a tracking run whose first loop-ending call is `base + k`.
pub open spec fn track_result_at<P, ES, EP, Pr: JobStatusProbe<P, EP>>(
    p: Pr,
    base: nat,
    k: nat,
    interval_ms: u64,
) -> Result<(P, u64), TrackError<ES, EP>> {
    match probe_decision(p.response((base + k) as nat)) {
        ProbeDecision::Completes(payload) => Result::Ok(
            (payload, nominal_elapsed((k + 1) as nat, interval_ms)),
        ),
        ProbeDecision::FailsProbe(e) => Result::Err(TrackError::ProbeFailed(e)),
        ProbeDecision::MissingField => Result::Err(TrackError::MissingCompletionField),
        ProbeDecision::Continues => arbitrary(),
    }
}

/// The snapshot reports, with its flag present, that the job is not finished.
pub open spec fn says_not_completed<P, EP>(r: Result<JobStatus<P>, EP>) -> bool {
    r matches Result::Ok(st) && st.completed == Option::Some(false)
}

/// A run that has answered `Continues` `k` times in a row has not yet passed
/// a loop-ending call.
pub proof fn lemma_continue_below_terminal<P, EP, Pr: JobStatusProbe<P, EP>>(
    p: Pr,
    base: nat,
    k: nat,
    kt: nat,
)
    requires
        probes_continue(p, base, k),
        terminal_at(p, base, kt),
    ensures
        k <= kt,
{
    if k > kt {
        assert(base <= base + kt < base + k);
        assert(probe_decision(p.response((base + kt) as nat)) is Continues);
    }
}

/// A probe model has at most one first loop-ending call.
pub proof fn lemma_terminal_unique<P, EP, Pr: JobStatusProbe<P, EP>>(
    p: Pr,
    base: nat,
    a: nat,
    b: nat,
)
    requires
        terminal_at(p, base, a),
        terminal_at(p, base, b),
    ensures
        a == b,
{
    lemma_continue_below_terminal(p, base, a, b);
    lemma_continue_below_terminal(p, base, b, a);
}

/// Submits a long-running job and polls it to its terminal outcome.
///
/// The run submits exactly once; a submission error is returned at once and
/// the prober is never consulted. Otherwise the run sleeps one full
/// `poll_interval_ms` before every status check, stops at the first check
/// whose answer is not an explicit "not yet completed", and reports the final
/// payload together with the nominal elapsed time, one interval per poll.
/// No failure is retried; if the job never reaches a terminal status the
/// loop never ends, so a terminal status is required of the probe's model.
pub fn track<P, ES, EP, S: JobSubmitter<ES>, Pr: JobStatusProbe<P, EP>, Sl: Sleeper>(
    submitter: &mut S,
    prober: &mut Pr,
    sleeper: &mut Sl,
    poll_interval_ms: u64,
) -> (r: Result<(P, u64), TrackError<ES, EP>>)
    requires
        poll_interval_ms > 0,
        old(submitter).can_submit(),
        old(submitter).submission() is Ok ==> reaches_terminal(*old(prober), old(prober).calls()),
    ensures
        old(submitter).submission() matches Result::Err(e) ==> {
            &&& r == Result::<(P, u64), TrackError<ES, EP>>::Err(TrackError::SubmissionFailed(e))
            &&& *final(prober) == *old(prober)
        },
        old(submitter).submission() is Ok ==> forall|k: nat|
            #[trigger] terminal_at(*old(prober), old(prober).calls(), k) ==> {
                &&& final(prober).calls() == old(prober).calls() + k + 1
                &&& r == track_result_at::<P, ES, EP, Pr>(
                    *old(prober),
                    old(prober).calls(),
                    k,
                    poll_interval_ms,
                )
            },
{
    let handle = match submitter.submit() {
        Result::Err(e) => {
            return Result::Err(TrackError::SubmissionFailed(e));
        },
        Result::Ok(h) => h,
    };
    let ghost base: nat = old(prober).calls();
    let ghost kt: nat = choose|kt: nat| terminal_at(*old(prober), base, kt);
    let ghost mut k: nat = 0;
    let mut elapsed: u64 = 0;
    loop
        invariant
            base == old(prober).calls(),
            old(submitter).submission() is Ok,
            terminal_at(*old(prober), base, kt),
            k <= kt,
            poll_interval_ms > 0,
            prober.calls() == base + k,
            forall|i: nat| #[trigger] prober.response(i) == old(prober).response(i),
            forall|i: nat| #[trigger] prober.supports(i) == old(prober).supports(i),
            probes_continue(*old(prober), base, k),
            reaches_terminal(*old(prober), base),
            elapsed == nominal_elapsed(k, poll_interval_ms),
        decreases kt - k,
    {
        proof {
            if k < kt {
                assert(base <= base + k < base + kt);
                assert(probe_decision(old(prober).response((base + k) as nat)) is Continues);
            }
            assert(old(prober).supports((base + k) as nat));
        }
        sleeper.sleep(poll_interval_ms);
        elapsed = if elapsed <= u64::MAX - poll_interval_ms {
            elapsed + poll_interval_ms
        } else {
            u64::MAX
        };
        proof {
            assert(elapsed == nominal_elapsed((k + 1) as nat, poll_interval_ms));
        }
        let resp = prober.probe(&handle);
        match decide_probe(resp) {
            ProbeDecision::Continues => {
                proof {
                    assert(probe_decision(old(prober).response((base + k) as nat)) is Continues);
                    assert(k != kt);
                    k = k + 1;
                }
            },
            ProbeDecision::Completes(payload) => {
                proof {
                    assert(terminal_at(*old(prober), base, k));
                    assert forall|kk: nat| terminal_at(*old(prober), base, kk) implies kk == k by {
                        lemma_terminal_unique(*old(prober), base, kk, k);
                    }
                }
                return Result::Ok((payload, elapsed));
            },
            ProbeDecision::FailsProbe(e) => {
                proof {
                    assert(terminal_at(*old(prober), base, k));
                    assert forall|kk: nat| terminal_at(*old(prober), base, kk) implies kk == k by {
                        lemma_terminal_unique(*old(prober), base, kk, k);
                    }
                }
                return Result::Err(TrackError::ProbeFailed(e));
            },
            ProbeDecision::MissingField => {
                proof {
                    assert(terminal_at(*old(prober), base, k));
                    assert forall|kk: nat| terminal_at(*old(prober), base, kk) implies kk == k by {
                        lemma_terminal_unique(*old(prober), base, kk, k);
                    }
                }
                return Result::Err(TrackError::MissingCompletionField);
            },
        }
    }
}

/// Sequential polling: a probe whose first `k` answers all carry
/// `completed == false` and whose next answer carries `completed == true`
/// ends the run at call `base + k`, so [`track`] consults it exactly `k + 1`
/// times and returns the payload of that last answer, with one full interval
/// charged per poll.
pub proof fn lemma_sequential_polling<P, ES, EP, Pr: JobStatusProbe<P, EP>>(
    p: Pr,
    base: nat,
    k: nat,
    interval_ms: u64,
)
    requires
        forall|i: nat|
            base <= i < base + k ==> p.supports(i) && says_not_completed(#[trigger] p.response(i)),
        p.supports((base + k) as nat),
        p.response((base + k) as nat) matches Result::Ok(st) && st.completed == Option::Some(true),
    ensures
        terminal_at(p, base, k),
        p.response((base + k) as nat) matches Result::Ok(st) ==> track_result_at::<P, ES, EP, Pr>(
            p,
            base,
            k,
            interval_ms,
        ) == Result::<(P, u64), TrackError<ES, EP>>::Ok(
            (st.payload, nominal_elapsed((k + 1) as nat, interval_ms)),
        ),
{
}

/// A status document without its completion flag is fatal: if the first `m`
/// answers all carry `completed == false` and answer `m` has no flag, the run
/// ends there with `MissingCompletionField`, after exactly `m + 1` probe
/// calls and no further polls.
pub proof fn lemma_missing_field_fatal<P, ES, EP, Pr: JobStatusProbe<P, EP>>(
    p: Pr,
    base: nat,
    m: nat,
    interval_ms: u64,
)
    requires
        forall|i: nat|
            base <= i < base + m ==> p.supports(i) && says_not_completed(#[trigger] p.response(i)),
        p.supports((base + m) as nat),
        p.response((base + m) as nat) matches Result::Ok(st) && st.completed is None,
    ensures
        terminal_at(p, base, m),
        track_result_at::<P, ES, EP, Pr>(p, base, m, interval_ms) == Result::<
            (P, u64),
            TrackError<ES, EP>,
        >::Err(TrackError::MissingCompletionField),
{
}

/// A failed status check is fatal and is not retried: if the first `m`
/// answers all carry `completed == false` and answer `m` is an error, the run
/// ends there with `ProbeFailed`, after exactly `m + 1` probe attempts.
pub proof fn lemma_probe_failure_fatal<P, ES, EP, Pr: JobStatusProbe<P, EP>>(
    p: Pr,
    base: nat,
    m: nat,
    interval_ms: u64,
)
    requires
        forall|i: nat|
            base <= i < base + m ==> p.supports(i) && says_not_completed(#[trigger] p.response(i)),
        p.supports((base + m) as nat),
        p.response((base + m) as nat) is Err,
    ensures
        terminal_at(p, base, m),
        p.response((base + m) as nat) matches Result::Err(e) ==> track_result_at::<P, ES, EP, Pr>(
            p,
            base,
            m,
            interval_ms,
        ) == Result::<(P, u64), TrackError<ES, EP>>::Err(TrackError::ProbeFailed(e)),
{
}

/// Below saturation, the reported elapsed time is exactly one interval per
/// poll.
pub proof fn lemma_nominal_elapsed_exact(polls: nat, interval_ms: u64)
    requires
        polls * interval_ms <= u64::MAX,
    ensures
        nominal_elapsed(polls, interval_ms) == polls * interval_ms,
    decreases polls,
{
    if polls > 0 {
        assert(((polls - 1) as nat) * interval_ms + interval_ms == polls * interval_ms)
            by (nonlinear_arith)
            requires
                polls >= 1,
        ;
        lemma_nominal_elapsed_exact((polls - 1) as nat, interval_ms);
        assert(nominal_elapsed(polls, interval_ms) == sat_add_u64(
            nominal_elapsed((polls - 1) as nat, interval_ms),
            interval_ms,
        ));
    } else {
        assert(polls * interval_ms == 0) by (nonlinear_arith)
            requires
                polls == 0,
        ;
    }
}

/// Elapsed time grows with the polling: a successful run of `k + 1` polls
/// reports at least `k` full intervals, and each further poll strictly
/// increases the report. Runs long enough to saturate the elapsed counter
/// are left out.
pub proof fn lemma_elapsed_monotone(k: nat, interval_ms: u64)
    requires
        interval_ms > 0,
        (k + 2) * interval_ms <= u64::MAX,
    ensures
        nominal_elapsed((k + 1) as nat, interval_ms) >= k * interval_ms,
        nominal_elapsed((k + 2) as nat, interval_ms) > nominal_elapsed((k + 1) as nat, interval_ms),
{
    assert((k + 1) * interval_ms < (k + 2) * interval_ms && k * interval_ms < (k + 1)
        * interval_ms) by (nonlinear_arith)
        requires
            interval_ms > 0,
    ;
    lemma_nominal_elapsed_exact((k + 1) as nat, interval_ms);
    lemma_nominal_elapsed_exact((k + 2) as nat, interval_ms);
}

/// The models of two probes agree at offset `j` from their respective bases.
pub open spec fn models_agree_at<P, EP, Pr1: JobStatusProbe<P, EP>, Pr2: JobStatusProbe<P, EP>>(
    p1: Pr1,
    base1: nat,
    p2: Pr2,
    base2: nat,
    j: nat,
) -> bool {
    &&& p1.supports((base1 + j) as nat) == p2.supports((base2 + j) as nat)
    &&& p1.response((base1 + j) as nat) == p2.response((base2 + j) as nat)
}

/// Concurrent independence: a tracking run's terminal outcome is a function
/// of its own capabilities' models alone. Two runs whose probes would answer
/// alike resolve alike, so neither is touched by what any other run's
/// capabilities return.
pub proof fn lemma_outcome_depends_on_own_model<
    P,
    ES,
    EP,
    Pr1: JobStatusProbe<P, EP>,
    Pr2: JobStatusProbe<P, EP>,
>(
    p1: Pr1,
    base1: nat,
    p2: Pr2,
    base2: nat,
    k: nat,
    interval_ms: u64,
)
    requires
        forall|j: nat| #[trigger] models_agree_at(p1, base1, p2, base2, j),
    ensures
        terminal_at(p1, base1, k) <==> terminal_at(p2, base2, k),
        terminal_at(p1, base1, k) ==> track_result_at::<P, ES, EP, Pr1>(
            p1,
            base1,
            k,
            interval_ms,
        ) == track_result_at::<P, ES, EP, Pr2>(p2, base2, k, interval_ms),
{
    assert forall|i: nat| base1 <= i < base1 + k implies p1.supports(i) && probe_decision(
        #[trigger] p1.response(i),
    ) is Continues <==> p2.supports(((i - base1) + base2) as nat) && probe_decision(
        p2.response(((i - base1) + base2) as nat),
    ) is Continues by {
        assert(models_agree_at(p1, base1, p2, base2, (i - base1) as nat));
    }
    assert forall|i: nat| base2 <= i < base2 + k implies p2.supports(i) && probe_decision(
        #[trigger] p2.response(i),
    ) is Continues <==> p1.supports(((i - base2) + base1) as nat) && probe_decision(
        p1.response(((i - base2) + base1) as nat),
    ) is Continues by {
        assert(models_agree_at(p1, base1, p2, base2, (i - base2) as nat));
    }
    assert(models_agree_at(p1, base1, p2, base2, k));
}

} // verus!
