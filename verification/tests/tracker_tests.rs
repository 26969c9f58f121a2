//! Scenario tests for the job tracker, driven by scripted capabilities.

use escli::stubs::{NoopSleeper, ScriptedProbe, ScriptedSubmitter};
use escli::tracker::{track, JobHandle, JobStatus, TrackError};

fn ok_handle(id: &str) -> Result<JobHandle, String> {
    Ok(JobHandle { id: id.to_string() })
}

fn not_done(payload: u64) -> Result<JobStatus<u64>, String> {
    Ok(JobStatus { completed: Some(false), payload })
}

fn done(payload: u64) -> Result<JobStatus<u64>, String> {
    Ok(JobStatus { completed: Some(true), payload })
}

fn flagless(payload: u64) -> Result<JobStatus<u64>, String> {
    Ok(JobStatus { completed: None, payload })
}

#[test]
fn submission_failure_is_immediate() {
    let mut submitter = ScriptedSubmitter::new(Err("cannot start".to_string()));
    let mut prober: ScriptedProbe<u64, String> = ScriptedProbe::new(vec![]);
    let mut sleeper = NoopSleeper {};
    let r = track(&mut submitter, &mut prober, &mut sleeper, 15000);
    assert_eq!(r, Err(TrackError::SubmissionFailed("cannot start".to_string())));
    assert_eq!(prober.calls_made(), 0);
}

#[test]
fn sequential_polling_returns_last_payload() {
    let mut submitter = ScriptedSubmitter::new(ok_handle("job-1"));
    let mut prober = ScriptedProbe::new(vec![not_done(1), not_done(2), done(1234)]);
    let mut sleeper = NoopSleeper {};
    let r = track(&mut submitter, &mut prober, &mut sleeper, 15000);
    assert_eq!(r, Ok((1234, 45000)));
    assert_eq!(prober.calls_made(), 3);
}

#[test]
fn completion_on_first_poll() {
    let mut submitter = ScriptedSubmitter::new(ok_handle("job-2"));
    let mut prober = ScriptedProbe::new(vec![done(7)]);
    let mut sleeper = NoopSleeper {};
    let r = track(&mut submitter, &mut prober, &mut sleeper, 15000);
    assert_eq!(r, Ok((7, 15000)));
    assert_eq!(prober.calls_made(), 1);
}

#[test]
fn missing_completion_field_is_fatal() {
    let mut submitter = ScriptedSubmitter::new(ok_handle("job-3"));
    let mut prober = ScriptedProbe::new(vec![not_done(1), flagless(9)]);
    let mut sleeper = NoopSleeper {};
    let r = track(&mut submitter, &mut prober, &mut sleeper, 15000);
    assert_eq!(r, Err(TrackError::MissingCompletionField));
    assert_eq!(prober.calls_made(), 2);
}

#[test]
fn probe_failure_is_fatal_and_not_retried() {
    let mut submitter = ScriptedSubmitter::new(ok_handle("job-4"));
    let mut prober = ScriptedProbe::new(vec![
        not_done(1),
        not_done(2),
        Err("status check failed".to_string()),
        done(5),
    ]);
    let mut sleeper = NoopSleeper {};
    let r = track(&mut submitter, &mut prober, &mut sleeper, 15000);
    assert_eq!(r, Err(TrackError::ProbeFailed("status check failed".to_string())));
    assert_eq!(prober.calls_made(), 3);
}

#[test]
fn elapsed_grows_with_each_poll() {
    let mut elapsed_values = Vec::new();
    for k in 0..4 {
        let mut script = Vec::new();
        for i in 0..k {
            script.push(not_done(i as u64));
        }
        script.push(done(99));
        let mut submitter = ScriptedSubmitter::new(ok_handle("job-5"));
        let mut prober = ScriptedProbe::new(script);
        let mut sleeper = NoopSleeper {};
        let r = track(&mut submitter, &mut prober, &mut sleeper, 15000).unwrap();
        assert_eq!(r.0, 99);
        assert!(r.1 >= (k as u64) * 15000);
        elapsed_values.push(r.1);
    }
    assert_eq!(elapsed_values, vec![15000, 30000, 45000, 60000]);
    for w in elapsed_values.windows(2) {
        assert!(w[0] < w[1]);
    }
}

#[test]
fn concurrent_runs_are_independent() {
    let mut submitter_a = ScriptedSubmitter::new(ok_handle("job-a"));
    let mut prober_a = ScriptedProbe::new(vec![not_done(1), done(100)]);
    let mut sleeper_a = NoopSleeper {};
    let mut submitter_b = ScriptedSubmitter::new(ok_handle("job-b"));
    let mut prober_b: ScriptedProbe<u64, String> =
        ScriptedProbe::new(vec![Err("b fails".to_string())]);
    let mut sleeper_b = NoopSleeper {};

    let ra = track(&mut submitter_a, &mut prober_a, &mut sleeper_a, 15000);
    let rb = track(&mut submitter_b, &mut prober_b, &mut sleeper_b, 15000);

    assert_eq!(ra, Ok((100, 30000)));
    assert_eq!(rb, Err(TrackError::ProbeFailed("b fails".to_string())));
    assert_eq!(prober_a.calls_made(), 2);
    assert_eq!(prober_b.calls_made(), 1);
}

#[test]
fn elapsed_saturates_at_the_maximum() {
    let mut submitter = ScriptedSubmitter::new(ok_handle("job-7"));
    let mut prober = ScriptedProbe::new(vec![not_done(0), done(1)]);
    let mut sleeper = NoopSleeper {};
    let r = track(&mut submitter, &mut prober, &mut sleeper, u64::MAX).unwrap();
    assert_eq!(r.1, u64::MAX);
}

#[test]
fn string_payload_is_passed_through() {
    let mut submitter: ScriptedSubmitter<String> = ScriptedSubmitter::new(ok_handle("job-6"));
    let mut prober: ScriptedProbe<String, String> = ScriptedProbe::new(vec![Ok(JobStatus {
        completed: Some(true),
        payload: "{\"completed\":true,\"took\":1234}".to_string(),
    })]);
    let mut sleeper = NoopSleeper {};
    let r = track(&mut submitter, &mut prober, &mut sleeper, 1).unwrap();
    assert_eq!(r.0, "{\"completed\":true,\"took\":1234}");
    assert_eq!(r.1, 1);
}
