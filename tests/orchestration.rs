use proccorder::run::{
    Action, Sampler, SamplerStep, ConfigError, Flags, Output, Phase, Run, RunError, Wake,
    CHILD_LOOKUP_RETRIES, MIN_INTERVAL_MS,
};

#[test]
fn default_flags() {
    let f = Flags::default();
    assert_eq!(f.freq, 500);
    assert!(!f.use_grandchild);
    assert_eq!(f.iters, 1);
    assert!(matches!(f.output, Output::Stdout));
    assert_eq!(f.check(), Ok(()));
}

#[test]
fn short_interval_is_refused() {
    let f = Flags { freq: MIN_INTERVAL_MS - 1, use_grandchild: false, iters: 1, output: Output::Stdout };
    assert_eq!(f.check(), Err(ConfigError::IntervalTooShort));
    let f = Flags { freq: 10, use_grandchild: false, iters: 1, output: Output::File("x".to_string()) };
    assert_eq!(f.check(), Ok(()));
}

#[test]
fn zero_iterations_are_refused() {
    let f = Flags { freq: 10, use_grandchild: false, iters: 0, output: Output::Stdout };
    assert_eq!(f.check(), Err(ConfigError::NoIterations));
}

#[test]
fn sampler_samples_only_after_a_full_interval() {
    let mut sampler = Sampler::new(10);
    assert_eq!(sampler.after_wait(Wake::TimedOut, 10), SamplerStep::Sample);
    assert_eq!(sampler.after_wait(Wake::TimedOut, 12), SamplerStep::Sample);
    assert_eq!(sampler.after_wait(Wake::TimedOut, 3), SamplerStep::WaitAgain);
    assert_eq!(sampler.after_wait(Wake::Stopped, 1), SamplerStep::Stop);
    assert_eq!(sampler.after_wait(Wake::Disconnected, 0), SamplerStep::Stop);
    assert_eq!(sampler.interval_ms, 10);
}

#[test]
fn two_runs_write_two_summaries_after_their_snapshots() {
    let mut run = Run::new(2, false);
    let mut summaries = 0;
    let mut action = Action::Spawn;
    let mut pid = 100;
    loop {
        match action {
            Action::Spawn => {
                pid += 1;
                action = run.spawned(pid);
            }
            Action::Sample(p) => {
                assert_eq!(p, pid);
                assert!(run.admit_snapshot());
                assert!(run.admit_snapshot());
                run.command_exited();
                assert!(!run.admit_snapshot());
                action = run.sampler_stopped();
            }
            Action::Summarize => {
                summaries += 1;
                action = run.summary_written(true);
            }
            Action::Done => break,
            other => panic!("unexpected {:?}", other),
        }
    }
    assert_eq!(summaries, 2);
    assert_eq!(run.phase, Phase::Finished);
    assert_eq!(run.done, 2);
}

#[test]
fn failing_command_is_kept_and_the_next_run_starts() {
    let mut run = Run::new(2, false);
    assert_eq!(run.spawned(7), Action::Sample(7));
    run.command_exited();
    assert_eq!(run.sampler_stopped(), Action::Summarize);
    assert_eq!(run.summary_written(false), Action::Spawn);
    assert_eq!(run.phase, Phase::Spawning);
    assert_eq!(run.last_error, Some(RunError::CommandFailed));
    assert_eq!(run.spawned(8), Action::Sample(8));
    run.command_exited();
    run.sampler_stopped();
    assert_eq!(run.summary_written(true), Action::Done);
    assert_eq!(run.phase, Phase::Finished);
    assert_eq!(run.done, 2);
    assert_eq!(run.last_error, Some(RunError::CommandFailed));
}

#[test]
fn child_lookup_times_out_after_retries() {
    let mut run = Run::new(2, true);
    assert_eq!(run.spawned(50), Action::LookupChild(50));
    for _ in 0..CHILD_LOOKUP_RETRIES {
        assert_eq!(run.child_lookup(Ok(None)), Action::WaitThenLookupChild(50));
    }
    assert_eq!(run.child_lookup(Ok(None)), Action::Abandon(RunError::ChildLookupTimedOut));
    assert_eq!(run.phase, Phase::Abandoning);
    assert!(!run.admit_snapshot());
    assert_eq!(run.run_abandoned(), Action::Spawn);
    assert_eq!(run.last_error, Some(RunError::ChildLookupTimedOut));
    assert_eq!(run.spawned(60), Action::LookupChild(60));
    assert_eq!(run.child_lookup(Ok(Some(61))), Action::Sample(61));
    assert!(run.admit_snapshot());
    run.command_exited();
    run.sampler_stopped();
    assert_eq!(run.summary_written(true), Action::Done);
    assert_eq!(run.done, 2);
}

#[test]
fn child_found_on_retry_is_sampled() {
    let mut run = Run::new(1, true);
    run.spawned(50);
    assert_eq!(run.child_lookup(Ok(None)), Action::WaitThenLookupChild(50));
    assert_eq!(run.child_lookup(Ok(Some(51))), Action::Sample(51));
    assert_eq!(run.phase, Phase::Sampling);
}

#[test]
fn child_lookup_error_fails_only_its_run() {
    let mut run = Run::new(1, true);
    run.spawned(50);
    assert_eq!(run.child_lookup(Err(())), Action::Abandon(RunError::ChildLookupFailed));
    assert_eq!(run.run_abandoned(), Action::Done);
    assert_eq!(run.phase, Phase::Finished);
    assert_eq!(run.last_error, Some(RunError::ChildLookupFailed));
}
