use vstd::prelude::*;

verus! {

/// Smallest sampling interval accepted, in milliseconds.
pub const MIN_INTERVAL_MS: u64 = 10;

/// Lookups of the observed child made after the first one finds nothing.
pub const CHILD_LOOKUP_RETRIES: u32 = 3;

/// Milliseconds to wait before each retried child lookup.
pub const CHILD_LOOKUP_SPACING_MS: u64 = 100;

/// Where records go.
#[derive(Clone, Debug)]
pub enum Output {
    Stdout,
    /// A file that must not exist yet.
    File(String),
}

/// Settings of one recording.
#[derive(Clone, Debug)]
pub struct Flags {
    /// Milliseconds to wait between samples.
    pub freq: u64,
    /// Observe the first child of the spawned process instead of the process itself.
    pub use_grandchild: bool,
    /// Number of runs of the command.
    pub iters: usize,
    /// Where the records go.
    pub output: Output,
}

#[derive(Clone, Copy, Debug, PartialEq, Eq, Structural)]
pub enum ConfigError {
    /// The sampling interval is below `MIN_INTERVAL_MS`.
    IntervalTooShort,
    /// The number of runs is zero.
    NoIterations,
}

impl Default for Flags {
    fn default() -> (r: Flags)
        ensures
            r.freq == 500,
            !r.use_grandchild,
            r.iters == 1,
            r.output is Stdout,
    {
        Flags { freq: 500, use_grandchild: false, iters: 1, output: Output::Stdout }
    }
}

impl Flags {
    /// Accepts settings whose interval is at least `MIN_INTERVAL_MS` and that
    /// ask for at least one run; the interval is checked first.
    pub fn check(&self) -> (r: Result<(), ConfigError>)
        ensures
            self.freq < MIN_INTERVAL_MS ==> r == Err::<(), ConfigError>(ConfigError::IntervalTooShort),
            self.freq >= MIN_INTERVAL_MS && self.iters == 0 ==> r == Err::<(), ConfigError>(
                ConfigError::NoIterations,
            ),
            self.freq >= MIN_INTERVAL_MS && self.iters > 0 ==> r is Ok,
    {
        if self.freq < MIN_INTERVAL_MS {
            Err(ConfigError::IntervalTooShort)
        } else if self.iters == 0 {
            Err(ConfigError::NoIterations)
        } else {
            Ok(())
        }
    }
}

/// What the sampler's timed wait for a stop request ended with.
#[derive(Clone, Copy, Debug, PartialEq, Eq, Structural)]
pub enum Wake {
    /// The stop request arrived.
    Stopped,
    /// The interval passed without a stop request.
    TimedOut,
    /// The requesting side is gone; no stop request can come.
    Disconnected,
}

/// What the sampler does after one wait.
#[derive(Clone, Copy, Debug, PartialEq, Eq, Structural)]
pub enum SamplerStep {
    /// Take one sample, then wait again.
    Sample,
    /// The wait ended early without a stop request: wait again.
    WaitAgain,
    /// End the sampler.
    Stop,
}

/// The sampler's decisions. `samples` counts the samples taken and
/// `waited_ms` the time spent waiting, which lies within the run.
pub struct Sampler {
    pub interval_ms: u64,
    pub samples: Ghost<nat>,
    pub waited_ms: Ghost<nat>,
}

impl Sampler {
    /// Each sample was paid for by a full interval of waiting.
    pub open spec fn wf(&self) -> bool {
        &&& self.interval_ms > 0
        &&& self.samples@ * self.interval_ms <= self.waited_ms@
    }

    pub fn new(interval_ms: u64) -> (r: Sampler)
        requires
            interval_ms > 0,
        ensures
            r.wf(),
            r.interval_ms == interval_ms,
            r.samples@ == 0,
            r.waited_ms@ == 0,
    {
        Sampler { interval_ms, samples: Ghost(0), waited_ms: Ghost(0) }
    }

    /// A wait for the stop request ended with `w` after `waited_ms`
    /// milliseconds. A sample is taken only when a full interval passed
    /// without a stop request; a stop request, or a requesting side that is
    /// gone, ends the sampler without a last sample.
    pub fn after_wait(&mut self, w: Wake, waited_ms: u64) -> (r: SamplerStep)
        requires
            old(self).wf(),
        ensures
            final(self).wf(),
            final(self).interval_ms == old(self).interval_ms,
            final(self).waited_ms@ == old(self).waited_ms@ + waited_ms,
            w != Wake::TimedOut ==> r == SamplerStep::Stop,
            w == Wake::TimedOut && waited_ms >= old(self).interval_ms ==> r == SamplerStep::Sample,
            w == Wake::TimedOut && waited_ms < old(self).interval_ms ==> r
                == SamplerStep::WaitAgain,
            r == SamplerStep::Sample ==> final(self).samples@ == old(self).samples@ + 1,
            r != SamplerStep::Sample ==> final(self).samples@ == old(self).samples@,
    {
        let ghost before = self.samples@;
        let ghost waited_before = self.waited_ms@;
        self.waited_ms = Ghost(self.waited_ms@ + waited_ms as nat);
        match w {
            Wake::TimedOut => {
                if waited_ms >= self.interval_ms {
                    self.samples = Ghost(self.samples@ + 1);
                    assert((before + 1) * self.interval_ms <= waited_before + waited_ms) by (nonlinear_arith)
                        requires
                            before * self.interval_ms <= waited_before,
                            waited_ms >= self.interval_ms,
                    ;
                    SamplerStep::Sample
                } else {
                    SamplerStep::WaitAgain
                }
            },
            _ => SamplerStep::Stop,
        }
    }
}

/// Kind of a record in the output stream, with the run (0-based) it belongs to.
#[derive(Clone, Copy, Debug, PartialEq, Eq, Structural)]
pub enum RecordKind {
    Snapshot(usize),
    Summary(usize),
}

#[derive(Clone, Copy, Debug, PartialEq, Eq, Structural)]
pub enum Phase {
    /// The command is to be spawned.
    Spawning,
    /// Looking for the first child of the spawned process.
    Resolving,
    /// The sampler is running while the child runs.
    Sampling,
    /// The child has exited; the sampler is being stopped.
    Stopping,
    /// The sampler has stopped; the summary is to be written.
    Reporting,
    /// The run failed before its sampler started; its process is being reaped.
    Abandoning,
    /// Every run has been made.
    Finished,
}

#[derive(Clone, Copy, Debug, PartialEq, Eq, Structural)]
pub enum RunError {
    /// The processes could not be listed to find the child.
    ChildLookupFailed,
    /// No child appeared within the lookup window.
    ChildLookupTimedOut,
    /// The command exited with a failure status.
    CommandFailed,
}

/// What the caller is to do next.
#[derive(Clone, Copy, Debug, PartialEq, Eq, Structural)]
pub enum Action {
    /// Spawn the command.
    Spawn,
    /// Look up the first child of the given process now.
    LookupChild(i32),
    /// Wait `CHILD_LOOKUP_SPACING_MS`, then look up the first child of the given process.
    WaitThenLookupChild(i32),
    /// Start the sampler on the given process and wait for the command to exit.
    Sample(i32),
    /// Write the summary record of this run.
    Summarize,
    /// This run failed with the error before sampling: wait for the spawned
    /// process, then go on with `Run::run_abandoned`.
    Abandon(RunError),
    /// Every run has been made; `Run::last_error` holds the last failure.
    Done,
}

/// The decisions of a recording: a sequence of runs of one command, each
/// sampled until the command exits and closed by one summary record. A run
/// that fails ends only itself; the last failure is kept for the final status.
///
/// `log` holds the kinds of the records admitted to the output so far, and
/// `abandoned` the runs that failed before sampling and so have no summary.
pub struct Run {
    pub iters: usize,
    pub use_grandchild: bool,
    pub done: usize,
    pub phase: Phase,
    pub spawned: i32,
    pub lookups: u32,
    pub last_error: Option<RunError>,
    pub log: Ghost<Seq<RecordKind>>,
    pub abandoned: Ghost<Set<int>>,
}

/// Every snapshot precedes the summary of its own run.
pub open spec fn snapshots_before_summary(log: Seq<RecordKind>) -> bool {
    forall|i: int, j: int|
        0 <= i < j < log.len() && log[j] is Snapshot && log[i] is Summary ==> log[i]->Summary_0
            != log[j]->Snapshot_0
}

/// No snapshot of a later run precedes the summary of an earlier one.
pub open spec fn summary_before_later_snapshots(log: Seq<RecordKind>) -> bool {
    forall|i: int, j: int|
        0 <= i < j < log.len() && log[i] is Snapshot && log[j] is Summary ==> log[i]->Snapshot_0
            <= log[j]->Summary_0
}

/// Summaries come in strictly increasing run order, so at most one per run.
pub open spec fn summaries_increasing(log: Seq<RecordKind>) -> bool {
    forall|i: int, j: int|
        0 <= i < j < log.len() && log[i] is Summary && log[j] is Summary ==> log[i]->Summary_0
            < log[j]->Summary_0
}

/// The summary of run `k` is in `log`.
pub open spec fn has_summary(log: Seq<RecordKind>, k: int) -> bool {
    exists|i: int| 0 <= i < log.len() && log[i] == RecordKind::Summary(k as usize)
}

/// Run `k` is accounted for: it has a summary or it failed before sampling.
pub open spec fn covered(log: Seq<RecordKind>, abandoned: Set<int>, k: int) -> bool {
    has_summary(log, k) || abandoned.contains(k)
}

impl Run {
    pub open spec fn wf(&self) -> bool {
        &&& 1 <= self.iters
        &&& self.done <= self.iters
        &&& (self.phase == Phase::Finished <==> self.done == self.iters)
        &&& self.phase == Phase::Resolving ==> self.lookups <= CHILD_LOOKUP_RETRIES
        &&& snapshots_before_summary(self.log@)
        &&& summary_before_later_snapshots(self.log@)
        &&& summaries_increasing(self.log@)
        &&& forall|k: int| 0 <= k < self.done ==> #[trigger] covered(self.log@, self.abandoned@, k)
        &&& forall|i: int|
            0 <= i < self.log@.len() && self.log@[i] is Summary ==> self.log@[i]->Summary_0
                < self.done
        &&& forall|i: int|
            0 <= i < self.log@.len() && self.log@[i] is Snapshot ==> self.log@[i]->Snapshot_0
                <= self.done
        &&& forall|k: int| #[trigger] self.abandoned@.contains(k) ==> 0 <= k < self.done
        &&& forall|i: int|
            0 <= i < self.log@.len() && self.log@[i] is Snapshot ==> !self.abandoned@.contains(
                self.log@[i]->Snapshot_0 as int,
            )
        &&& (self.phase == Phase::Spawning || self.phase == Phase::Resolving || self.phase
            == Phase::Abandoning) ==> forall|i: int|
            0 <= i < self.log@.len() && self.log@[i] is Snapshot ==> self.log@[i]->Snapshot_0
                < self.done
    }

    /// A recording of `iters` runs; its first action is `Action::Spawn`.
    pub fn new(iters: usize, use_grandchild: bool) -> (r: Run)
        requires
            iters >= 1,
        ensures
            r.wf(),
            r.phase == Phase::Spawning,
            r.done == 0,
            r.iters == iters,
            r.use_grandchild == use_grandchild,
            r.last_error is None,
            r.log@ == Seq::<RecordKind>::empty(),
            r.abandoned@ == Set::<int>::empty(),
    {
        Run {
            iters,
            use_grandchild,
            done: 0,
            phase: Phase::Spawning,
            spawned: 0,
            lookups: 0,
            last_error: None,
            log: Ghost(Seq::empty()),
            abandoned: Ghost(Set::empty()),
        }
    }

    /// The command was spawned as process `pid`.
    pub fn spawned(&mut self, pid: i32) -> (r: Action)
        requires
            old(self).wf(),
            old(self).phase == Phase::Spawning,
        ensures
            final(self).wf(),
            final(self).log@ == old(self).log@,
            final(self).abandoned@ == old(self).abandoned@,
            final(self).done == old(self).done,
            final(self).iters == old(self).iters,
            final(self).use_grandchild == old(self).use_grandchild,
            final(self).last_error == old(self).last_error,
            final(self).spawned == pid,
            old(self).use_grandchild ==> r == Action::LookupChild(pid) && final(self).phase
                == Phase::Resolving && final(self).lookups == 0,
            !old(self).use_grandchild ==> r == Action::Sample(pid) && final(self).phase
                == Phase::Sampling,
    {
        self.spawned = pid;
        if self.use_grandchild {
            self.phase = Phase::Resolving;
            self.lookups = 0;
            Action::LookupChild(pid)
        } else {
            self.phase = Phase::Sampling;
            Action::Sample(pid)
        }
    }

    /// The state and action that follow a child lookup with result `found`.
    pub open spec fn lookup_step(self, found: Result<Option<i32>, ()>) -> (Run, Action) {
        let lookups = (self.lookups + 1) as u32;
        match found {
            Err(_) => (
                Run {
                    phase: Phase::Abandoning,
                    lookups,
                    last_error: Some(RunError::ChildLookupFailed),
                    ..self
                },
                Action::Abandon(RunError::ChildLookupFailed),
            ),
            Ok(Some(c)) => (Run { phase: Phase::Sampling, lookups, ..self }, Action::Sample(c)),
            Ok(None) => if self.lookups < CHILD_LOOKUP_RETRIES {
                (Run { lookups, ..self }, Action::WaitThenLookupChild(self.spawned))
            } else {
                (
                    Run {
                        phase: Phase::Abandoning,
                        lookups,
                        last_error: Some(RunError::ChildLookupTimedOut),
                        ..self
                    },
                    Action::Abandon(RunError::ChildLookupTimedOut),
                )
            },
        }
    }

    /// A lookup of the spawned process's first child gave `found`: sample the
    /// child found, retry after a wait while retries remain, or fail this run.
    pub fn child_lookup(&mut self, found: Result<Option<i32>, ()>) -> (r: Action)
        requires
            old(self).wf(),
            old(self).phase == Phase::Resolving,
        ensures
            final(self).wf(),
            (*final(self), r) == old(self).lookup_step(found),
    {
        self.lookups = self.lookups + 1;
        match found {
            Err(_) => {
                self.phase = Phase::Abandoning;
                self.last_error = Some(RunError::ChildLookupFailed);
                Action::Abandon(RunError::ChildLookupFailed)
            },
            Ok(Some(c)) => {
                self.phase = Phase::Sampling;
                Action::Sample(c)
            },
            Ok(None) => {
                if self.lookups <= CHILD_LOOKUP_RETRIES {
                    Action::WaitThenLookupChild(self.spawned)
                } else {
                    self.phase = Phase::Abandoning;
                    self.last_error = Some(RunError::ChildLookupTimedOut);
                    Action::Abandon(RunError::ChildLookupTimedOut)
                }
            },
        }
    }

    /// The spawned process of a failed run has been reaped: the next run
    /// starts, or the recording ends after the last one.
    pub fn run_abandoned(&mut self) -> (r: Action)
        requires
            old(self).wf(),
            old(self).phase == Phase::Abandoning,
        ensures
            final(self).wf(),
            final(self).log@ == old(self).log@,
            final(self).abandoned@ == old(self).abandoned@.insert(old(self).done as int),
            final(self).done == old(self).done + 1,
            final(self).iters == old(self).iters,
            final(self).use_grandchild == old(self).use_grandchild,
            final(self).last_error == old(self).last_error,
            final(self).done == final(self).iters ==> r == Action::Done && final(self).phase
                == Phase::Finished,
            final(self).done < final(self).iters ==> r == Action::Spawn && final(self).phase
                == Phase::Spawning,
    {
        let ghost old_done = self.done as int;
        let ghost old_ab = self.abandoned@;
        self.abandoned = Ghost(self.abandoned@.insert(self.done as int));
        self.done = self.done + 1;
        proof {
            assert forall|k: int| 0 <= k < self.done implies #[trigger] covered(self.log@, self.abandoned@, k) by {
                if k < old_done {
                    assert(covered(self.log@, old_ab, k));
                }
            }
        }
        if self.done == self.iters {
            self.phase = Phase::Finished;
            Action::Done
        } else {
            self.phase = Phase::Spawning;
            Action::Spawn
        }
    }

    /// The sampler asks to write one snapshot; it may only while its run is
    /// sampling. A tick that loses the race with the command's exit is skipped.
    pub fn admit_snapshot(&mut self) -> (r: bool)
        requires
            old(self).wf(),
        ensures
            final(self).wf(),
            r <==> old(self).phase == Phase::Sampling,
            r ==> final(self).log@ == old(self).log@.push(RecordKind::Snapshot(old(self).done)),
            !r ==> final(self).log@ == old(self).log@,
            final(self).abandoned@ == old(self).abandoned@,
            final(self).phase == old(self).phase,
            final(self).done == old(self).done,
            final(self).iters == old(self).iters,
            final(self).use_grandchild == old(self).use_grandchild,
            final(self).spawned == old(self).spawned,
            final(self).lookups == old(self).lookups,
            final(self).last_error == old(self).last_error,
    {
        if self.phase == Phase::Sampling {
            let ghost old_log = self.log@;
            self.log = Ghost(self.log@.push(RecordKind::Snapshot(self.done)));
            proof {
                assert forall|k: int| 0 <= k < self.done implies #[trigger] covered(self.log@, self.abandoned@, k) by {
                    assert(covered(old_log, self.abandoned@, k));
                    if has_summary(old_log, k) {
                        let i = choose|i: int| 0 <= i < old_log.len() && old_log[i] == RecordKind::Summary(k as usize);
                        assert(self.log@[i] == old_log[i]);
                    }
                }
            }
            true
        } else {
            false
        }
    }

    /// The command exited; no further snapshot of this run is admitted.
    pub fn command_exited(&mut self)
        requires
            old(self).wf(),
            old(self).phase == Phase::Sampling,
        ensures
            final(self).wf(),
            final(self).phase == Phase::Stopping,
            final(self).log@ == old(self).log@,
            final(self).abandoned@ == old(self).abandoned@,
            final(self).done == old(self).done,
            final(self).iters == old(self).iters,
            final(self).use_grandchild == old(self).use_grandchild,
            final(self).last_error == old(self).last_error,
    {
        self.phase = Phase::Stopping;
    }

    /// The sampler has stopped and been joined: the summary is next.
    pub fn sampler_stopped(&mut self) -> (r: Action)
        requires
            old(self).wf(),
            old(self).phase == Phase::Stopping,
        ensures
            final(self).wf(),
            r == Action::Summarize,
            final(self).phase == Phase::Reporting,
            final(self).log@ == old(self).log@,
            final(self).abandoned@ == old(self).abandoned@,
            final(self).done == old(self).done,
            final(self).iters == old(self).iters,
            final(self).use_grandchild == old(self).use_grandchild,
            final(self).last_error == old(self).last_error,
    {
        self.phase = Phase::Reporting;
        Action::Summarize
    }

    /// The summary of the current run was written; `success` tells whether the
    /// command exited successfully. A failure is kept as the last error, and
    /// the next run starts all the same.
    pub fn summary_written(&mut self, success: bool) -> (r: Action)
        requires
            old(self).wf(),
            old(self).phase == Phase::Reporting,
        ensures
            final(self).wf(),
            final(self).log@ == old(self).log@.push(RecordKind::Summary(old(self).done)),
            final(self).abandoned@ == old(self).abandoned@,
            final(self).done == old(self).done + 1,
            final(self).iters == old(self).iters,
            final(self).use_grandchild == old(self).use_grandchild,
            !success ==> final(self).last_error == Some(RunError::CommandFailed),
            success ==> final(self).last_error == old(self).last_error,
            final(self).done == final(self).iters ==> r == Action::Done && final(self).phase
                == Phase::Finished,
            final(self).done < final(self).iters ==> r == Action::Spawn && final(self).phase
                == Phase::Spawning,
    {
        let ghost old_log = self.log@;
        let ghost old_done = self.done as int;
        self.log = Ghost(self.log@.push(RecordKind::Summary(self.done)));
        self.done = self.done + 1;
        proof {
            let n = old_log.len() as int;
            assert(self.log@[n] == RecordKind::Summary(old_done as usize));
            assert forall|k: int| 0 <= k < self.done implies #[trigger] covered(self.log@, self.abandoned@, k) by {
                if k < old_done {
                    assert(covered(old_log, self.abandoned@, k));
                    if has_summary(old_log, k) {
                        let i = choose|i: int| 0 <= i < old_log.len() && old_log[i] == RecordKind::Summary(k as usize);
                        assert(self.log@[i] == old_log[i]);
                    }
                } else {
                    assert(self.log@[n] == RecordKind::Summary(k as usize));
                }
            }
        }
        if !success {
            self.last_error = Some(RunError::CommandFailed);
        }
        if self.done == self.iters {
            self.phase = Phase::Finished;
            Action::Done
        } else {
            self.phase = Phase::Spawning;
            Action::Spawn
        }
    }
}

/// In every reachable state of a recording, each snapshot precedes the
/// summary of its own run and follows the summaries of all earlier runs, each
/// run has at most one summary and they come in run order, and a finished
/// recording holds exactly one summary for each configured run that did not
/// fail before sampling; with no such failure, one for every configured run.
pub proof fn lemma_records_ordered(run: &Run)
    requires
        run.wf(),
    ensures
        forall|i: int, j: int|
            0 <= i < j < run.log@.len() && run.log@[j] is Snapshot && run.log@[i] is Summary
                ==> run.log@[i]->Summary_0 < run.log@[j]->Snapshot_0,
        forall|i: int, j: int|
            0 <= i < j < run.log@.len() && run.log@[i] is Summary && run.log@[j] is Summary
                ==> run.log@[i]->Summary_0 < run.log@[j]->Summary_0,
        run.phase == Phase::Finished ==> {
            &&& forall|k: int|
                0 <= k < run.iters && !run.abandoned@.contains(k) ==> #[trigger] has_summary(
                    run.log@,
                    k,
                )
            &&& forall|i: int|
                0 <= i < run.log@.len() && run.log@[i] is Summary ==> run.log@[i]->Summary_0
                    < run.iters
        },
{
    let log = run.log@;
    assert forall|i: int, j: int|
        0 <= i < j < log.len() && log[j] is Snapshot && log[i] is Summary implies log[i]->Summary_0
            < log[j]->Snapshot_0 by {
        let a = log[i]->Summary_0;
        let k = log[j]->Snapshot_0;
        if a > k {
            assert(covered(log, run.abandoned@, k as int));
            if has_summary(log, k as int) {
                let m = choose|m: int| 0 <= m < log.len() && log[m] == RecordKind::Summary(k);
                if m > i {
                    assert(log[i]->Summary_0 < log[m]->Summary_0);
                } else if m < i {
                    assert(log[m]->Summary_0 != log[j]->Snapshot_0);
                }
            }
        }
    }
    if run.phase == Phase::Finished {
        assert forall|k: int|
            0 <= k < run.iters && !run.abandoned@.contains(k) implies #[trigger] has_summary(log, k) by {
            assert(covered(log, run.abandoned@, k));
        }
    }
}

/// In child-lookup mode, when the first lookup and each of its retries find
/// no child, the run waits before each retry and then fails with a timeout,
/// leaving the records already admitted as they were.
pub proof fn lemma_lookup_window_times_out(run: Run)
    requires
        run.wf(),
        run.phase == Phase::Resolving,
        run.lookups == 0,
    ensures
        ({
            let s1 = run.lookup_step(Ok(None));
            let s2 = s1.0.lookup_step(Ok(None));
            let s3 = s2.0.lookup_step(Ok(None));
            let s4 = s3.0.lookup_step(Ok(None));
            &&& s1.1 == Action::WaitThenLookupChild(run.spawned)
            &&& s2.1 == Action::WaitThenLookupChild(run.spawned)
            &&& s3.1 == Action::WaitThenLookupChild(run.spawned)
            &&& s4.1 == Action::Abandon(RunError::ChildLookupTimedOut)
            &&& s4.0.phase == Phase::Abandoning
            &&& s4.0.last_error == Some(RunError::ChildLookupTimedOut)
            &&& s4.0.log@ == run.log@
            &&& s4.0.done == run.done
        }),
{
}

/// A sampler takes a sample only after a wait of a full interval, so after
/// waiting `waited_ms` in all it has taken at most `waited_ms / interval_ms`
/// samples, which is within the ceiling of that quotient plus one; a run of
/// `d` milliseconds, within which all the waits lie, gets at most
/// `ceil(d / interval_ms) + 1` snapshots.
pub proof fn lemma_sample_count_bound(s: &Sampler)
    requires
        s.wf(),
    ensures
        s.samples@ <= s.waited_ms@ / (s.interval_ms as nat),
        s.samples@ <= (s.waited_ms@ + s.interval_ms - 1) / (s.interval_ms as int) + 1,
{
    let n = s.samples@ as int;
    let i = s.interval_ms as int;
    let w = s.waited_ms@ as int;
    assert(i * n <= w) by (nonlinear_arith)
        requires
            n * i <= w,
    ;
    vstd::arithmetic::div_mod::lemma_div_is_ordered(i * n, w, i);
    vstd::arithmetic::div_mod::lemma_div_multiples_vanish(n, i);
    assert(n <= w / i);
    vstd::arithmetic::div_mod::lemma_div_is_ordered(w, w + i - 1, i);
}

} // verus!
