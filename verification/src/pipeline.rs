//! The phase pipeline of one scenario: which phase runs next, with which
//! arguments and under which limit, and when the pipeline stops.
//!
//! The caller runs the build tool. It asks a [`PhaseRun`] for the next
//! command, runs it, and reports the result, until no command is left.

use vstd::prelude::*;
use vstd::string::*;
use crate::options::{strings, Options};
use crate::outcome::{all_succeeded, Outcome, PhaseRecord};
use crate::phase::{all_phases, Phase, PhaseResult};
use crate::scenario::Scenario;
use crate::span::Span;

verus! {

/// The build tool's arguments for a phase. Only the test phase takes the
/// user's extra arguments.
pub open spec fn cargo_args_spec(phase: Phase, extra: Seq<Seq<char>>) -> Seq<Seq<char>> {
    match phase {
        Phase::Check => seq!["check"@, "--tests"@],
        Phase::Build => seq!["build"@, "--tests"@],
        Phase::Test => seq!["test"@] + extra,
    }
}

/// The limit on a phase. Only the test phase has one.
pub open spec fn phase_timeout_spec(phase: Phase, options: Options) -> Option<Span> {
    if phase == Phase::Test {
        options.test_timeout
    } else {
        None
    }
}

/// Whether the pipeline stops once `phase` has come to `result`: after any
/// phase that did not succeed, and after the check phase in check-only mode.
pub open spec fn stops_after(phase: Phase, result: PhaseResult, check_only: bool) -> bool {
    (phase == Phase::Check && check_only) || result != PhaseResult::Success
}

/// Whether `records` can be what a pipeline over `phases` has executed so
/// far: the phases were taken in their order, and none ran after one that
/// stops the pipeline.
pub open spec fn follows_pipeline(
    phases: Seq<Phase>,
    records: Seq<PhaseRecord>,
    check_only: bool,
) -> bool {
    &&& records.len() <= phases.len()
    &&& forall|i: int| 0 <= i < records.len() ==> (#[trigger] records[i]).phase == phases[i]
    &&& forall|i: int|
        0 <= i < records.len() - 1 ==> !stops_after(
            (#[trigger] records[i]).phase,
            records[i].result,
            check_only,
        )
}

/// Whether a pipeline over `phases` that has executed `records` runs nothing
/// more.
pub open spec fn pipeline_finished(
    phases: Seq<Phase>,
    records: Seq<PhaseRecord>,
    check_only: bool,
) -> bool {
    records.len() >= phases.len() || (records.len() > 0 && stops_after(
        records.last().phase,
        records.last().result,
        check_only,
    ))
}

/// The build tool's arguments for `phase`.
pub fn cargo_args(phase: Phase, options: &Options) -> (args: Vec<String>)
    ensures
        strings(args@) == cargo_args_spec(phase, strings(options.additional_cargo_test_args@)),
{
    let mut args: Vec<String> = Vec::new();
    match phase {
        Phase::Check => {
            args.push(String::from_str("check"));
            args.push(String::from_str("--tests"));
            assert(strings(args@) =~= seq!["check"@, "--tests"@]);
        },
        Phase::Build => {
            args.push(String::from_str("build"));
            args.push(String::from_str("--tests"));
            assert(strings(args@) =~= seq!["build"@, "--tests"@]);
        },
        Phase::Test => {
            args.push(String::from_str("test"));
            let extra = &options.additional_cargo_test_args;
            let mut i: usize = 0;
            while i < extra.len()
                invariant
                    i <= extra@.len(),
                    args@.len() == i + 1,
                    args@[0]@ == "test"@,
                    forall|j: int| 1 <= j <= i ==> (#[trigger] args@[j]) == extra@[j - 1],
                decreases extra@.len() - i,
            {
                args.push(extra[i].clone());
                i += 1;
            }
            assert(strings(args@) =~= seq!["test"@] + strings(extra@));
        },
    }
    args
}

/// The limit under which `phase` runs; `None` where it may run for ever.
pub fn phase_timeout(phase: Phase, options: &Options) -> (timeout: Option<Span>)
    ensures
        timeout == phase_timeout_spec(phase, *options),
{
    match phase {
        Phase::Test => options.test_timeout,
        _ => None,
    }
}

/// One call of the build tool: the phase, its arguments and its limit.
#[derive(Debug)]
pub struct PhaseCommand {
    pub phase: Phase,
    pub args: Vec<String>,
    pub timeout: Option<Span>,
}

/// The pipeline of one scenario while it runs.
#[derive(Debug)]
pub struct PhaseRun {
    phases: Vec<Phase>,
    check_only: bool,
    outcome: Outcome,
}

impl PhaseRun {
    /// The phases that the run was asked to go through.
    pub closed spec fn phases(&self) -> Seq<Phase> {
        self.phases@
    }

    /// Whether the run stops after the check phase.
    pub closed spec fn check_only(&self) -> bool {
        self.check_only
    }

    /// What the run has come to so far.
    pub closed spec fn outcome(&self) -> Outcome {
        self.outcome
    }

    /// The run's invariant: what it has recorded is what a pipeline over its
    /// phases executes.
    pub open spec fn wf(&self) -> bool {
        follows_pipeline(self.phases(), self.outcome().records(), self.check_only())
    }

    /// Whether the run executes nothing more.
    pub open spec fn finished(&self) -> bool {
        pipeline_finished(self.phases(), self.outcome().records(), self.check_only())
    }

    /// Starts the pipeline of `scenario` over `phases`, with its log at
    /// `log_path`. Nothing has run yet.
    pub fn new(
        log_path: String,
        scenario: Scenario,
        phases: Vec<Phase>,
        options: &Options,
    ) -> (run: PhaseRun)
        ensures
            run.wf(),
            run.phases() == phases@,
            run.check_only() == options.check_only,
            run.outcome().records() == Seq::<PhaseRecord>::empty(),
            run.outcome().scenario_spec() == scenario,
            run.outcome().log_path_spec() == log_path,
    {
        let outcome = Outcome::new(log_path, scenario);
        PhaseRun { phases, check_only: options.check_only, outcome }
    }

    /// Whether the run executes nothing more.
    pub fn is_finished(&self) -> (b: bool)
        requires
            self.wf(),
        ensures
            b == self.finished(),
    {
        let n: usize = self.outcome.n_phases();
        if n >= self.phases.len() {
            return true;
        }
        if n == 0 {
            return false;
        }
        let stop_at_check = match self.outcome.last_phase() {
            Phase::Check => self.check_only,
            _ => false,
        };
        stop_at_check || !self.outcome.last_phase_result().success()
    }

    /// The phase to run next, or `None` where the run is over.
    pub fn next_phase(&self) -> (next: Option<Phase>)
        requires
            self.wf(),
        ensures
            self.finished() ==> next is None,
            !self.finished() ==> next == Some(self.phases()[self.outcome().records().len() as int]),
    {
        if self.is_finished() {
            None
        } else {
            Some(self.phases[self.outcome.n_phases()])
        }
    }

    /// The call of the build tool to make next, or `None` where the run is
    /// over.
    pub fn next_command(&self, options: &Options) -> (next: Option<PhaseCommand>)
        requires
            self.wf(),
        ensures
            self.finished() ==> next is None,
            !self.finished() ==> next is Some && ({
                let phase = self.phases()[self.outcome().records().len() as int];
                let command = next->Some_0;
                &&& command.phase == phase
                &&& strings(command.args@) == cargo_args_spec(
                    phase,
                    strings(options.additional_cargo_test_args@),
                )
                &&& command.timeout == phase_timeout_spec(phase, *options)
            }),
    {
        match self.next_phase() {
            None => None,
            Some(phase) => Some(
                PhaseCommand {
                    phase,
                    args: cargo_args(phase, options),
                    timeout: phase_timeout(phase, options),
                },
            ),
        }
    }

    /// Records what the phase that was due came to, and how long it ran.
    pub fn record(&mut self, duration: Span, result: PhaseResult)
        requires
            old(self).wf(),
            !old(self).finished(),
        ensures
            final(self).wf(),
            final(self).phases() == old(self).phases(),
            final(self).check_only() == old(self).check_only(),
            final(self).outcome().records() == old(self).outcome().records().push(
                PhaseRecord {
                    phase: old(self).phases()[old(self).outcome().records().len() as int],
                    duration,
                    result,
                },
            ),
            final(self).outcome().scenario_spec() == old(self).outcome().scenario_spec(),
            final(self).outcome().log_path_spec() == old(self).outcome().log_path_spec(),
    {
        let phase = self.phases[self.outcome.n_phases()];
        self.outcome.add_phase_result(phase, duration, result);
    }

    /// What the run has come to so far.
    pub fn outcome_so_far(&self) -> (outcome: &Outcome)
        ensures
            *outcome == self.outcome(),
    {
        &self.outcome
    }

    /// Ends the run and hands out what it came to.
    pub fn into_outcome(self) -> (outcome: Outcome)
        ensures
            outcome == self.outcome(),
    {
        self.outcome
    }
}

/// A phase that does not succeed is the last to run: whatever was asked for
/// after it is never executed.
pub proof fn lemma_failure_is_last(
    phases: Seq<Phase>,
    records: Seq<PhaseRecord>,
    check_only: bool,
    i: int,
)
    requires
        follows_pipeline(phases, records, check_only),
        0 <= i < records.len(),
        records[i].result != PhaseResult::Success,
    ensures
        i == records.len() - 1,
        pipeline_finished(phases, records, check_only),
        !all_succeeded(records),
{
}

/// Where the check phase comes first and fails, it is the only phase on
/// record, and the pipeline is over.
pub proof fn lemma_failed_check_ends_pipeline(
    phases: Seq<Phase>,
    records: Seq<PhaseRecord>,
    check_only: bool,
)
    requires
        follows_pipeline(phases, records, check_only),
        phases.len() > 0,
        phases[0] == Phase::Check,
        records.len() > 0,
        records[0].result != PhaseResult::Success,
    ensures
        records.len() == 1,
        records[0].phase == Phase::Check,
        pipeline_finished(phases, records, check_only),
{
    lemma_failure_is_last(phases, records, check_only, 0);
}

/// In check-only mode a pipeline that begins with the check phase executes
/// that phase alone, whatever else was asked for, and succeeds exactly if
/// the check did.
pub proof fn lemma_check_only_runs_check_alone(phases: Seq<Phase>, records: Seq<PhaseRecord>)
    requires
        follows_pipeline(phases, records, true),
        phases.len() > 0,
        phases[0] == Phase::Check,
        records.len() > 0,
    ensures
        records.len() == 1,
        records[0].phase == Phase::Check,
        pipeline_finished(phases, records, true),
        all_succeeded(records) == (records[0].result == PhaseResult::Success),
{
    if records.len() > 1 {
        assert(!stops_after(records[0].phase, records[0].result, true));
    }
}

/// A finished pipeline that is not in check-only mode succeeded exactly if
/// it went through every phase and the last one succeeded.
pub proof fn lemma_success_runs_every_phase(phases: Seq<Phase>, records: Seq<PhaseRecord>)
    requires
        follows_pipeline(phases, records, false),
        pipeline_finished(phases, records, false),
        phases.len() > 0,
    ensures
        all_succeeded(records) <==> (records.len() == phases.len() && records.last().result
            == PhaseResult::Success),
{
    if records.len() == phases.len() && records.last().result == PhaseResult::Success {
        assert forall|i: int| 0 <= i < records.len() implies (#[trigger] records[i]).result
            == PhaseResult::Success by {
            if i < records.len() - 1 {
                assert(!stops_after(records[i].phase, records[i].result, false));
            }
        }
    }
    if all_succeeded(records) {
        if records.len() > 0 {
            assert(records[records.len() - 1].result == PhaseResult::Success);
        }
    }
}

/// A pipeline over all three phases that is over and succeeded, outside
/// check-only mode, has run the tests last: their duration is on record.
pub proof fn lemma_passing_run_ends_with_tests(records: Seq<PhaseRecord>)
    requires
        follows_pipeline(all_phases(), records, false),
        pipeline_finished(all_phases(), records, false),
        all_succeeded(records),
    ensures
        records.len() == 3,
        records.last().phase == Phase::Test,
{
    lemma_success_runs_every_phase(all_phases(), records);
}

/// The phases asked of a scenario: check and build for the real source
/// tree, or the check alone in check-only mode; all three for the baseline
/// and for every mutant.
pub open spec fn scenario_phases_spec(scenario: Scenario, check_only: bool) -> Seq<Phase> {
    if scenario is SourceTree {
        if check_only {
            seq![Phase::Check]
        } else {
            seq![Phase::Check, Phase::Build]
        }
    } else {
        all_phases()
    }
}

/// The phases that the real source tree goes through before anything is
/// copied.
pub fn source_tree_phases(options: &Options) -> (phases: Vec<Phase>)
    ensures
        phases@ == scenario_phases_spec(Scenario::SourceTree, options.check_only),
{
    if options.check_only {
        let phases = vec![Phase::Check];
        assert(phases@ =~= seq![Phase::Check]);
        phases
    } else {
        let phases = vec![Phase::Check, Phase::Build];
        assert(phases@ =~= seq![Phase::Check, Phase::Build]);
        phases
    }
}

/// The phases asked of `scenario`.
pub fn scenario_phases(scenario: &Scenario, options: &Options) -> (phases: Vec<Phase>)
    ensures
        phases@ == scenario_phases_spec(*scenario, options.check_only),
{
    match scenario {
        Scenario::SourceTree => source_tree_phases(options),
        _ => Phase::all(),
    }
}

} // verus!
