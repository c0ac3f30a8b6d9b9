//! The record of what one scenario, and what a whole run, came to.

use vstd::prelude::*;
use crate::phase::{Phase, PhaseResult};
use crate::scenario::Scenario;
use crate::span::Span;

verus! {

/// One executed phase: which it was, how long it ran, what it came to.
#[derive(Clone, Copy, Debug, PartialEq, Eq, Structural)]
pub struct PhaseRecord {
    pub phase: Phase,
    pub duration: Span,
    pub result: PhaseResult,
}

/// Whether every record in `records` is a success.
pub open spec fn all_succeeded(records: Seq<PhaseRecord>) -> bool {
    forall|i: int| 0 <= i < records.len() ==> (#[trigger] records[i]).result == PhaseResult::Success
}

/// The result of running the pipeline for one scenario: the phases that were
/// executed, in the order in which they ran.
#[derive(Debug)]
pub struct Outcome {
    scenario: Scenario,
    log_path: String,
    phase_results: Vec<PhaseRecord>,
}

impl Outcome {
    /// The executed phases, oldest first.
    pub closed spec fn records(&self) -> Seq<PhaseRecord> {
        self.phase_results@
    }

    /// The scenario that was run.
    pub closed spec fn scenario_spec(&self) -> Scenario {
        self.scenario
    }

    /// Where the scenario's log is kept.
    pub closed spec fn log_path_spec(&self) -> String {
        self.log_path
    }

    /// Whether every executed phase succeeded.
    pub open spec fn success_spec(&self) -> bool {
        all_succeeded(self.records())
    }

    /// The duration of the test phase, where it was the last to run.
    pub open spec fn test_duration_spec(&self) -> Option<Span> {
        if self.records().len() > 0 && self.records().last().phase == Phase::Test {
            Some(self.records().last().duration)
        } else {
            None
        }
    }

    /// An outcome for `scenario` with no phase executed yet.
    pub fn new(log_path: String, scenario: Scenario) -> (outcome: Outcome)
        ensures
            outcome.records() == Seq::<PhaseRecord>::empty(),
            outcome.scenario_spec() == scenario,
            outcome.log_path_spec() == log_path,
    {
        Outcome { scenario, log_path, phase_results: Vec::new() }
    }

    /// Appends the result of the phase that has just run. Earlier records
    /// stay as they are.
    pub fn add_phase_result(&mut self, phase: Phase, duration: Span, result: PhaseResult)
        ensures
            final(self).records() == old(self).records().push(
                PhaseRecord { phase, duration, result },
            ),
            final(self).scenario_spec() == old(self).scenario_spec(),
            final(self).log_path_spec() == old(self).log_path_spec(),
    {
        self.phase_results.push(PhaseRecord { phase, duration, result });
    }

    /// The scenario that was run.
    pub fn scenario(&self) -> (scenario: &Scenario)
        ensures
            *scenario == self.scenario_spec(),
    {
        &self.scenario
    }

    /// Where the scenario's log is kept.
    pub fn log_path(&self) -> (path: &String)
        ensures
            *path == self.log_path_spec(),
    {
        &self.log_path
    }

    /// The executed phases, oldest first.
    pub fn phase_results(&self) -> (records: &Vec<PhaseRecord>)
        ensures
            records@ == self.records(),
    {
        &self.phase_results
    }

    /// How many phases were executed.
    pub fn n_phases(&self) -> (n: usize)
        ensures
            n == self.records().len(),
    {
        self.phase_results.len()
    }

    /// The phase that ran last.
    pub fn last_phase(&self) -> (phase: Phase)
        requires
            self.records().len() > 0,
        ensures
            phase == self.records().last().phase,
    {
        self.phase_results[self.phase_results.len() - 1].phase
    }

    /// The result of the phase that ran last.
    pub fn last_phase_result(&self) -> (result: PhaseResult)
        requires
            self.records().len() > 0,
        ensures
            result == self.records().last().result,
    {
        self.phase_results[self.phase_results.len() - 1].result
    }

    /// Whether every executed phase succeeded.
    pub fn success(&self) -> (b: bool)
        ensures
            b == self.success_spec(),
    {
        let mut i: usize = 0;
        while i < self.phase_results.len()
            invariant
                i <= self.phase_results@.len(),
                forall|j: int| 0 <= j < i ==> (#[trigger] self.phase_results@[j]).result
                    == PhaseResult::Success,
            decreases self.phase_results@.len() - i,
        {
            if !self.phase_results[i].result.success() {
                return false;
            }
            i += 1;
        }
        true
    }

    /// How long the test phase ran, where it was the last phase to run.
    pub fn test_duration(&self) -> (duration: Option<Span>)
        ensures
            duration == self.test_duration_spec(),
    {
        let n: usize = self.phase_results.len();
        if n == 0 {
            return None;
        }
        let last = self.phase_results[n - 1];
        match last.phase {
            Phase::Test => Some(last.duration),
            _ => None,
        }
    }
}

/// The outcomes of all scenarios of one run so far, in the order in which
/// they were produced. It only ever grows.
#[derive(Debug)]
pub struct LabOutcome {
    outcomes: Vec<Outcome>,
}

/// How many of the outcomes are mutants on which every phase succeeded: the
/// mutants that the tests did not catch.
pub open spec fn count_missed(outcomes: Seq<Outcome>) -> nat
    decreases outcomes.len(),
{
    if outcomes.len() == 0 {
        0
    } else {
        let rest = count_missed(outcomes.drop_last());
        let last = outcomes.last();
        if last.scenario_spec() is Mutant && last.success_spec() {
            rest + 1
        } else {
            rest
        }
    }
}

/// Whether an unmutated scenario among the outcomes failed.
pub open spec fn unmutated_failed(outcomes: Seq<Outcome>) -> bool {
    exists|i: int|
        0 <= i < outcomes.len() && !((#[trigger] outcomes[i]).scenario_spec() is Mutant)
            && !outcomes[i].success_spec()
}

impl View for LabOutcome {
    type V = Seq<Outcome>;

    closed spec fn view(&self) -> Seq<Outcome> {
        self.outcomes@
    }
}

impl LabOutcome {
    /// An accumulator that holds no outcome yet.
    pub fn new() -> (lab_outcome: LabOutcome)
        ensures
            lab_outcome@ == Seq::<Outcome>::empty(),
    {
        LabOutcome { outcomes: Vec::new() }
    }

    /// Appends the outcome of one more scenario.
    pub fn add(&mut self, outcome: Outcome)
        ensures
            final(self)@ == old(self)@.push(outcome),
    {
        self.outcomes.push(outcome);
    }

    /// The outcomes so far, oldest first.
    pub fn outcomes(&self) -> (outcomes: &Vec<Outcome>)
        ensures
            outcomes@ == self@,
    {
        &self.outcomes
    }

    /// How many outcomes were recorded.
    pub fn len(&self) -> (n: usize)
        ensures
            n == self@.len(),
    {
        self.outcomes.len()
    }

    /// Whether the run was given up because the source tree or the baseline
    /// did not pass.
    pub fn setup_failed(&self) -> (b: bool)
        ensures
            b == unmutated_failed(self@),
    {
        let mut i: usize = 0;
        while i < self.outcomes.len()
            invariant
                i <= self.outcomes@.len(),
                forall|j: int|
                    0 <= j < i ==> (#[trigger] self.outcomes@[j]).scenario_spec() is Mutant
                        || self.outcomes@[j].success_spec(),
            decreases self.outcomes@.len() - i,
        {
            if !self.outcomes[i].scenario().is_mutant() && !self.outcomes[i].success() {
                return true;
            }
            i += 1;
        }
        false
    }

    /// How many mutants passed every phase, and so were missed by the tests.
    pub fn n_missed(&self) -> (n: usize)
        ensures
            n == count_missed(self@),
    {
        let mut n: usize = 0;
        let mut i: usize = 0;
        while i < self.outcomes.len()
            invariant
                i <= self.outcomes@.len(),
                n == count_missed(self.outcomes@.take(i as int)),
                n <= i,
            decreases self.outcomes@.len() - i,
        {
            proof {
                assert(self.outcomes@.take(i + 1).drop_last() =~= self.outcomes@.take(i as int));
            }
            if self.outcomes[i].scenario().is_mutant() && self.outcomes[i].success() {
                n += 1;
            }
            i += 1;
        }
        proof {
            assert(self.outcomes@.take(i as int) =~= self.outcomes@);
        }
        n
    }
}

} // verus!
