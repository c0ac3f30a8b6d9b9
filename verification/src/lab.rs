//! The control of a whole run: the unmutated scenarios first, then the
//! mutants one by one, and the outcomes kept as they come.
//!
//! A [`Lab`] decides what is due. The caller does the work (it copies the
//! tree, lists the mutations, runs each scenario's pipeline, writes the
//! result files) and reports back.

use rand::seq::SliceRandom;
use vstd::prelude::*;
use vstd::string::*;
use crate::options::Options;
use crate::outcome::{count_missed, unmutated_failed, LabOutcome, Outcome, PhaseRecord};
use crate::phase::{Phase, PhaseResult};
use crate::pipeline::{
    follows_pipeline, lemma_check_only_runs_check_alone, lemma_failed_check_ends_pipeline,
    pipeline_finished, scenario_phases, scenario_phases_spec, PhaseRun,
};
use crate::scenario::{Mutation, Scenario};
use crate::span::{auto_timeout, Span};

verus! {

/// How far a run has come.
#[derive(Clone, Copy, Debug, PartialEq, Eq, Structural)]
pub enum LabStage {
    /// The real source tree is to be checked and built.
    SourceTree,
    /// The source tree is to be copied to the scratch workspace.
    CopySource,
    /// The unmutated copy is to be checked, built and tested.
    Baseline,
    /// The mutations are to be listed.
    ListMutations,
    /// The list of planned mutations is to be written to its file.
    WriteMutants,
    /// The next mutant is to be tried.
    Mutants,
    /// The results file is to be written anew from the outcomes so far.
    WriteOutcomes,
    /// Every mutant was tried.
    Done,
    /// The source tree or the baseline did not pass, and no mutant was
    /// tried.
    Abandoned,
}

/// Puts `mutations` in a random order in place, by the method `shuffle` of
/// `rand::seq::SliceRandom` with the generator of `rand::thread_rng`.
///
/// Believed, not proved: the method only swaps elements, so the list holds
/// the same mutations afterwards, each as often as before. Nothing is said
/// of their order. The generator is seeded by the operating system, and the
/// call panics where no seed can be had.
#[verifier::external_body]
fn shuffle_mutations(mutations: &mut Vec<Mutation>)
    ensures
        final(mutations)@.to_multiset() == old(mutations)@.to_multiset(),
{
    mutations.shuffle(&mut rand::thread_rng());
}

/// The order in which the mutations are tried: a random one where `shuffle`
/// is set, else the order in which they were listed.
pub fn order_mutations(mutations: Vec<Mutation>, shuffle: bool) -> (ordered: Vec<Mutation>)
    ensures
        ordered@.to_multiset() == mutations@.to_multiset(),
        ordered@.len() == mutations@.len(),
        !shuffle ==> ordered@ == mutations@,
{
    let mut ordered = mutations;
    if shuffle {
        shuffle_mutations(&mut ordered);
    }
    proof {
        ordered@.to_multiset_ensures();
        mutations@.to_multiset_ensures();
    }
    ordered
}

/// The timeout of the test phase once the baseline has passed: the one that
/// was set, else the one derived from the baseline's test duration, else
/// none.
pub open spec fn timeout_after_baseline(set: Option<Span>, baseline: Option<Span>) -> Option<
    Span,
> {
    match (set, baseline) {
        (Some(_), _) => set,
        (None, Some(duration)) => Some(
            Span { nanos: crate::span::auto_timeout_nanos(duration.nanos as int) as u128 },
        ),
        (None, None) => None,
    }
}

/// What the caller says of the mutations that it found.
pub fn mutation_noun(n_mutations: usize) -> (noun: &'static str)
    ensures
        noun@ == if n_mutations == 1 {
            "mutation"@
        } else {
            "mutations"@
        },
{
    if n_mutations == 1 {
        "mutation"
    } else {
        "mutations"
    }
}

/// The one-line summary shown when a run is abandoned, which names the
/// phase that failed and where.
pub open spec fn abandon_message_spec(in_source_tree: bool, phase_name: Seq<char>) -> Seq<char> {
    if in_source_tree {
        phase_name + " failed in source tree, not continuing"@
    } else {
        "cargo "@ + phase_name + " failed in an unmutated tree, so no mutants were tested"@
    }
}

/// The one-line summary shown when the unmutated scenario of `outcome` has
/// failed.
pub fn abandon_message(outcome: &Outcome) -> (message: String)
    requires
        outcome.records().len() > 0,
    ensures
        message@ == abandon_message_spec(
            outcome.scenario_spec() is SourceTree,
            outcome.records().last().phase.name_spec(),
        ),
{
    let phase_name = outcome.last_phase().name();
    match outcome.scenario() {
        Scenario::SourceTree => String::from_str(phase_name).concat(
            " failed in source tree, not continuing",
        ),
        _ => String::from_str("cargo ").concat(phase_name).concat(
            " failed in an unmutated tree, so no mutants were tested",
        ),
    }
}

/// How many outcomes the results file holds once `n_tried` mutants were
/// tried and the file was written after each, with `n_outcomes` on record
/// then: none before the first mutant, all of them after it.
pub open spec fn written_after(n_tried: int, n_outcomes: int) -> int {
    if n_tried <= 0 {
        0
    } else {
        n_outcomes
    }
}

/// One run of the harness.
#[derive(Debug)]
pub struct Lab {
    options: Options,
    stage: LabStage,
    outcomes: LabOutcome,
    mutations: Vec<Mutation>,
    next_mutation: usize,
    mutants_written: bool,
    outcomes_written: usize,
}

impl Lab {
    /// The settings of the run, with the test timeout as it stands.
    pub closed spec fn options_spec(&self) -> Options {
        self.options
    }

    /// How far the run has come.
    pub closed spec fn stage_spec(&self) -> LabStage {
        self.stage
    }

    /// The outcomes so far.
    pub closed spec fn outcomes_spec(&self) -> Seq<Outcome> {
        self.outcomes@
    }

    /// The mutations in the order in which they are tried.
    pub closed spec fn mutations_spec(&self) -> Seq<Mutation> {
        self.mutations@
    }

    /// How many mutants were tried.
    pub closed spec fn n_tried(&self) -> nat {
        self.next_mutation as nat
    }

    /// Whether the list of planned mutations was written to its file.
    pub closed spec fn mutants_written(&self) -> bool {
        self.mutants_written
    }

    /// How many outcomes the results file holds as it was last written; 0
    /// where it was never written.
    pub closed spec fn n_outcomes_written(&self) -> nat {
        self.outcomes_written as nat
    }

    /// What the file of planned mutations holds, if it was written.
    pub open spec fn mutants_file(&self) -> Option<Seq<Mutation>> {
        if self.mutants_written() {
            Some(self.mutations_spec())
        } else {
            None
        }
    }

    /// What the results file holds, if it was written: the outcomes that
    /// were on record when it was last written.
    pub open spec fn outcomes_file(&self) -> Option<Seq<Outcome>> {
        if self.n_outcomes_written() > 0 {
            Some(self.outcomes_spec().take(self.n_outcomes_written() as int))
        } else {
            None
        }
    }

    /// How many unmutated scenarios come before the baseline.
    pub open spec fn n_before_baseline(&self) -> nat {
        if self.options_spec().build_source {
            1
        } else {
            0
        }
    }

    /// The scenario that runs at place `i` of the run: the source tree
    /// first, where it is built, then the baseline, then the mutants in
    /// their order, each with its place and their number.
    pub open spec fn scenario_at(&self, i: int) -> Scenario {
        let before = self.n_before_baseline() as int;
        if i < before {
            Scenario::SourceTree
        } else if i == before {
            Scenario::Baseline
        } else {
            Scenario::Mutant {
                mutation: self.mutations_spec()[i - before - 1],
                i_mutation: (i - before - 1) as usize,
                n_mutations: self.mutations_spec().len() as usize,
            }
        }
    }

    /// Whether `outcome` is what the pipeline of the scenario at place `i`
    /// leaves behind: it is of that scenario, went through that scenario's
    /// phases in their order, and stopped where the pipeline stops.
    pub open spec fn is_outcome_at(&self, i: int, outcome: Outcome) -> bool {
        let check_only = self.options_spec().check_only;
        let phases = scenario_phases_spec(self.scenario_at(i), check_only);
        &&& outcome.scenario_spec() == self.scenario_at(i)
        &&& follows_pipeline(phases, outcome.records(), check_only)
        &&& pipeline_finished(phases, outcome.records(), check_only)
    }

    /// Whether the outcome on record at place `i` is that of the scenario
    /// at that place.
    pub open spec fn outcome_in_place(&self, i: int) -> bool {
        self.is_outcome_at(i, self.outcomes_spec()[i])
    }

    /// Whether the outcome at place `i` is a success where the run could
    /// not have gone on without one: an unmutated scenario must have passed,
    /// unless it is the one at which the run was abandoned.
    pub open spec fn passed_if_needed(&self, i: int) -> bool {
        let is_last = i == self.outcomes_spec().len() - 1;
        i <= self.n_before_baseline() && !(self.stage_spec() == LabStage::Abandoned && is_last)
            ==> self.outcomes_spec()[i].success_spec()
    }

    /// Whether no mutation was taken or tried yet, and neither file written.
    pub open spec fn nothing_planned(&self) -> bool {
        &&& self.mutations_spec().len() == 0
        &&& self.n_tried() == 0
        &&& !self.mutants_written()
        &&& self.n_outcomes_written() == 0
    }

    /// The run's invariant: at every stage the outcomes on record are those
    /// of the scenarios that came before, one each and in their order.
    pub open spec fn wf(&self) -> bool {
        let before = self.n_before_baseline();
        let n_outcomes = self.outcomes_spec().len();
        let n_mutations = self.mutations_spec().len();
        &&& forall|i: int| 0 <= i < n_outcomes ==> #[trigger] self.outcome_in_place(i)
        &&& forall|i: int| 0 <= i < n_outcomes ==> #[trigger] self.passed_if_needed(i)
        &&& match self.stage_spec() {
            LabStage::SourceTree => self.options_spec().build_source && n_outcomes == 0
                && self.nothing_planned(),
            LabStage::CopySource | LabStage::Baseline => n_outcomes == before
                && self.nothing_planned(),
            LabStage::ListMutations => n_outcomes == before + 1 && self.nothing_planned(),
            LabStage::WriteMutants => n_outcomes == before + 1 && self.n_tried() == 0
                && !self.mutants_written() && self.n_outcomes_written() == 0,
            LabStage::Mutants => self.n_tried() < n_mutations && n_outcomes == before + 1
                + self.n_tried() && self.mutants_written() && self.n_outcomes_written()
                == written_after(self.n_tried() as int, n_outcomes as int),
            LabStage::WriteOutcomes => 1 <= self.n_tried() <= n_mutations && n_outcomes == before
                + 1 + self.n_tried() && self.mutants_written() && self.n_outcomes_written()
                == written_after(self.n_tried() - 1, n_outcomes - 1),
            LabStage::Done => self.n_tried() == n_mutations && n_outcomes == before + 1
                + n_mutations && self.mutants_written() && self.n_outcomes_written()
                == written_after(n_mutations as int, n_outcomes as int),
            LabStage::Abandoned => 1 <= n_outcomes <= before + 1 && self.nothing_planned()
                && !self.outcomes_spec().last().success_spec(),
        }
    }

    /// Whether `run` is the pipeline of the scenario that is due: of that
    /// scenario, over its phases, in the run's mode.
    pub open spec fn runs_due_scenario(&self, run: PhaseRun) -> bool {
        &&& self.due_scenario_spec() is Some
        &&& run.wf()
        &&& run.outcome().scenario_spec() == self.due_scenario_spec()->Some_0
        &&& run.check_only() == self.options_spec().check_only
        &&& run.phases() == scenario_phases_spec(
            self.due_scenario_spec()->Some_0,
            self.options_spec().check_only,
        )
    }

    /// The scenario whose pipeline is to run now, if one is.
    pub open spec fn due_scenario_spec(&self) -> Option<Scenario> {
        match self.stage_spec() {
            LabStage::SourceTree => Some(Scenario::SourceTree),
            LabStage::Baseline => Some(Scenario::Baseline),
            LabStage::Mutants => Some(
                Scenario::Mutant {
                    mutation: self.mutations_spec()[self.n_tried() as int],
                    i_mutation: self.n_tried() as usize,
                    n_mutations: self.mutations_spec().len() as usize,
                },
            ),
            _ => None,
        }
    }

    /// The stage that follows the outcome of a scenario.
    pub open spec fn stage_after(&self, outcome: Outcome) -> LabStage {
        match self.stage_spec() {
            LabStage::SourceTree => if outcome.success_spec() {
                LabStage::CopySource
            } else {
                LabStage::Abandoned
            },
            LabStage::Baseline => if outcome.success_spec() {
                LabStage::ListMutations
            } else {
                LabStage::Abandoned
            },
            LabStage::Mutants => LabStage::WriteOutcomes,
            other => other,
        }
    }

    /// A run at its start: the source tree comes first where it is to be
    /// built, else the copy.
    pub fn new(options: Options) -> (lab: Lab)
        ensures
            lab.wf(),
            lab.options_spec() == options,
            lab.outcomes_spec() == Seq::<Outcome>::empty(),
            lab.mutations_spec() == Seq::<Mutation>::empty(),
            lab.stage_spec() == if options.build_source {
                LabStage::SourceTree
            } else {
                LabStage::CopySource
            },
    {
        let stage = if options.build_source {
            LabStage::SourceTree
        } else {
            LabStage::CopySource
        };
        Lab {
            options,
            stage,
            outcomes: LabOutcome::new(),
            mutations: Vec::new(),
            next_mutation: 0,
            mutants_written: false,
            outcomes_written: 0,
        }
    }

    /// How far the run has come.
    pub fn stage(&self) -> (stage: LabStage)
        ensures
            stage == self.stage_spec(),
    {
        self.stage
    }

    /// The settings of the run, with the test timeout as it stands.
    pub fn options(&self) -> (options: &Options)
        ensures
            *options == self.options_spec(),
    {
        &self.options
    }

    /// The outcomes so far: what the results file is rewritten from after
    /// every scenario.
    pub fn outcomes(&self) -> (outcomes: &LabOutcome)
        ensures
            outcomes@ == self.outcomes_spec(),
    {
        &self.outcomes
    }

    /// The mutations in the order in which they are tried.
    pub fn mutations(&self) -> (mutations: &Vec<Mutation>)
        ensures
            mutations@ == self.mutations_spec(),
    {
        &self.mutations
    }

    /// Whether the run has ended, with every mutant tried or with none.
    pub fn is_over(&self) -> (over: bool)
        ensures
            over == (self.stage_spec() == LabStage::Done || self.stage_spec()
                == LabStage::Abandoned),
    {
        match self.stage {
            LabStage::Done => true,
            LabStage::Abandoned => true,
            _ => false,
        }
    }

    /// The scenario whose pipeline is to run now, or `None` where something
    /// else is due. A mutant carries its place and the number of mutants.
    pub fn due_scenario(&self) -> (due: Option<Scenario>)
        requires
            self.wf(),
        ensures
            due == self.due_scenario_spec(),
    {
        match self.stage {
            LabStage::SourceTree => Some(Scenario::SourceTree),
            LabStage::Baseline => Some(Scenario::Baseline),
            LabStage::Mutants => Some(
                Scenario::Mutant {
                    mutation: self.mutations[self.next_mutation].clone(),
                    i_mutation: self.next_mutation,
                    n_mutations: self.mutations.len(),
                },
            ),
            _ => None,
        }
    }

    /// Reports that the source tree was copied to the scratch workspace. The
    /// baseline is due next.
    pub fn scratch_ready(&mut self)
        requires
            old(self).wf(),
            old(self).stage_spec() == LabStage::CopySource,
        ensures
            final(self).wf(),
            final(self).stage_spec() == LabStage::Baseline,
            final(self).options_spec() == old(self).options_spec(),
            final(self).outcomes_spec() == old(self).outcomes_spec(),
            final(self).mutations_spec() == old(self).mutations_spec(),
            final(self).mutants_file() == old(self).mutants_file(),
            final(self).outcomes_file() == old(self).outcomes_file(),
    {
        let ghost before = *self;
        self.stage = LabStage::Baseline;
        proof {
            assert forall|i: int| 0 <= i < self.outcomes_spec().len() implies #[trigger]
                self.outcome_in_place(i) by {
                assert(before.outcome_in_place(i));
            }
            assert forall|i: int| 0 <= i < self.outcomes_spec().len() implies #[trigger]
                self.passed_if_needed(i) by {
                assert(before.passed_if_needed(i));
            }
        }
    }

    /// Starts the pipeline of the scenario that is due, with its log at
    /// `log_path`: over the phases of that scenario, with nothing run yet.
    pub fn start_scenario(&self, log_path: String) -> (run: PhaseRun)
        requires
            self.wf(),
            self.due_scenario_spec() is Some,
        ensures
            self.runs_due_scenario(run),
            run.outcome().records() == Seq::<PhaseRecord>::empty(),
            run.outcome().log_path_spec() == log_path,
    {
        let scenario = self.due_scenario().unwrap();
        let phases = scenario_phases(&scenario, &self.options);
        PhaseRun::new(log_path, scenario, phases, &self.options)
    }

    /// Takes the finished pipeline of the scenario that was due, puts its
    /// outcome on record, and moves on.
    ///
    /// A failure of the source tree or of the baseline ends the run. A
    /// baseline that passed sets the test timeout, unless one was set
    /// before. After a mutant the results file is due.
    pub fn finish_scenario(&mut self, run: PhaseRun)
        requires
            old(self).wf(),
            old(self).runs_due_scenario(run),
            run.finished(),
        ensures
            final(self).wf(),
            final(self).outcomes_spec() == old(self).outcomes_spec().push(run.outcome()),
            final(self).mutations_spec() == old(self).mutations_spec(),
            final(self).mutants_written() == old(self).mutants_written(),
            final(self).n_outcomes_written() == old(self).n_outcomes_written(),
            final(self).stage_spec() == old(self).stage_after(run.outcome()),
            final(self).n_tried() == if old(self).stage_spec() == LabStage::Mutants {
                old(self).n_tried() + 1
            } else {
                old(self).n_tried()
            },
            final(self).options_spec() == (Options {
                test_timeout: if old(self).stage_spec() == LabStage::Baseline
                    && run.outcome().success_spec() {
                    timeout_after_baseline(
                        old(self).options_spec().test_timeout,
                        run.outcome().test_duration_spec(),
                    )
                } else {
                    old(self).options_spec().test_timeout
                },
                ..old(self).options_spec()
            }),
    {
        let ghost before = *self;
        let ghost place = self.outcomes@.len() as int;
        let outcome = run.into_outcome();
        let success = outcome.success();
        assert(before.is_outcome_at(place, outcome));
        match self.stage {
            LabStage::SourceTree => {
                self.stage = if success {
                    LabStage::CopySource
                } else {
                    LabStage::Abandoned
                };
            },
            LabStage::Baseline => {
                if success {
                    if !self.options.has_test_timeout() {
                        match outcome.test_duration() {
                            Some(duration) => {
                                self.options.test_timeout = Some(auto_timeout(duration));
                            },
                            None => {},
                        }
                    }
                    self.stage = LabStage::ListMutations;
                } else {
                    self.stage = LabStage::Abandoned;
                }
            },
            LabStage::Mutants => {
                let n_mutations: usize = self.mutations.len();
                assert(self.next_mutation < n_mutations);
                self.next_mutation = self.next_mutation + 1;
                self.stage = LabStage::WriteOutcomes;
            },
            _ => {},
        }
        self.outcomes.add(outcome);
        proof {
            assert forall|i: int| 0 <= i < self.outcomes_spec().len() implies #[trigger]
                self.outcome_in_place(i) by {
                assert(self.scenario_at(i) == before.scenario_at(i));
                if i < place {
                    assert(before.outcome_in_place(i));
                }
            }
            assert forall|i: int| 0 <= i < self.outcomes_spec().len() implies #[trigger]
                self.passed_if_needed(i) by {
                if i < place {
                    assert(before.passed_if_needed(i));
                }
            }
        }
    }

    /// Takes the mutations that were found and fixes the order in which
    /// they are tried: a random one where the settings ask for it. The list
    /// is to be written to its file next, before any mutant is tried.
    pub fn plan_mutations(&mut self, mutations: Vec<Mutation>)
        requires
            old(self).wf(),
            old(self).stage_spec() == LabStage::ListMutations,
        ensures
            final(self).wf(),
            final(self).mutations_spec().to_multiset() == mutations@.to_multiset(),
            final(self).mutations_spec().len() == mutations@.len(),
            !old(self).options_spec().shuffle ==> final(self).mutations_spec() == mutations@,
            final(self).stage_spec() == LabStage::WriteMutants,
            final(self).n_tried() == 0,
            final(self).mutants_file() is None,
            final(self).outcomes_file() is None,
            final(self).options_spec() == old(self).options_spec(),
            final(self).outcomes_spec() == old(self).outcomes_spec(),
    {
        let ghost before = *self;
        self.mutations = order_mutations(mutations, self.options.shuffle);
        self.stage = LabStage::WriteMutants;
        proof {
            assert forall|i: int| 0 <= i < self.outcomes_spec().len() implies #[trigger]
                self.outcome_in_place(i) by {
                assert(before.outcome_in_place(i));
                assert(self.scenario_at(i) == before.scenario_at(i));
            }
            assert forall|i: int| 0 <= i < self.outcomes_spec().len() implies #[trigger]
                self.passed_if_needed(i) by {
                assert(before.passed_if_needed(i));
            }
        }
    }

    /// Reports that the list of planned mutations was written to its file.
    /// The first mutant is due next; with no mutation the run is over.
    pub fn mutants_written_to_file(&mut self)
        requires
            old(self).wf(),
            old(self).stage_spec() == LabStage::WriteMutants,
        ensures
            final(self).wf(),
            final(self).stage_spec() == if old(self).mutations_spec().len() == 0 {
                LabStage::Done
            } else {
                LabStage::Mutants
            },
            final(self).mutants_file() == Some(old(self).mutations_spec()),
            final(self).outcomes_file() is None,
            final(self).options_spec() == old(self).options_spec(),
            final(self).outcomes_spec() == old(self).outcomes_spec(),
            final(self).mutations_spec() == old(self).mutations_spec(),
            final(self).n_tried() == 0,
    {
        let ghost before = *self;
        self.mutants_written = true;
        self.stage = if self.mutations.len() == 0 {
            LabStage::Done
        } else {
            LabStage::Mutants
        };
        proof {
            assert forall|i: int| 0 <= i < self.outcomes_spec().len() implies #[trigger]
                self.outcome_in_place(i) by {
                assert(before.outcome_in_place(i));
            }
            assert forall|i: int| 0 <= i < self.outcomes_spec().len() implies #[trigger]
                self.passed_if_needed(i) by {
                assert(before.passed_if_needed(i));
            }
        }
    }

    /// Reports that the results file was written anew from the outcomes on
    /// record. The next mutant is due; after the last one the run is over.
    pub fn outcomes_written_to_file(&mut self)
        requires
            old(self).wf(),
            old(self).stage_spec() == LabStage::WriteOutcomes,
        ensures
            final(self).wf(),
            final(self).stage_spec() == if old(self).n_tried() < old(self).mutations_spec().len() {
                LabStage::Mutants
            } else {
                LabStage::Done
            },
            final(self).outcomes_file() == Some(old(self).outcomes_spec()),
            final(self).mutants_file() == old(self).mutants_file(),
            final(self).options_spec() == old(self).options_spec(),
            final(self).outcomes_spec() == old(self).outcomes_spec(),
            final(self).mutations_spec() == old(self).mutations_spec(),
            final(self).n_tried() == old(self).n_tried(),
    {
        let ghost before = *self;
        self.outcomes_written = self.outcomes.len();
        self.stage = if self.next_mutation < self.mutations.len() {
            LabStage::Mutants
        } else {
            LabStage::Done
        };
        proof {
            assert(self.outcomes_spec().take(self.outcomes_spec().len() as int)
                =~= self.outcomes_spec());
            assert forall|i: int| 0 <= i < self.outcomes_spec().len() implies #[trigger]
                self.outcome_in_place(i) by {
                assert(before.outcome_in_place(i));
            }
            assert forall|i: int| 0 <= i < self.outcomes_spec().len() implies #[trigger]
                self.passed_if_needed(i) by {
                assert(before.passed_if_needed(i));
            }
        }
    }

    /// Ends the run, at whatever stage it is, and hands out the outcomes
    /// that were recorded.
    pub fn into_outcome(self) -> (outcomes: LabOutcome)
        ensures
            outcomes@ == self.outcomes_spec(),
    {
        self.outcomes
    }
}

/// A run that has tried every mutant holds one outcome for the source tree,
/// where that was built, one for the baseline, and one for each mutation, in
/// this order; and the unmutated scenarios passed. The list of mutations is
/// in its file, and with at least one mutation the results file holds every
/// outcome. With no mutation the results file was never written.
pub proof fn lemma_full_run_outcome_count(lab: Lab)
    requires
        lab.wf(),
        lab.stage_spec() == LabStage::Done,
    ensures
        lab.outcomes_spec().len() == lab.n_before_baseline() + 1 + lab.mutations_spec().len(),
        lab.n_tried() == lab.mutations_spec().len(),
        lab.mutants_file() == Some(lab.mutations_spec()),
        lab.mutations_spec().len() > 0 ==> lab.outcomes_file() == Some(lab.outcomes_spec()),
        lab.mutations_spec().len() == 0 ==> lab.outcomes_file() is None,
        forall|i: int| 0 <= i < lab.outcomes_spec().len() ==> #[trigger] lab.outcome_in_place(i),
        !unmutated_failed(lab.outcomes_spec()),
{
    let outcomes = lab.outcomes_spec();
    assert(outcomes.take(outcomes.len() as int) =~= outcomes);
    assert forall|i: int|
        0 <= i < outcomes.len() && !((#[trigger] outcomes[i]).scenario_spec() is Mutant)
        implies outcomes[i].success_spec() by {
        assert(lab.outcome_in_place(i));
        assert(lab.passed_if_needed(i));
    }
}

/// A run that was abandoned has tried no mutant and was never given a
/// mutation: it holds the outcome of the source tree, of the baseline, or of
/// both, and the last of them is the failure of an unmutated scenario.
/// Neither the list of mutations nor the results file was written.
pub proof fn lemma_abandoned_run_tries_no_mutant(lab: Lab)
    requires
        lab.wf(),
        lab.stage_spec() == LabStage::Abandoned,
    ensures
        1 <= lab.outcomes_spec().len() <= lab.n_before_baseline() + 1,
        lab.mutations_spec().len() == 0,
        lab.n_tried() == 0,
        !lab.outcomes_spec().last().success_spec(),
        !(lab.outcomes_spec().last().scenario_spec() is Mutant),
        unmutated_failed(lab.outcomes_spec()),
        count_missed(lab.outcomes_spec()) == 0,
        lab.due_scenario_spec() is None,
        lab.mutants_file() is None,
        lab.outcomes_file() is None,
{
    let outcomes = lab.outcomes_spec();
    let last = outcomes.len() - 1;
    assert(lab.outcome_in_place(last));
    assert(!(outcomes[last].scenario_spec() is Mutant));
    assert forall|i: int| 0 <= i < outcomes.len() implies !((#[trigger] outcomes[i]).scenario_spec()
        is Mutant) by {
        assert(lab.outcome_in_place(i));
    }
    lemma_no_mutant_none_missed(outcomes);
}

/// Among outcomes of which none is a mutant's, no mutant was missed.
pub proof fn lemma_no_mutant_none_missed(outcomes: Seq<Outcome>)
    requires
        forall|i: int|
            0 <= i < outcomes.len() ==> !((#[trigger] outcomes[i]).scenario_spec() is Mutant),
    ensures
        count_missed(outcomes) == 0,
    decreases outcomes.len(),
{
    if outcomes.len() > 0 {
        assert(!(outcomes[outcomes.len() - 1].scenario_spec() is Mutant));
        let rest = outcomes.drop_last();
        assert forall|i: int| 0 <= i < rest.len() implies !((#[trigger] rest[i]).scenario_spec()
            is Mutant) by {
            assert(rest[i] == outcomes[i]);
        }
        lemma_no_mutant_none_missed(rest);
    }
}

/// Whenever the results file was written, it holds all outcomes on record
/// but at most the latest: what it holds is never older than one scenario.
pub proof fn lemma_results_file_is_fresh(lab: Lab)
    requires
        lab.wf(),
        lab.outcomes_file() is Some,
    ensures
        lab.outcomes_file()->Some_0.len() >= lab.outcomes_spec().len() - 1,
        lab.outcomes_file()->Some_0.is_prefix_of(lab.outcomes_spec()),
        lab.mutants_file() is Some,
{
}

/// While the mutants are tried, the outcomes on record are one more than
/// the mutants tried and the unmutated scenarios before the baseline: every
/// scenario that ran left exactly one outcome.
pub proof fn lemma_one_outcome_per_scenario(lab: Lab)
    requires
        lab.wf(),
        lab.stage_spec() == LabStage::Mutants,
    ensures
        lab.outcomes_spec().len() == lab.n_before_baseline() + 1 + lab.n_tried(),
        lab.n_tried() < lab.mutations_spec().len(),
        lab.due_scenario_spec() == Some(lab.scenario_at(lab.outcomes_spec().len() as int)),
{
}

/// Every outcome on record begins with the check phase, and where that
/// failed it is the only phase on record: nothing was built or tested.
pub proof fn lemma_failed_check_is_alone(lab: Lab, i: int)
    requires
        lab.wf(),
        0 <= i < lab.outcomes_spec().len(),
        lab.outcomes_spec()[i].records().len() > 0,
    ensures
        lab.outcomes_spec()[i].records()[0].phase == Phase::Check,
        lab.outcomes_spec()[i].records()[0].result != PhaseResult::Success
            ==> lab.outcomes_spec()[i].records().len() == 1,
{
    assert(lab.outcome_in_place(i));
    let check_only = lab.options_spec().check_only;
    let phases = scenario_phases_spec(lab.scenario_at(i), check_only);
    let records = lab.outcomes_spec()[i].records();
    assert(phases[0] == Phase::Check);
    assert(records[0].phase == phases[0]);
    if records[0].result != PhaseResult::Success {
        lemma_failed_check_ends_pipeline(phases, records, check_only);
    }
}

/// In check-only mode every outcome on record holds the check phase and
/// nothing else, and is a success exactly if the check succeeded.
pub proof fn lemma_check_only_run_checks_only(lab: Lab, i: int)
    requires
        lab.wf(),
        lab.options_spec().check_only,
        0 <= i < lab.outcomes_spec().len(),
    ensures
        lab.outcomes_spec()[i].records().len() == 1,
        lab.outcomes_spec()[i].records()[0].phase == Phase::Check,
        lab.outcomes_spec()[i].success_spec() == (lab.outcomes_spec()[i].records()[0].result
            == PhaseResult::Success),
{
    assert(lab.outcome_in_place(i));
    let phases = scenario_phases_spec(lab.scenario_at(i), true);
    let records = lab.outcomes_spec()[i].records();
    assert(phases[0] == Phase::Check);
    assert(phases.len() > 0);
    assert(records.len() > 0);
    lemma_check_only_runs_check_alone(phases, records);
}

} // verus!
