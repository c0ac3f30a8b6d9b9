use mutants_lab::lab::{abandon_message, mutation_noun, order_mutations, Lab, LabStage};
use mutants_lab::options::Options;
use mutants_lab::outcome::{LabOutcome, Outcome};
use mutants_lab::phase::{Phase, PhaseResult};
use mutants_lab::scenario::{Mutation, Scenario};
use mutants_lab::span::Span;

fn mutation(i: usize) -> Mutation {
    Mutation { id: i, name: format!("mutation {}", i), diff: format!("diff {}", i) }
}

fn mutations(n: usize) -> Vec<Mutation> {
    (0..n).map(mutation).collect()
}

/// Runs the pipeline of the scenario that is due with the results that the
/// build tool would give, one per phase, the test phase taking `test_secs`.
fn run_due(lab: &mut Lab, results: &[PhaseResult], test_secs: u64) {
    let mut run = lab.start_scenario(String::from("scenario.log"));
    let mut i = 0;
    while let Some(phase) = run.next_phase() {
        let secs = if phase == Phase::Test { test_secs } else { 1 };
        run.record(Span::from_secs(secs), results[i]);
        i += 1;
    }
    assert!(run.is_finished());
    lab.finish_scenario(run);
}

const PASS: [PhaseResult; 3] = [PhaseResult::Success, PhaseResult::Success, PhaseResult::Success];
const FAIL_TEST: [PhaseResult; 3] =
    [PhaseResult::Success, PhaseResult::Success, PhaseResult::Failure];

fn before_baseline(lab: &Lab) -> usize {
    if lab.options().build_source {
        1
    } else {
        0
    }
}

/// Runs a lab to its end. `caught[i]` says whether the tests fail on the
/// mutant that is tried as number `i`.
fn run_lab(options: Options, baseline_passes: bool, list: Vec<Mutation>, caught: &[bool]) -> Lab {
    let mut lab = Lab::new(options);
    loop {
        match lab.stage() {
            LabStage::SourceTree => {
                assert_eq!(lab.due_scenario(), Some(Scenario::SourceTree));
                run_due(&mut lab, &PASS, 1);
            }
            LabStage::CopySource => {
                assert_eq!(lab.due_scenario(), None);
                lab.scratch_ready();
            }
            LabStage::Baseline => {
                assert_eq!(lab.due_scenario(), Some(Scenario::Baseline));
                run_due(&mut lab, if baseline_passes { &PASS } else { &FAIL_TEST }, 10);
            }
            LabStage::ListMutations => lab.plan_mutations(list.clone()),
            LabStage::WriteMutants => {
                assert_eq!(lab.outcomes().len(), before_baseline(&lab) + 1);
                lab.mutants_written_to_file();
            }
            LabStage::WriteOutcomes => {
                assert!(lab.outcomes().outcomes().last().unwrap().scenario().is_mutant());
                lab.outcomes_written_to_file();
            }
            LabStage::Mutants => {
                let i = match lab.due_scenario() {
                    Some(Scenario::Mutant { i_mutation, n_mutations, .. }) => {
                        assert_eq!(n_mutations, list.len());
                        i_mutation
                    }
                    _ => panic!("a mutant is due"),
                };
                assert_eq!(lab.outcomes().len(), before_baseline(&lab) + 1 + i);
                run_due(&mut lab, if caught[i] { &FAIL_TEST } else { &PASS }, 2);
            }
            LabStage::Done | LabStage::Abandoned => break,
        }
    }
    assert!(lab.is_over());
    assert_eq!(lab.due_scenario(), None);
    lab
}

#[test]
fn full_run_has_one_outcome_per_scenario() {
    for n in [0usize, 1, 2, 7] {
        let lab = run_lab(Options::new(), true, mutations(n), &vec![true; n]);
        assert_eq!(lab.stage(), LabStage::Done);
        assert_eq!(lab.outcomes().len(), 1 + 1 + n);
        let mut options = Options::new();
        options.build_source = false;
        let lab = run_lab(options, true, mutations(n), &vec![true; n]);
        assert_eq!(lab.stage(), LabStage::Done);
        assert_eq!(lab.into_outcome().len(), 1 + n);
    }
}

#[test]
fn failing_baseline_abandons_the_run() {
    let lab = run_lab(Options::new(), false, mutations(3), &[true, true, true]);
    assert_eq!(lab.stage(), LabStage::Abandoned);
    assert_eq!(lab.mutations().len(), 0);
    let outcomes = lab.into_outcome();
    assert_eq!(outcomes.len(), 2);
    assert_eq!(outcomes.outcomes()[0].scenario(), &Scenario::SourceTree);
    assert_eq!(outcomes.outcomes()[1].scenario(), &Scenario::Baseline);
    assert!(outcomes.setup_failed());
    assert_eq!(outcomes.n_missed(), 0);
    assert_eq!(
        abandon_message(&outcomes.outcomes()[1]),
        "cargo test failed in an unmutated tree, so no mutants were tested"
    );
}

#[test]
fn failing_source_tree_abandons_the_run_at_once() {
    let mut lab = Lab::new(Options::new());
    assert_eq!(lab.stage(), LabStage::SourceTree);
    run_due(&mut lab, &[PhaseResult::Success, PhaseResult::Failure], 1);
    assert_eq!(lab.stage(), LabStage::Abandoned);
    assert!(lab.is_over());
    assert_eq!(lab.due_scenario(), None);
    assert_eq!(lab.outcomes().len(), 1);
    assert!(lab.outcomes().setup_failed());
    let failed = &lab.outcomes().outcomes()[0];
    assert_eq!(failed.n_phases(), 2);
    assert_eq!(abandon_message(failed), "build failed in source tree, not continuing");
}

#[test]
fn source_tree_is_checked_and_built_but_not_tested() {
    let mut lab = Lab::new(Options::new());
    run_due(&mut lab, &PASS, 1);
    assert_eq!(lab.stage(), LabStage::CopySource);
    let outcome = &lab.outcomes().outcomes()[0];
    assert_eq!(outcome.n_phases(), 2);
    assert_eq!(outcome.last_phase(), Phase::Build);

    let mut options = Options::new();
    options.check_only = true;
    let mut lab = Lab::new(options);
    run_due(&mut lab, &PASS, 1);
    let outcome = &lab.outcomes().outcomes()[0];
    assert_eq!(outcome.n_phases(), 1);
    assert_eq!(outcome.last_phase(), Phase::Check);
}

#[test]
fn started_scenario_has_its_log_and_nothing_run() {
    let lab = Lab::new(Options::new());
    let run = lab.start_scenario(String::from("a/b.log"));
    assert!(!run.is_finished());
    assert_eq!(run.next_phase(), Some(Phase::Check));
    assert_eq!(run.outcome_so_far().log_path(), "a/b.log");
    assert_eq!(run.outcome_so_far().scenario(), &Scenario::SourceTree);
    assert_eq!(run.outcome_so_far().n_phases(), 0);
}

#[test]
fn one_surviving_mutant_of_three() {
    let lab = run_lab(Options::new(), true, mutations(3), &[true, false, true]);
    assert_eq!(lab.stage(), LabStage::Done);
    let outcomes = lab.into_outcome();
    assert_eq!(outcomes.len(), 5);
    assert!(!outcomes.setup_failed());
    assert_eq!(outcomes.n_missed(), 1);
    let survivors: Vec<&Outcome> = outcomes
        .outcomes()
        .iter()
        .filter(|o| o.scenario().is_mutant() && o.last_phase() == Phase::Test && o.success())
        .collect();
    assert_eq!(survivors.len(), 1);
    assert_eq!(
        survivors[0].scenario(),
        &Scenario::Mutant { mutation: mutation(1), i_mutation: 1, n_mutations: 3 }
    );
}

#[test]
fn passing_baseline_sets_the_timeout() {
    let mut options = Options::new();
    options.build_source = false;
    let mut lab = Lab::new(options);
    assert_eq!(lab.stage(), LabStage::CopySource);
    lab.scratch_ready();
    run_due(&mut lab, &PASS, 10);
    assert_eq!(lab.stage(), LabStage::ListMutations);
    assert_eq!(lab.options().test_timeout(), Some(Span::from_secs(50)));

    let mut options = Options::new();
    options.build_source = false;
    let mut lab = Lab::new(options);
    lab.scratch_ready();
    run_due(&mut lab, &PASS, 1);
    assert_eq!(lab.options().test_timeout(), Some(Span::from_secs(20)));
}

#[test]
fn explicit_timeout_is_kept() {
    let mut options = Options::new();
    options.build_source = false;
    options.set_test_timeout(Span::from_secs(7));
    let mut lab = Lab::new(options);
    lab.scratch_ready();
    run_due(&mut lab, &PASS, 10);
    assert_eq!(lab.options().test_timeout(), Some(Span::from_secs(7)));
}

#[test]
fn check_only_baseline_leaves_the_timeout_unset() {
    let mut options = Options::new();
    options.build_source = false;
    options.check_only = true;
    let mut lab = Lab::new(options);
    lab.scratch_ready();
    run_due(&mut lab, &PASS, 10);
    assert_eq!(lab.outcomes().outcomes()[0].n_phases(), 1);
    assert_eq!(lab.stage(), LabStage::ListMutations);
    assert_eq!(lab.options().test_timeout(), None);
}

#[test]
fn unshuffled_mutations_keep_their_order() {
    assert_eq!(order_mutations(mutations(5), false), mutations(5));
    let lab = run_lab(Options::new(), true, mutations(4), &[true; 4]);
    assert_eq!(lab.mutations(), &mutations(4));
}

#[test]
fn shuffled_mutations_are_the_same_in_another_order() {
    let shuffled = order_mutations(mutations(200), true);
    assert_ne!(shuffled, mutations(200));
    let mut names: Vec<String> = shuffled.iter().map(|m| m.name.clone()).collect();
    let mut expected: Vec<String> = mutations(200).iter().map(|m| m.name.clone()).collect();
    names.sort();
    expected.sort();
    assert_eq!(names, expected);
}

#[test]
fn shuffled_run_tries_every_mutant_once() {
    let mut options = Options::new();
    options.shuffle = true;
    let lab = run_lab(options, true, mutations(50), &[true; 50]);
    assert_eq!(lab.outcomes().len(), 52);
    let mut names: Vec<String> =
        lab.outcomes().outcomes()[2..].iter().map(|o| o.scenario().name()).collect();
    names.sort();
    let mut expected: Vec<String> = mutations(50).iter().map(|m| m.name.clone()).collect();
    expected.sort();
    assert_eq!(names, expected);
}

#[test]
fn files_are_written_before_the_run_goes_on() {
    let mut options = Options::new();
    options.build_source = false;
    let mut lab = Lab::new(options);
    lab.scratch_ready();
    run_due(&mut lab, &PASS, 1);
    assert_eq!(lab.stage(), LabStage::ListMutations);
    lab.plan_mutations(mutations(2));
    assert_eq!(lab.stage(), LabStage::WriteMutants);
    assert_eq!(lab.due_scenario(), None);
    lab.mutants_written_to_file();
    assert_eq!(lab.stage(), LabStage::Mutants);
    run_due(&mut lab, &FAIL_TEST, 1);
    assert_eq!(lab.stage(), LabStage::WriteOutcomes);
    assert_eq!(lab.due_scenario(), None);
    assert_eq!(lab.outcomes().len(), 2);
    lab.outcomes_written_to_file();
    assert_eq!(lab.stage(), LabStage::Mutants);
    run_due(&mut lab, &FAIL_TEST, 1);
    assert_eq!(lab.stage(), LabStage::WriteOutcomes);
    assert!(!lab.is_over());
    lab.outcomes_written_to_file();
    assert_eq!(lab.stage(), LabStage::Done);
    assert_eq!(lab.outcomes().len(), 3);
}

#[test]
fn run_without_mutations_ends_once_the_list_is_written() {
    let mut options = Options::new();
    options.build_source = false;
    let mut lab = Lab::new(options);
    lab.scratch_ready();
    run_due(&mut lab, &PASS, 1);
    lab.plan_mutations(Vec::new());
    assert_eq!(lab.stage(), LabStage::WriteMutants);
    lab.mutants_written_to_file();
    assert_eq!(lab.stage(), LabStage::Done);
    assert_eq!(lab.outcomes().len(), 1);
}

#[test]
fn noun_agrees_with_the_count() {
    assert_eq!(mutation_noun(0), "mutations");
    assert_eq!(mutation_noun(1), "mutation");
    assert_eq!(mutation_noun(2), "mutations");
}

#[test]
fn lab_outcome_counts() {
    let mut outcomes = LabOutcome::new();
    assert_eq!(outcomes.len(), 0);
    assert!(!outcomes.setup_failed());
    let mut baseline = Outcome::new(String::from("b.log"), Scenario::Baseline);
    baseline.add_phase_result(Phase::Check, Span::from_secs(1), PhaseResult::Success);
    outcomes.add(baseline);
    let m = Scenario::Mutant { mutation: mutation(0), i_mutation: 0, n_mutations: 2 };
    let mut missed = Outcome::new(String::from("m.log"), m.clone());
    missed.add_phase_result(Phase::Check, Span::from_secs(1), PhaseResult::Success);
    outcomes.add(missed);
    let mut caught = Outcome::new(String::from("m.log"), m);
    caught.add_phase_result(Phase::Check, Span::from_secs(1), PhaseResult::Failure);
    outcomes.add(caught);
    assert_eq!(outcomes.len(), 3);
    assert_eq!(outcomes.n_missed(), 1);
    assert!(!outcomes.setup_failed());
    let mut source = Outcome::new(String::from("s.log"), Scenario::SourceTree);
    source.add_phase_result(Phase::Check, Span::from_secs(1), PhaseResult::Timeout);
    outcomes.add(source);
    assert!(outcomes.setup_failed());
    assert_eq!(outcomes.n_missed(), 1);
}

#[test]
fn options_clone_keeps_every_field() {
    let mut options = Options::new();
    options.shuffle = true;
    options.copy_target = true;
    options.additional_cargo_test_args = vec![String::from("--lib")];
    options.set_test_timeout(Span::from_secs(3));
    let copy = options.clone();
    assert!(copy.shuffle && copy.copy_target && copy.build_source);
    assert!(!copy.check_only && !copy.show_times);
    assert_eq!(copy.additional_cargo_test_args, vec![String::from("--lib")]);
    assert_eq!(copy.test_timeout(), Some(Span::from_secs(3)));
}
