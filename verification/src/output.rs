//! The results directory of a run: where its files go, and how the results
//! of the run before are moved out of the way.
//!
//! Paths are strings whose parts are joined by `/`. The caller asks the file
//! system which directories exist, and carries out the steps it is given.

use vstd::prelude::*;
use vstd::string::*;

verus! {

/// The name of the results directory.
pub open spec fn outdir_name() -> Seq<char> {
    "mutants.out"@
}

/// The name under which the results of the run before are kept.
pub open spec fn rotated_name() -> Seq<char> {
    "mutants.out.old"@
}

/// The path of `name` inside `dir`.
pub open spec fn join_spec(dir: Seq<char>, name: Seq<char>) -> Seq<char> {
    dir + "/"@ + name
}

/// The name of the log of the scenario called `scenario_name`.
pub open spec fn log_name_spec(scenario_name: Seq<char>) -> Seq<char> {
    scenario_name + ".log"@
}

/// The path of `name` inside `dir`.
pub fn join(dir: &str, name: &str) -> (path: String)
    ensures
        path@ == join_spec(dir@, name@),
{
    String::from_str(dir).concat("/").concat(name)
}

/// One change to the file system on the way to a fresh results directory.
#[derive(Clone, Copy, Debug, PartialEq, Eq, Structural)]
pub enum RotationStep {
    /// Delete the rotated directory with all that is in it.
    RemoveRotated,
    /// Rename the results directory to the rotated name, in one step.
    RenameToRotated,
    /// Create the results directory, empty.
    CreateOutput,
    /// Create the log directory inside the results directory.
    CreateLog,
}

/// The steps that lead to a fresh results directory, given which of the two
/// directories exist. An existing results directory is moved aside, after
/// what was moved aside before it has been deleted.
pub open spec fn rotation_steps_spec(output_exists: bool, rotated_exists: bool) -> Seq<
    RotationStep,
> {
    let remove = if output_exists && rotated_exists {
        seq![RotationStep::RemoveRotated]
    } else {
        Seq::<RotationStep>::empty()
    };
    let rename = if output_exists {
        seq![RotationStep::RenameToRotated]
    } else {
        Seq::<RotationStep>::empty()
    };
    remove + rename + seq![RotationStep::CreateOutput, RotationStep::CreateLog]
}

/// The steps that lead to a fresh results directory, in the order in which
/// they are to be carried out.
pub fn rotation_steps(output_exists: bool, rotated_exists: bool) -> (steps: Vec<RotationStep>)
    ensures
        steps@ == rotation_steps_spec(output_exists, rotated_exists),
{
    let mut steps: Vec<RotationStep> = Vec::new();
    if output_exists {
        if rotated_exists {
            steps.push(RotationStep::RemoveRotated);
        }
        steps.push(RotationStep::RenameToRotated);
    }
    steps.push(RotationStep::CreateOutput);
    steps.push(RotationStep::CreateLog);
    assert(steps@ =~= rotation_steps_spec(output_exists, rotated_exists));
    steps
}

/// What a results directory holds: whether its log directory is there, and
/// the names of the logs in it.
pub struct DirContents {
    pub has_log_dir: bool,
    pub logs: Set<Seq<char>>,
}

/// The two directories that a run may find in its parent directory. `None`
/// stands for a directory that does not exist.
pub struct ParentDir {
    pub output: Option<DirContents>,
    pub rotated: Option<DirContents>,
}

/// A results directory right after its creation.
pub open spec fn fresh_contents() -> DirContents {
    DirContents { has_log_dir: true, logs: Set::empty() }
}

/// The parent directory after one step.
pub open spec fn after_step(dir: ParentDir, step: RotationStep) -> ParentDir {
    match step {
        RotationStep::RemoveRotated => ParentDir { rotated: None, ..dir },
        RotationStep::RenameToRotated => ParentDir { output: None, rotated: dir.output },
        RotationStep::CreateOutput => ParentDir {
            output: Some(DirContents { has_log_dir: false, logs: Set::empty() }),
            ..dir
        },
        RotationStep::CreateLog => match dir.output {
            Some(contents) => ParentDir {
                output: Some(DirContents { has_log_dir: true, ..contents }),
                ..dir
            },
            None => dir,
        },
    }
}

/// The parent directory after `steps`, taken from the first to the last.
pub open spec fn after_steps(dir: ParentDir, steps: Seq<RotationStep>) -> ParentDir
    decreases steps.len(),
{
    if steps.len() == 0 {
        dir
    } else {
        after_step(after_steps(dir, steps.drop_last()), steps.last())
    }
}

/// The parent directory after a new results directory was created in it.
pub open spec fn after_create(dir: ParentDir) -> ParentDir {
    after_steps(dir, rotation_steps_spec(dir.output is Some, dir.rotated is Some))
}

/// The parent directory after logs named `logs` were written to its results
/// directory.
pub open spec fn with_logs(dir: ParentDir, logs: Set<Seq<char>>) -> ParentDir {
    match dir.output {
        Some(contents) => ParentDir {
            output: Some(DirContents { logs: contents.logs.union(logs), ..contents }),
            ..dir
        },
        None => dir,
    }
}

/// Creating the results directory leaves it empty but for its log
/// directory, and keeps the results that were there before under the
/// rotated name, in place of whatever had that name.
pub proof fn lemma_create_rotates(dir: ParentDir)
    ensures
        after_create(dir).output == Some(fresh_contents()),
        after_create(dir).rotated == if dir.output is Some {
            dir.output
        } else {
            dir.rotated
        },
{
    let steps = rotation_steps_spec(dir.output is Some, dir.rotated is Some);
    let n = steps.len() as int;
    assert(steps.last() == RotationStep::CreateLog);
    let s3 = steps.drop_last();
    assert(s3.last() == RotationStep::CreateOutput);
    let s2 = s3.drop_last();
    assert(after_steps(dir, steps) == after_step(after_steps(dir, s3), steps.last()));
    assert(after_steps(dir, s3) == after_step(after_steps(dir, s2), s3.last()));
    if dir.output is Some {
        assert(s2.last() == RotationStep::RenameToRotated);
        let s1 = s2.drop_last();
        assert(after_steps(dir, s2) == after_step(after_steps(dir, s1), s2.last()));
        if dir.rotated is Some {
            assert(s1.last() == RotationStep::RemoveRotated);
            let s0 = s1.drop_last();
            assert(s0.len() == 0);
            assert(after_steps(dir, s1) == after_step(after_steps(dir, s0), s1.last()));
            assert(after_steps(dir, s0) == dir);
        } else {
            assert(s1.len() == 0);
            assert(after_steps(dir, s1) == dir);
        }
    } else {
        assert(s2.len() == 0);
        assert(after_steps(dir, s2) == dir);
    }
}

/// Three runs in one parent directory, each writing its logs, leave two
/// directories: the results directory with the logs of the third run, and
/// the rotated directory with exactly the logs of the second. Nothing of the
/// first run is left, nor of what was there before it.
pub proof fn lemma_three_runs_keep_two(
    dir: ParentDir,
    first: Set<Seq<char>>,
    second: Set<Seq<char>>,
    third: Set<Seq<char>>,
)
    ensures
        ({
            let after_first = with_logs(after_create(dir), first);
            let after_second = with_logs(after_create(after_first), second);
            let after_third = with_logs(after_create(after_second), third);
            &&& after_first.output == Some(DirContents { has_log_dir: true, logs: first })
            &&& after_second.output == Some(DirContents { has_log_dir: true, logs: second })
            &&& after_second.rotated == after_first.output
            &&& after_third.output == Some(DirContents { has_log_dir: true, logs: third })
            &&& after_third.rotated == after_second.output
        }),
{
    let after_first = with_logs(after_create(dir), first);
    let after_second = with_logs(after_create(after_first), second);
    lemma_create_rotates(dir);
    lemma_create_rotates(after_first);
    lemma_create_rotates(after_second);
    assert(Set::<Seq<char>>::empty().union(first) =~= first);
    assert(Set::<Seq<char>>::empty().union(second) =~= second);
    assert(Set::<Seq<char>>::empty().union(third) =~= third);
}

/// The results directory of one run.
#[derive(Debug)]
pub struct OutputDir {
    path: String,
    log_dir: String,
}

impl OutputDir {
    /// The path of the results directory.
    pub closed spec fn path_spec(&self) -> Seq<char> {
        self.path@
    }

    /// The path of the log directory.
    pub closed spec fn log_dir_spec(&self) -> Seq<char> {
        self.log_dir@
    }

    /// The results directory inside `in_dir`, with its log directory inside
    /// it.
    pub fn new(in_dir: &str) -> (dir: OutputDir)
        ensures
            dir.path_spec() == join_spec(in_dir@, outdir_name()),
            dir.log_dir_spec() == join_spec(dir.path_spec(), "log"@),
    {
        let path = join(in_dir, "mutants.out");
        let log_dir = join(path.as_str(), "log");
        OutputDir { path, log_dir }
    }

    /// The path inside `in_dir` to which an earlier results directory is
    /// moved.
    pub fn rotated_path(in_dir: &str) -> (path: String)
        ensures
            path@ == join_spec(in_dir@, rotated_name()),
    {
        join(in_dir, "mutants.out.old")
    }

    /// The path of the run's trace log, which lies in the results directory
    /// beside the scenarios' log directory.
    pub fn create_trace_log(&self) -> (path: String)
        ensures
            path@ == join_spec(self.path_spec(), "trace.log"@),
    {
        join(self.path.as_str(), "trace.log")
    }

    /// The path of the log of the scenario called `scenario_name`, in the
    /// log directory.
    pub fn create_log(&self, scenario_name: &str) -> (path: String)
        ensures
            path@ == join_spec(self.log_dir_spec(), log_name_spec(scenario_name@)),
    {
        let name = String::from_str(scenario_name).concat(".log");
        join(self.log_dir.as_str(), name.as_str())
    }

    /// The path of the file that lists the planned mutations.
    pub fn mutants_json(&self) -> (path: String)
        ensures
            path@ == join_spec(self.path_spec(), "mutants.json"@),
    {
        join(self.path.as_str(), "mutants.json")
    }

    /// The path of the file that holds the outcomes so far.
    pub fn outcomes_json(&self) -> (path: String)
        ensures
            path@ == join_spec(self.path_spec(), "outcomes.json"@),
    {
        join(self.path.as_str(), "outcomes.json")
    }

    /// The path of the results directory.
    pub fn path(&self) -> (path: &str)
        ensures
            path@ == self.path_spec(),
    {
        self.path.as_str()
    }

    /// The path of the log directory.
    pub fn log_dir(&self) -> (path: &str)
        ensures
            path@ == self.log_dir_spec(),
    {
        self.log_dir.as_str()
    }
}

} // verus!
