//! The steps of a build pipeline and what each of them can come to.

use vstd::prelude::*;

verus! {

/// One step of the build pipeline. The steps are ordered: check, build, test.
#[derive(Clone, Copy, Debug, PartialEq, Eq, PartialOrd, Ord, Hash, Structural)]
pub enum Phase {
    Check,
    Build,
    Test,
}

/// What one phase came to.
#[derive(Clone, Copy, Debug, PartialEq, Eq, Hash, Structural)]
pub enum PhaseResult {
    /// The build tool ran longer than it was allowed to and was stopped.
    Timeout,
    /// The build tool reported success.
    Success,
    /// The build tool reported a failure.
    Failure,
}

/// All phases, in their order.
pub open spec fn all_phases() -> Seq<Phase> {
    seq![Phase::Check, Phase::Build, Phase::Test]
}

impl Phase {
    /// The place of the phase in the order of phases.
    pub open spec fn rank(self) -> nat {
        match self {
            Phase::Check => 0,
            Phase::Build => 1,
            Phase::Test => 2,
        }
    }

    /// The phase's place in the order of phases.
    pub fn index(self) -> (i: u8)
        ensures
            i == self.rank(),
    {
        match self {
            Phase::Check => 0,
            Phase::Build => 1,
            Phase::Test => 2,
        }
    }

    /// Whether `self` comes strictly before `other`.
    pub fn precedes(self, other: Phase) -> (b: bool)
        ensures
            b == (self.rank() < other.rank()),
    {
        self.index() < other.index()
    }

    /// The name of the phase, which is also the build tool's subcommand.
    pub fn name(self) -> (s: &'static str)
        ensures
            s@ == self.name_spec(),
    {
        match self {
            Phase::Check => "check",
            Phase::Build => "build",
            Phase::Test => "test",
        }
    }

    /// The name of the phase.
    pub open spec fn name_spec(self) -> Seq<char> {
        match self {
            Phase::Check => "check"@,
            Phase::Build => "build"@,
            Phase::Test => "test"@,
        }
    }

    /// All phases, in their order.
    pub fn all() -> (phases: Vec<Phase>)
        ensures
            phases@ == all_phases(),
    {
        let phases = vec![Phase::Check, Phase::Build, Phase::Test];
        assert(phases@ =~= all_phases());
        phases
    }
}

impl PhaseResult {
    /// Whether the phase succeeded. A timeout is no success.
    pub fn success(self) -> (b: bool)
        ensures
            b == (self == PhaseResult::Success),
    {
        match self {
            PhaseResult::Success => true,
            _ => false,
        }
    }
}

/// The order of phases is total and strict: of two different phases exactly
/// one precedes the other, and no phase precedes itself.
pub proof fn lemma_phase_order_total(a: Phase, b: Phase)
    ensures
        a == b <==> a.rank() == b.rank(),
        a != b ==> (a.rank() < b.rank()) != (b.rank() < a.rank()),
        Phase::Check.rank() < Phase::Build.rank() < Phase::Test.rank(),
{
}

} // verus!
