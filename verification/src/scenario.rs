//! What is being built in one run of the pipeline.

use vstd::prelude::*;
use vstd::string::*;

verus! {

/// One candidate change to the source, as far as the engine reads it.
#[derive(Debug, PartialEq, Eq)]
pub struct Mutation {
    /// The place of the change in the list as the mutation source gave it.
    pub id: usize,
    /// The stable one-line description of the change.
    pub name: String,
    /// The change as a readable diff.
    pub diff: String,
}

impl Clone for Mutation {
    fn clone(&self) -> (copy: Self)
        ensures
            copy == *self,
    {
        Mutation { id: self.id, name: self.name.clone(), diff: self.diff.clone() }
    }
}

/// What kind of build, check or test a pipeline run is.
#[derive(Debug, PartialEq, Eq)]
pub enum Scenario {
    /// A build in the real source tree.
    SourceTree,
    /// A build in a copy of the source tree with no mutation applied.
    Baseline,
    /// A build with one mutation applied.
    Mutant {
        mutation: Mutation,
        /// The zero-based place of the mutation among those being tried.
        i_mutation: usize,
        /// How many mutations are being tried.
        n_mutations: usize,
    },
}

impl Clone for Scenario {
    fn clone(&self) -> (copy: Self)
        ensures
            copy == *self,
    {
        match self {
            Scenario::SourceTree => Scenario::SourceTree,
            Scenario::Baseline => Scenario::Baseline,
            Scenario::Mutant { mutation, i_mutation, n_mutations } => Scenario::Mutant {
                mutation: mutation.clone(),
                i_mutation: *i_mutation,
                n_mutations: *n_mutations,
            },
        }
    }
}

impl Scenario {
    /// The display string of the scenario: a fixed name for the two
    /// unmutated scenarios, the mutation's description for a mutant.
    pub open spec fn name_spec(&self) -> Seq<char> {
        match self {
            Scenario::SourceTree => "source tree"@,
            Scenario::Baseline => "baseline"@,
            Scenario::Mutant { mutation, .. } => mutation.name@,
        }
    }

    /// Whether the scenario has a mutation applied.
    pub fn is_mutant(&self) -> (b: bool)
        ensures
            b == (*self is Mutant),
    {
        match self {
            Scenario::Mutant { .. } => true,
            _ => false,
        }
    }

    /// The display string of the scenario, which names its log and stands
    /// for it on the console.
    pub fn name(&self) -> (s: String)
        ensures
            s@ == self.name_spec(),
    {
        match self {
            Scenario::SourceTree => String::from_str("source tree"),
            Scenario::Baseline => String::from_str("baseline"),
            Scenario::Mutant { mutation, .. } => mutation.name.clone(),
        }
    }

    /// The lines that open the scenario's log: its name, and for a mutant
    /// the diff of its mutation after it.
    pub open spec fn log_preamble_spec(&self) -> Seq<Seq<char>> {
        match self {
            Scenario::Mutant { mutation, .. } => seq![self.name_spec(), mutation.diff@],
            _ => seq![self.name_spec()],
        }
    }

    /// The messages to write to the scenario's log before any phase runs.
    pub fn log_preamble(&self) -> (lines: Vec<String>)
        ensures
            lines@.len() == self.log_preamble_spec().len(),
            forall|i: int| 0 <= i < lines@.len() ==> lines@[i]@ == self.log_preamble_spec()[i],
    {
        let mut lines: Vec<String> = Vec::new();
        lines.push(self.name());
        match self {
            Scenario::Mutant { mutation, .. } => {
                lines.push(mutation.diff.clone());
            },
            _ => {},
        }
        lines
    }
}

} // verus!
