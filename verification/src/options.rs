//! The settings of a run that the engine reads.

use vstd::prelude::*;
use crate::span::Span;

verus! {

/// A snapshot of the settings of one run.
#[derive(Debug)]
pub struct Options {
    /// Check and build the real source tree before anything is copied.
    pub build_source: bool,
    /// Copy the build tool's `target` directory to the scratch workspace too.
    pub copy_target: bool,
    /// Run only the check phase.
    pub check_only: bool,
    /// Try the mutants in a random order.
    pub shuffle: bool,
    /// The longest that a test phase may run; `None` where no limit is set.
    pub test_timeout: Option<Span>,
    /// Arguments handed on to the test phase.
    pub additional_cargo_test_args: Vec<String>,
    /// Print how long things took.
    pub show_times: bool,
}

/// The contents of a list of strings.
pub open spec fn strings(list: Seq<String>) -> Seq<Seq<char>> {
    Seq::new(list.len(), |i: int| list[i]@)
}

impl Clone for Options {
    fn clone(&self) -> (copy: Self)
        ensures
            copy.build_source == self.build_source,
            copy.copy_target == self.copy_target,
            copy.check_only == self.check_only,
            copy.shuffle == self.shuffle,
            copy.test_timeout == self.test_timeout,
            copy.additional_cargo_test_args@ == self.additional_cargo_test_args@,
            copy.show_times == self.show_times,
    {
        let mut args: Vec<String> = Vec::new();
        let mut i: usize = 0;
        while i < self.additional_cargo_test_args.len()
            invariant
                i <= self.additional_cargo_test_args@.len(),
                args@ == self.additional_cargo_test_args@.take(i as int),
            decreases self.additional_cargo_test_args@.len() - i,
        {
            args.push(self.additional_cargo_test_args[i].clone());
            assert(self.additional_cargo_test_args@.take(i + 1)
                =~= self.additional_cargo_test_args@.take(i as int).push(
                self.additional_cargo_test_args@[i as int],
            ));
            i += 1;
        }
        assert(self.additional_cargo_test_args@.take(i as int)
            =~= self.additional_cargo_test_args@);
        Options {
            build_source: self.build_source,
            copy_target: self.copy_target,
            check_only: self.check_only,
            shuffle: self.shuffle,
            test_timeout: self.test_timeout,
            additional_cargo_test_args: args,
            show_times: self.show_times,
        }
    }
}

impl Options {
    /// The settings that hold where nothing was asked for: the source tree
    /// is built first, and nothing else is switched on.
    pub fn new() -> (options: Options)
        ensures
            options.build_source,
            !options.copy_target,
            !options.check_only,
            !options.shuffle,
            options.test_timeout is None,
            options.additional_cargo_test_args@.len() == 0,
            !options.show_times,
    {
        Options {
            build_source: true,
            copy_target: false,
            check_only: false,
            shuffle: false,
            test_timeout: None,
            additional_cargo_test_args: Vec::new(),
            show_times: false,
        }
    }

    /// Whether a limit on the test phase is set.
    pub fn has_test_timeout(&self) -> (b: bool)
        ensures
            b == (self.test_timeout is Some),
    {
        self.test_timeout.is_some()
    }

    /// The limit on the test phase, if one is set.
    pub fn test_timeout(&self) -> (timeout: Option<Span>)
        ensures
            timeout == self.test_timeout,
    {
        self.test_timeout
    }

    /// Sets the limit on the test phase and changes nothing else.
    pub fn set_test_timeout(&mut self, timeout: Span)
        ensures
            *final(self) == (Options { test_timeout: Some(timeout), ..*old(self) }),
    {
        self.test_timeout = Some(timeout);
    }
}

} // verus!
