//! The scratch workspace: what of the source tree is copied to it, and when
//! the copy is given up.

use vstd::prelude::*;
use vstd::string::*;

verus! {

/// The name of the build tool's own output directory.
pub open spec fn target_name() -> Seq<char> {
    "target"@
}

/// Whether an entry of the source tree is copied: every entry is, but the
/// directory `target` at the root of the tree, which is copied only where
/// `copy_target` asks for it.
pub open spec fn copies_entry_spec(
    copy_target: bool,
    is_dir: bool,
    relative_path: Seq<char>,
) -> bool {
    copy_target || !(is_dir && relative_path == target_name())
}

/// Whether the entry at `relative_path`, a path from the root of the source
/// tree, is copied to the scratch workspace.
pub fn copies_entry(copy_target: bool, is_dir: bool, relative_path: &str) -> (copied: bool)
    ensures
        copied == copies_entry_spec(copy_target, is_dir, relative_path@),
{
    if copy_target || !is_dir {
        return true;
    }
    let path = String::from_str(relative_path);
    let target = String::from_str("target");
    !(path == target)
}

/// Why a copy ended before the tree was copied.
#[derive(Clone, Copy, Debug, PartialEq, Eq, Structural)]
pub enum CopyStop {
    /// The user asked for the run to stop.
    Interrupted,
}

/// What follows the copy of one entry: the copy goes on unless the user has
/// asked for the run to stop.
pub fn after_entry_copied(interrupted: bool) -> (next: Result<(), CopyStop>)
    ensures
        interrupted ==> next == Err::<(), CopyStop>(CopyStop::Interrupted),
        !interrupted ==> next is Ok,
{
    if interrupted {
        Err(CopyStop::Interrupted)
    } else {
        Ok(())
    }
}

/// The headline under which the copy is shown while it runs.
pub fn copy_activity_name(copy_target: bool) -> (name: &'static str)
    ensures
        name@ == if copy_target {
            "Copy source and build products to scratch directory"@
        } else {
            "Copy source to scratch directory"@
        },
{
    if copy_target {
        "Copy source and build products to scratch directory"
    } else {
        "Copy source to scratch directory"
    }
}

} // verus!
