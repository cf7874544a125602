use vstd::prelude::*;
use crate::paths::{join_path, joined_path};

verus! {

/// Name of the directory that receives the old root during the pivot.
pub const OLD_ROOT_NAME: &'static str = "old_root";

/// Where the old root sits once the pivot is done.
pub const OLD_ROOT_AFTER_PIVOT: &'static str = "/old_root";

/// Mode of the old-root directory: owner read, write and search only.
pub const OLD_ROOT_MODE: u32 = 0o700;

/// The namespace setup run inside the child, step by step.
#[derive(Clone, Copy, Debug, PartialEq, Eq, Structural)]
pub enum PivotStep {
    /// Recursively bind-mount the new root onto itself.
    BindNewRoot,
    /// Create the old-root directory under the new root.
    MakeOldRoot,
    /// `pivot_root(new_root, new_root/old_root)`.
    Pivot,
    /// `chdir("/")`.
    EnterRoot,
    /// Mount a fresh `proc` on `/proc`.
    MountProc,
    /// Lazily unmount `/old_root`.
    DetachOldRoot,
    /// Remove the `/old_root` directory.
    RemoveOldRoot,
}

/// The order of the namespace setup; the first failing step ends it.
pub open spec fn pivot_plan() -> Seq<PivotStep> {
    seq![
        PivotStep::BindNewRoot,
        PivotStep::MakeOldRoot,
        PivotStep::Pivot,
        PivotStep::EnterRoot,
        PivotStep::MountProc,
        PivotStep::DetachOldRoot,
        PivotStep::RemoveOldRoot,
    ]
}

/// The steps of the namespace setup, in order.
pub fn pivot_steps() -> (r: Vec<PivotStep>)
    ensures
        r@ == pivot_plan(),
{
    let mut v: Vec<PivotStep> = Vec::new();
    v.push(PivotStep::BindNewRoot);
    v.push(PivotStep::MakeOldRoot);
    v.push(PivotStep::Pivot);
    v.push(PivotStep::EnterRoot);
    v.push(PivotStep::MountProc);
    v.push(PivotStep::DetachOldRoot);
    v.push(PivotStep::RemoveOldRoot);
    assert(v@ =~= pivot_plan());
    v
}

/// The directory under `new_root` that receives the old root.
pub fn old_root_path(new_root: &str) -> (r: String)
    ensures
        r@ == joined_path(new_root@, OLD_ROOT_NAME@),
{
    join_path(new_root, OLD_ROOT_NAME)
}

} // verus!
