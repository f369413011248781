use vstd::prelude::*;

verus! {

/// How far below the root a directory walk descends.
#[derive(Clone, Copy, Debug, PartialEq, Eq)]
pub enum DepthMode {
    /// Only the root's direct children.
    Flat,
    /// Every entry of the subtree, at every depth.
    Recursive,
}

/// Whether an entry found at `depth` below the root (the root itself at depth
/// 0) is one to checksum: a regular file under the root, and in flat mode one
/// of the root's direct children.
pub open spec fn admits(mode: DepthMode, depth: nat, is_file: bool) -> bool {
    &&& is_file
    &&& 1 <= depth
    &&& (mode == DepthMode::Flat ==> depth == 1)
}

impl DepthMode {
    /// The least depth the walk yields: the root itself is never a unit of work.
    pub fn min_depth(self) -> (r: usize)
        ensures
            r == 1,
    {
        1
    }

    /// The greatest depth the walk descends to.
    pub fn max_depth(self) -> (r: usize)
        ensures
            self == DepthMode::Flat ==> r == 1,
            self == DepthMode::Recursive ==> r == usize::MAX,
    {
        match self {
            DepthMode::Flat => 1,
            DepthMode::Recursive => usize::MAX,
        }
    }

    /// Whether an entry of the walk is kept: directories and anything else
    /// that is not a regular file are dropped, as are entries outside the
    /// mode's depths.
    pub fn keeps_entry(self, depth: usize, is_file: bool) -> (r: bool)
        ensures
            r == admits(self, depth as nat, is_file),
    {
        let within = match self {
            DepthMode::Flat => depth == 1,
            DepthMode::Recursive => depth >= 1,
        };
        is_file && within
    }
}

/// Flat mode keeps nothing from below the root's direct children; recursive
/// mode keeps every regular file at every depth under the root, so it keeps
/// all that flat mode keeps.
pub proof fn lemma_depth_modes(depth: nat, is_file: bool)
    ensures
        depth > 1 ==> !admits(DepthMode::Flat, depth, is_file),
        is_file && depth >= 1 ==> admits(DepthMode::Recursive, depth, is_file),
        admits(DepthMode::Flat, depth, is_file) ==> admits(DepthMode::Recursive, depth, is_file),
{
}

} // verus!
