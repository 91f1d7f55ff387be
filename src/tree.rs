//! Results of a node transformation and the recursion signal that steers a traversal.
use vstd::prelude::*;

verus! {

/// How a traversal goes on after a node has been handled.
#[derive(Clone, Copy, Debug, PartialEq, Eq, Structural)]
pub enum TreeNodeRecursion {
    /// Visit the children and the remaining nodes.
    Continue,
    /// Skip the children of this node (or, after them, the remaining siblings).
    Jump,
    /// Visit nothing more.
    Stop,
}

/// The more restrictive of two recursion signals.
pub open spec fn stricter(a: TreeNodeRecursion, b: TreeNodeRecursion) -> TreeNodeRecursion {
    if a is Stop || b is Stop {
        TreeNodeRecursion::Stop
    } else if a is Jump || b is Jump {
        TreeNodeRecursion::Jump
    } else {
        TreeNodeRecursion::Continue
    }
}

/// A value together with whether it was changed and how to go on.
#[derive(Debug, PartialEq, Eq)]
pub struct Transformed<T> {
    pub data: T,
    pub transformed: bool,
    pub tnr: TreeNodeRecursion,
}

impl<T> Transformed<T> {
    pub fn new(data: T, transformed: bool, tnr: TreeNodeRecursion) -> (r: Self)
        ensures
            r.data == data,
            r.transformed == transformed,
            r.tnr == tnr,
    {
        Transformed { data, transformed, tnr }
    }

    /// A changed value; the traversal continues.
    pub fn yes(data: T) -> (r: Self)
        ensures
            r.data == data,
            r.transformed,
            r.tnr == TreeNodeRecursion::Continue,
    {
        Transformed { data, transformed: true, tnr: TreeNodeRecursion::Continue }
    }

    /// An unchanged value; the traversal continues.
    pub fn no(data: T) -> (r: Self)
        ensures
            r.data == data,
            !r.transformed,
            r.tnr == TreeNodeRecursion::Continue,
    {
        Transformed { data, transformed: false, tnr: TreeNodeRecursion::Continue }
    }

    /// Merge an earlier outcome into this one: the flags are or-ed and the
    /// stricter recursion signal is kept.
    pub fn absorb(self, transformed: bool, tnr: TreeNodeRecursion) -> (r: Self)
        ensures
            r.data == self.data,
            r.transformed == (self.transformed || transformed),
            r.tnr == stricter(self.tnr, tnr),
    {
        let t = match (self.tnr, tnr) {
            (TreeNodeRecursion::Stop, _) | (_, TreeNodeRecursion::Stop) => TreeNodeRecursion::Stop,
            (TreeNodeRecursion::Jump, _) | (_, TreeNodeRecursion::Jump) => TreeNodeRecursion::Jump,
            _ => TreeNodeRecursion::Continue,
        };
        Transformed { data: self.data, transformed: self.transformed || transformed, tnr: t }
    }
}

} // verus!
