use vstd::prelude::*;
use std::sync::Arc;

verus! {

/// What an open file offers to the descriptor table that holds it.
pub trait FileOperations: Sized {
    /// Whether the file is to be closed when a new program is executed.
    spec fn spec_close_on_exec(&self) -> bool;

    /// Whether `self` is a duplicate of `orig`: the same open file state,
    /// apart from what reopening the node may set in its private data.
    spec fn is_clone_of(&self, orig: &Self) -> bool;

    /// Whether making a duplicate of the file may be refused.
    spec fn may_refuse_clone(&self) -> bool;

    /// Whether the file is to be closed when a new program is executed.
    fn close_on_exec(&self) -> (r: bool)
        ensures
            r == self.spec_close_on_exec(),
    ;

    /// A duplicate of the file, or `None` when the node refuses to be
    /// opened once more.
    fn try_clone(&self) -> (r: Option<Arc<Self>>)
        ensures
            r matches Some(c) ==> (*c).is_clone_of(self),
            r is None ==> self.may_refuse_clone(),
    ;
}

} // verus!
