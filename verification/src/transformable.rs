//! The capability of being carried through a transform.
use vstd::prelude::*;
use crate::transform::Transform;
use crate::value::Value;

verus! {

/// A geometric value that says how it changes under a transform.
pub trait Transformable<T: Value>: Sized {
    /// Whether every operation of the rule is defined for `self` and `t`.
    spec fn transform_req(self, t: Transform<T>) -> bool;

    /// What `self` becomes under `t`.
    spec fn transform_spec(self, t: Transform<T>) -> Self;

    fn transform(self, t: Transform<T>) -> (r: Self)
        requires
            self.transform_req(t),
        ensures
            r == self.transform_spec(t),
    ;
}

} // verus!
