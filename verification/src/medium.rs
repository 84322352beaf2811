//! The medium that a ray travels in.
use vstd::prelude::*;

verus! {

/// A medium without properties: a ray carries one so that it can be told
/// which medium it left.
#[derive(Clone, Copy, Debug)]
pub struct Medium {}

} // verus!
