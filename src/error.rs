use vstd::prelude::*;

verus! {

/// Why a route table could not be compiled.
#[derive(Debug)]
pub enum Error {
    /// The pattern registered at `index` (shown anchored) is not a valid regular expression.
    InvalidPattern { index: usize, pattern: String },
    /// Every pattern compiles on its own, but the combined set matcher could not be built.
    PatternSet,
}

} // verus!
