use vstd::prelude::*;

verus! {

/// The standard control sizes, from largest to smallest.
#[derive(Clone, Copy, Debug, PartialEq, Eq, Structural)]
pub enum Size {
    Xl,
    Lg,
    Md,
    Sm,
    Xs,
    Xxs,
    Xxxs,
}

} // verus!
