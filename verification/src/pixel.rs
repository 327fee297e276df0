//! One pixel of the four-shade palette, from lightest to darkest.

use vstd::prelude::*;

verus! {

#[derive(Clone, Copy, Debug, PartialEq, Eq, Structural)]
pub enum Pixel {
    Lightest,
    Light,
    Dark,
    Darkest,
}

} // verus!
