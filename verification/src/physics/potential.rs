//! Potentials: the functions of position that callers supply.

use vstd::prelude::*;
use crate::numeric::fixed::Fixed;

verus! {

/// The value that a potential returns at `x`.
pub open spec fn potential_value<F: Fn(Fixed) -> Fixed>(potential: F, x: Fixed) -> Fixed {
    choose|v: Fixed| call_ensures(potential, (x,), v)
}

/// A potential is pure where it accepts every position and returns one
/// value for each.
pub open spec fn is_pure<F: Fn(Fixed) -> Fixed>(potential: F) -> bool {
    &&& forall|x: Fixed| call_requires(potential, (x,))
    &&& forall|x: Fixed, v: Fixed|
        call_ensures(potential, (x,), v) ==> v == potential_value(potential, x)
}

/// A potential as a function of position.
pub open spec fn potential_fn<F: Fn(Fixed) -> Fixed>(potential: F) -> spec_fn(Fixed) -> Fixed {
    |x: Fixed| potential_value(potential, x)
}

} // verus!
