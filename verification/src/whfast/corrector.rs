use vstd::prelude::*;

verus! {

/// The symplectic corrector applied around the Wisdom–Holman map, by order.
#[derive(Debug, Clone, Copy, PartialEq, Eq, Structural)]
pub enum Corrector {
    Disabled,
    Order3,
    Order5,
    Order7,
    Order11,
    Order17,
}

} // verus!
