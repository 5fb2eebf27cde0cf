use vstd::prelude::*;

verus! {

/// The order of a set of variational equations.
#[derive(Debug, Clone, Copy, PartialEq, Eq, Structural)]
pub enum VariationalOrder {
    First,
    Second,
}

} // verus!
