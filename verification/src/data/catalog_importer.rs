//! Limits of a plan in the catalog that is imported.
use vstd::prelude::*;

verus! {

#[derive(Clone, Copy, Debug, PartialEq, Eq, Structural)]
pub struct PlanLimits {
    pub max_tenants: i32,
}

} // verus!
