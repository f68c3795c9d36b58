//! Configuration bounds shared by the registries and the vesting engine.

use vstd::prelude::*;

verus! {

/// Longest organization name accepted by `create_organization`, in characters.
pub const MAX_ORG_NAME_LENGTH: usize = 64;

/// Longest employee name accepted by `join_organization`, in characters.
pub const MAX_EMPLOYEE_NAME_LENGTH: usize = 64;

/// Longest employee position accepted by `join_organization`, in characters.
pub const MAX_EMPLOYEE_POSITION_LENGTH: usize = 64;

/// Cap on an organization's employee counter; further joins are rejected.
pub const MAX_EMPLOYEES_PER_ORG: u64 = 100;

/// Shortest span allowed between a schedule's start and end times.
pub const MIN_VESTING_DURATION: i64 = 60;

} // verus!
