//! The discriminated errors that every operation returns on failure.

use vstd::prelude::*;

verus! {

/// Every way an operation can fail. Each failure aborts the whole operation
/// with no state change; callers are responsible for presenting the error.
#[derive(Clone, Copy, Debug, PartialEq, Eq, Structural)]
pub enum ErrorCode {
    /// The global counters were already set up.
    AlreadyInitialized,
    /// `start_time < cliff_time < end_time` does not hold.
    InvalidTimeParameters,
    /// `end_time - start_time` is below the minimum vesting duration.
    VestingDurationTooShort,
    /// A schedule's total amount must be greater than zero.
    InvalidTotalAmount,
    /// The employee name exceeds its length bound.
    EmployeeNameTooLong,
    /// The employee position exceeds its length bound.
    EmployeePositionTooLong,
    /// The organization name exceeds its length bound.
    OrganizationNameTooLong,
    /// No organization record has the given id.
    OrganizationNotFound,
    /// No employee record has the given identity within the organization.
    EmployeeNotFound,
    /// An employee record with this identity already exists in the organization.
    EmployeeAlreadyExists,
    /// The employee record belongs to a different organization.
    EmployeeNotInOrganization,
    /// The organization's employee counter is at its cap.
    OrganizationEmployeeLimitReached,
    /// No vesting schedule has the given id.
    VestingScheduleNotFound,
    /// Claims are rejected before the cliff time.
    CliffTimeNotReached,
    /// The claimable amount is zero.
    NoTokensAvailableToClaim,
    /// The schedule was revoked before this revoke call.
    VestingScheduleAlreadyRevoked,
    /// The schedule was created non-revocable.
    VestingScheduleNotRevocable,
    /// Only the organization owner may perform this action.
    UnauthorizedOrganizationOwner,
    /// Only the schedule's employee may perform this action.
    UnauthorizedEmployee,
    /// The escrow holding lacks the tokens a transfer needs; surfaced by the
    /// custody collaborator, never computed here.
    InsufficientTokensInVestingAccount,
    /// Claims are rejected once the schedule is revoked.
    VestingScheduleRevoked,
    /// The organization is not active.
    OrganizationNotActive,
    /// The employee record is not active.
    EmployeeNotActive,
}

} // verus!
