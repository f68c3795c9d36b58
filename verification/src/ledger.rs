//! The keyed store of records and the operations that mutate it.
//!
//! `VestingLedger` holds the global counters and the three record
//! collections, addressed by the composite keys of the data model:
//! organizations by their sequential `org_id`, employees by
//! `(identity, org_id)`, schedules by their sequential `schedule_id`.
//! Every operation is all-or-nothing: it either commits every write or
//! returns an error and leaves the ledger untouched. Token custody is an
//! external collaborator, so each operation reports the transfer it requires
//! as a plain amount and the host performs it.

use vstd::prelude::*;

use crate::constants::{
    MAX_EMPLOYEES_PER_ORG, MAX_EMPLOYEE_NAME_LENGTH, MAX_EMPLOYEE_POSITION_LENGTH,
    MAX_ORG_NAME_LENGTH, MIN_VESTING_DURATION,
};
use crate::errors::ErrorCode;
use crate::states::{Employee, Identity, Organization, ProgramState, VestingSchedule};

verus! {

/// The whole persisted state: the counter singleton and the three record
/// collections.
pub struct VestingLedger {
    pub state: ProgramState,
    pub organizations: Vec<Organization>,
    pub employees: Vec<Employee>,
    pub schedules: Vec<VestingSchedule>,
}

impl VestingLedger {
    /// The ledger invariant: counters agree with the collections they count
    /// (except the intentional employee-removal asymmetry, which never
    /// removes a record), ids are sequential from 1, every record is
    /// well-formed, employee keys are unique, and per-record schedule
    /// counters never exceed the global one.
    pub open spec fn wf(self) -> bool {
        &&& !self.state.initialized ==> self.organizations@.len() == 0
            && self.employees@.len() == 0 && self.schedules@.len() == 0
        &&& self.state.total_organizations == self.organizations@.len()
        &&& self.state.total_employees == self.employees@.len()
        &&& self.state.total_vesting_schedules == self.schedules@.len()
        &&& forall|i: int|
            0 <= i < self.organizations@.len() ==> {
                &&& (#[trigger] self.organizations@[i]).wf()
                &&& self.organizations@[i].org_id == i + 1
                &&& self.organizations@[i].total_vesting_schedules
                    <= self.state.total_vesting_schedules
            }
        &&& forall|i: int|
            0 <= i < self.employees@.len() ==> {
                &&& (#[trigger] self.employees@[i]).wf()
                &&& 1 <= self.employees@[i].org_id <= self.organizations@.len()
                &&& self.employees@[i].total_vesting_schedules
                    <= self.state.total_vesting_schedules
            }
        &&& forall|i: int, j: int|
            0 <= i < j < self.employees@.len() ==> !((#[trigger] self.employees@[i]).employee
                == (#[trigger] self.employees@[j]).employee && self.employees@[i].org_id
                == self.employees@[j].org_id)
        &&& forall|i: int|
            0 <= i < self.schedules@.len() ==> {
                &&& (#[trigger] self.schedules@[i]).wf()
                &&& self.schedules@[i].schedule_id == i + 1
                &&& 1 <= self.schedules@[i].org_id <= self.organizations@.len()
            }
    }

    /// Whether an organization record with this id exists.
    pub open spec fn has_org(self, org_id: u64) -> bool {
        1 <= org_id && org_id <= self.organizations@.len()
    }

    /// The organization record with this id.
    pub open spec fn org(self, org_id: u64) -> Organization {
        self.organizations@[org_id - 1]
    }

    /// Whether an employee record with this `(identity, org_id)` key exists.
    pub open spec fn has_employee(self, identity: Identity, org_id: u64) -> bool {
        exists|i: int|
            0 <= i < self.employees@.len() && (#[trigger] self.employees@[i]).employee == identity
                && self.employees@[i].org_id == org_id
    }

    /// The slot of the employee record with this key; meaningful only when
    /// `has_employee` holds (the key is unique by the ledger invariant).
    pub open spec fn employee_index(self, identity: Identity, org_id: u64) -> int {
        choose|i: int|
            0 <= i < self.employees@.len() && (#[trigger] self.employees@[i]).employee == identity
                && self.employees@[i].org_id == org_id
    }

    /// The employee record with this key.
    pub open spec fn employee(self, identity: Identity, org_id: u64) -> Employee {
        self.employees@[self.employee_index(identity, org_id)]
    }

    /// Whether a vesting schedule with this id exists.
    pub open spec fn has_schedule(self, schedule_id: u64) -> bool {
        1 <= schedule_id && schedule_id <= self.schedules@.len()
    }

    /// The vesting schedule with this id.
    pub open spec fn schedule(self, schedule_id: u64) -> VestingSchedule {
        self.schedules@[schedule_id - 1]
    }

    /// A fresh, uninitialized ledger with every counter at zero.
    pub fn new() -> (r: VestingLedger)
        ensures
            r.wf(),
            !r.state.initialized,
            r.state == (ProgramState {
                initialized: false,
                total_organizations: 0,
                total_employees: 0,
                total_vesting_schedules: 0,
                admin: 0,
            }),
            r.organizations@ =~= Seq::<Organization>::empty(),
            r.employees@ =~= Seq::<Employee>::empty(),
            r.schedules@ =~= Seq::<VestingSchedule>::empty(),
    {
        VestingLedger {
            state: ProgramState {
                initialized: false,
                total_organizations: 0,
                total_employees: 0,
                total_vesting_schedules: 0,
                admin: 0,
            },
            organizations: Vec::new(),
            employees: Vec::new(),
            schedules: Vec::new(),
        }
    }

    /// The slot of the employee record keyed `(identity, org_id)`, if any.
    pub(crate) fn find_employee(&self, identity: Identity, org_id: u64) -> (r: Option<usize>)
        ensures
            match r {
                Some(i) => {
                    &&& i < self.employees@.len()
                    &&& self.employees@[i as int].employee == identity
                    &&& self.employees@[i as int].org_id == org_id
                    &&& self.has_employee(identity, org_id)
                },
                None => !self.has_employee(identity, org_id),
            },
    {
        let mut i: usize = 0;
        while i < self.employees.len()
            invariant
                i <= self.employees@.len(),
                forall|j: int|
                    0 <= j < i ==> !((#[trigger] self.employees@[j]).employee == identity
                        && self.employees@[j].org_id == org_id),
            decreases self.employees@.len() - i,
        {
            if self.employees[i].employee == identity && self.employees[i].org_id == org_id {
                return Some(i);
            }
            i = i + 1;
        }
        None
    }

    /// In a well-formed ledger the employee key is unique, so any slot that
    /// matches the key is the slot `employee_index` names.
    pub proof fn lemma_employee_index_unique(self, identity: Identity, org_id: u64, i: int)
        requires
            self.wf(),
            0 <= i < self.employees@.len(),
            self.employees@[i].employee == identity,
            self.employees@[i].org_id == org_id,
        ensures
            self.employee_index(identity, org_id) == i,
            self.has_employee(identity, org_id),
    {
        assert(self.has_employee(identity, org_id));
        let j = self.employee_index(identity, org_id);
        if j != i {
            if j < i {
                assert(!(self.employees@[j].employee == self.employees@[i].employee
                    && self.employees@[j].org_id == self.employees@[i].org_id));
            } else {
                assert(!(self.employees@[i].employee == self.employees@[j].employee
                    && self.employees@[i].org_id == self.employees@[j].org_id));
            }
        }
    }

    /// What `initialize_program` decides from the state it finds.
    pub open spec fn initialize_program_outcome(pre: VestingLedger) -> Result<(), ErrorCode> {
        if pre.state.initialized {
            Err(ErrorCode::AlreadyInitialized)
        } else {
            Ok(())
        }
    }

    /// Sets up the global counters exactly once, recording the admin
    /// identity; a repeat call fails with `AlreadyInitialized`.
    pub fn initialize_program(&mut self, admin: Identity) -> (r: Result<(), ErrorCode>)
        requires
            old(self).wf(),
        ensures
            final(self).wf(),
            r == Self::initialize_program_outcome(*old(self)),
            r is Err ==> *final(self) == *old(self),
            r is Ok ==> {
                &&& final(self).state == (ProgramState {
                    initialized: true,
                    total_organizations: 0,
                    total_employees: 0,
                    total_vesting_schedules: 0,
                    admin,
                })
                &&& final(self).organizations == old(self).organizations
                &&& final(self).employees == old(self).employees
                &&& final(self).schedules == old(self).schedules
            },
    {
        if self.state.initialized {
            return Err(ErrorCode::AlreadyInitialized);
        }
        self.state.initialized = true;
        self.state.total_organizations = 0;
        self.state.total_employees = 0;
        self.state.total_vesting_schedules = 0;
        self.state.admin = admin;
        Ok(())
    }

    /// What `create_organization` decides from the name it is given.
    pub open spec fn create_organization_outcome(pre: VestingLedger, name: Seq<char>) -> Result<
        u64,
        ErrorCode,
    > {
        if name.len() > MAX_ORG_NAME_LENGTH {
            Err(ErrorCode::OrganizationNameTooLong)
        } else {
            Ok((pre.state.total_organizations + 1) as u64)
        }
    }

    /// Creates an organization owned by the caller and returns its freshly
    /// assigned sequential id.
    pub fn create_organization(&mut self, owner: Identity, name: String, now: i64) -> (r: Result<
        u64,
        ErrorCode,
    >)
        requires
            old(self).wf(),
            old(self).state.initialized,
            old(self).state.total_organizations < u64::MAX,
        ensures
            final(self).wf(),
            r == Self::create_organization_outcome(*old(self), name@),
            r is Err ==> *final(self) == *old(self),
            r is Ok ==> {
                &&& final(self).organizations@ == old(self).organizations@.push(
                    (Organization {
                        org_id: (old(self).state.total_organizations + 1) as u64,
                        name,
                        owner,
                        total_employees: 0,
                        total_vesting_schedules: 0,
                        created_at: now,
                        active: true,
                    }),
                )
                &&& final(self).state == (ProgramState {
                    total_organizations: (old(self).state.total_organizations + 1) as u64,
                    ..old(self).state
                })
                &&& final(self).employees == old(self).employees
                &&& final(self).schedules == old(self).schedules
            },
    {
        if name.as_str().unicode_len() > MAX_ORG_NAME_LENGTH {
            return Err(ErrorCode::OrganizationNameTooLong);
        }
        let org_id = self.state.total_organizations + 1;
        self.state.total_organizations = org_id;
        self.organizations.push(
            Organization {
                org_id,
                name,
                owner,
                total_employees: 0,
                total_vesting_schedules: 0,
                created_at: now,
                active: true,
            },
        );
        Ok(org_id)
    }

    /// What `join_organization` decides, with its checks in order: name
    /// bound, position bound, organization lookup, organization active,
    /// employee cap, key free.
    pub open spec fn join_organization_outcome(
        pre: VestingLedger,
        identity: Identity,
        org_id: u64,
        name: Seq<char>,
        position: Seq<char>,
    ) -> Result<(), ErrorCode> {
        if name.len() > MAX_EMPLOYEE_NAME_LENGTH {
            Err(ErrorCode::EmployeeNameTooLong)
        } else if position.len() > MAX_EMPLOYEE_POSITION_LENGTH {
            Err(ErrorCode::EmployeePositionTooLong)
        } else if !pre.has_org(org_id) {
            Err(ErrorCode::OrganizationNotFound)
        } else if !pre.org(org_id).active {
            Err(ErrorCode::OrganizationNotActive)
        } else if pre.org(org_id).total_employees >= MAX_EMPLOYEES_PER_ORG {
            Err(ErrorCode::OrganizationEmployeeLimitReached)
        } else if pre.has_employee(identity, org_id) {
            Err(ErrorCode::EmployeeAlreadyExists)
        } else {
            Ok(())
        }
    }

    /// Enrolls the caller as an employee of the organization, bounded by the
    /// per-organization cap; bumps both the organization's and the global
    /// employee counters.
    pub fn join_organization(
        &mut self,
        identity: Identity,
        org_id: u64,
        employee_name: String,
        employee_position: String,
        now: i64,
    ) -> (r: Result<(), ErrorCode>)
        requires
            old(self).wf(),
            old(self).state.initialized,
            old(self).state.total_employees < u64::MAX,
        ensures
            final(self).wf(),
            r == Self::join_organization_outcome(
                *old(self),
                identity,
                org_id,
                employee_name@,
                employee_position@,
            ),
            r is Err ==> *final(self) == *old(self),
            r is Ok ==> {
                &&& final(self).employees@ == old(self).employees@.push(
                    (Employee {
                        employee: identity,
                        name: employee_name,
                        position: employee_position,
                        org_id,
                        joined_at: now,
                        active: true,
                        total_vesting_schedules: 0,
                    }),
                )
                &&& final(self).organizations@ == old(self).organizations@.update(
                    org_id - 1,
                    (Organization {
                        total_employees: (old(self).org(org_id).total_employees + 1) as u64,
                        ..old(self).org(org_id)
                    }),
                )
                &&& final(self).state == (ProgramState {
                    total_employees: (old(self).state.total_employees + 1) as u64,
                    ..old(self).state
                })
                &&& final(self).schedules == old(self).schedules
            },
    {
        if employee_name.as_str().unicode_len() > MAX_EMPLOYEE_NAME_LENGTH {
            return Err(ErrorCode::EmployeeNameTooLong);
        }
        if employee_position.as_str().unicode_len() > MAX_EMPLOYEE_POSITION_LENGTH {
            return Err(ErrorCode::EmployeePositionTooLong);
        }
        if org_id < 1 || org_id > self.organizations.len() as u64 {
            return Err(ErrorCode::OrganizationNotFound);
        }
        let idx: usize = (org_id - 1) as usize;
        if !self.organizations[idx].active {
            return Err(ErrorCode::OrganizationNotActive);
        }
        if self.organizations[idx].total_employees >= MAX_EMPLOYEES_PER_ORG {
            return Err(ErrorCode::OrganizationEmployeeLimitReached);
        }
        match self.find_employee(identity, org_id) {
            Some(_) => Err(ErrorCode::EmployeeAlreadyExists),
            None => {
                let org = &mut self.organizations[idx];
                org.total_employees = org.total_employees + 1;
                self.state.total_employees = self.state.total_employees + 1;
                self.employees.push(
                    Employee {
                        employee: identity,
                        name: employee_name,
                        position: employee_position,
                        org_id,
                        joined_at: now,
                        active: true,
                        total_vesting_schedules: 0,
                    },
                );
                Ok(())
            },
        }
    }

    /// What `remove_employee_from_org` decides: organization lookup,
    /// employee lookup, then the owner-only authorization check.
    pub open spec fn remove_employee_outcome(
        pre: VestingLedger,
        caller: Identity,
        org_id: u64,
        identity: Identity,
    ) -> Result<(), ErrorCode> {
        if !pre.has_org(org_id) {
            Err(ErrorCode::OrganizationNotFound)
        } else if !pre.has_employee(identity, org_id) {
            Err(ErrorCode::EmployeeNotFound)
        } else if pre.org(org_id).owner != caller {
            Err(ErrorCode::UnauthorizedOrganizationOwner)
        } else {
            Ok(())
        }
    }

    /// Deactivates an employee record (a soft delete) and decrements the
    /// organization's employee counter. The global employee counter is left
    /// unchanged, and so are the employee's schedules: this asymmetry is the
    /// documented behaviour, not a defect to repair.
    pub fn remove_employee_from_org(
        &mut self,
        caller: Identity,
        org_id: u64,
        identity: Identity,
    ) -> (r: Result<(), ErrorCode>)
        requires
            old(self).wf(),
            old(self).state.initialized,
            Self::remove_employee_outcome(*old(self), caller, org_id, identity) is Ok ==> old(
                self,
            ).org(org_id).total_employees >= 1,
        ensures
            final(self).wf(),
            r == Self::remove_employee_outcome(*old(self), caller, org_id, identity),
            r is Err ==> *final(self) == *old(self),
            r is Ok ==> {
                &&& final(self).employees@ == old(self).employees@.update(
                    old(self).employee_index(identity, org_id),
                    (Employee { active: false, ..old(self).employee(identity, org_id) }),
                )
                &&& final(self).organizations@ == old(self).organizations@.update(
                    org_id - 1,
                    (Organization {
                        total_employees: (old(self).org(org_id).total_employees - 1) as u64,
                        ..old(self).org(org_id)
                    }),
                )
                &&& final(self).state == old(self).state
                &&& final(self).schedules == old(self).schedules
            },
    {
        if org_id < 1 || org_id > self.organizations.len() as u64 {
            return Err(ErrorCode::OrganizationNotFound);
        }
        let idx: usize = (org_id - 1) as usize;
        match self.find_employee(identity, org_id) {
            None => Err(ErrorCode::EmployeeNotFound),
            Some(emp_idx) => {
                if self.organizations[idx].owner != caller {
                    return Err(ErrorCode::UnauthorizedOrganizationOwner);
                }
                proof {
                    self.lemma_employee_index_unique(identity, org_id, emp_idx as int);
                }
                let emp = &mut self.employees[emp_idx];
                emp.active = false;
                let org = &mut self.organizations[idx];
                org.total_employees = org.total_employees - 1;
                Ok(())
            },
        }
    }

    /// What `initialize_vesting_schedule` decides, with its validation in
    /// order: positive amount, ordered times, minimum duration, organization
    /// lookup, owner-only authorization, employee lookup, employee active.
    pub open spec fn initialize_vesting_schedule_outcome(
        pre: VestingLedger,
        caller: Identity,
        org_id: u64,
        employee_identity: Identity,
        total_amount: u64,
        start_time: i64,
        cliff_time: i64,
        end_time: i64,
    ) -> Result<u64, ErrorCode> {
        if total_amount == 0 {
            Err(ErrorCode::InvalidTotalAmount)
        } else if !(start_time < cliff_time && cliff_time < end_time) {
            Err(ErrorCode::InvalidTimeParameters)
        } else if end_time - start_time < MIN_VESTING_DURATION {
            Err(ErrorCode::VestingDurationTooShort)
        } else if !pre.has_org(org_id) {
            Err(ErrorCode::OrganizationNotFound)
        } else if pre.org(org_id).owner != caller {
            Err(ErrorCode::UnauthorizedOrganizationOwner)
        } else if !pre.has_employee(employee_identity, org_id) {
            Err(ErrorCode::EmployeeNotFound)
        } else if !pre.employee(employee_identity, org_id).active {
            Err(ErrorCode::EmployeeNotActive)
        } else {
            Ok((pre.state.total_vesting_schedules + 1) as u64)
        }
    }

    /// Creates a vesting schedule for an active employee of the caller's
    /// organization and returns its freshly assigned sequential id. The
    /// grant's `total_amount` must be escrowed into a holding controlled by
    /// the new schedule in the same atomic step: the new schedule's
    /// `escrow_funds` equals `total_amount`, and a host whose custody
    /// transfer fails must discard the whole update.
    pub fn initialize_vesting_schedule(
        &mut self,
        caller: Identity,
        org_id: u64,
        employee_identity: Identity,
        token_mint: u64,
        total_amount: u64,
        start_time: i64,
        cliff_time: i64,
        end_time: i64,
        revocable: bool,
        now: i64,
    ) -> (r: Result<u64, ErrorCode>)
        requires
            old(self).wf(),
            old(self).state.initialized,
            old(self).state.total_vesting_schedules < u64::MAX,
        ensures
            final(self).wf(),
            r == Self::initialize_vesting_schedule_outcome(
                *old(self),
                caller,
                org_id,
                employee_identity,
                total_amount,
                start_time,
                cliff_time,
                end_time,
            ),
            r is Err ==> *final(self) == *old(self),
            r is Ok ==> {
                &&& final(self).schedules@ == old(self).schedules@.push(
                    (VestingSchedule {
                        org_id,
                        employer: caller,
                        employee: employee_identity,
                        token_mint,
                        total_amount,
                        start_time,
                        cliff_time,
                        end_time,
                        claimed_amount: 0,
                        revoked: false,
                        revocable,
                        revoke_time: None,
                        schedule_id: (old(self).state.total_vesting_schedules + 1) as u64,
                        created_at: now,
                    }),
                )
                &&& final(self).organizations@ == old(self).organizations@.update(
                    org_id - 1,
                    (Organization {
                        total_vesting_schedules: (old(self).org(org_id).total_vesting_schedules
                            + 1) as u64,
                        ..old(self).org(org_id)
                    }),
                )
                &&& final(self).employees@ == old(self).employees@.update(
                    old(self).employee_index(employee_identity, org_id),
                    (Employee {
                        total_vesting_schedules: (old(self).employee(
                            employee_identity,
                            org_id,
                        ).total_vesting_schedules + 1) as u64,
                        ..old(self).employee(employee_identity, org_id)
                    }),
                )
                &&& final(self).state == (ProgramState {
                    total_vesting_schedules: (old(self).state.total_vesting_schedules + 1) as u64,
                    ..old(self).state
                })
                &&& final(self).schedule(r->Ok_0).escrow_funds() == total_amount
            },
    {
        if total_amount == 0 {
            return Err(ErrorCode::InvalidTotalAmount);
        }
        if !(start_time < cliff_time && cliff_time < end_time) {
            return Err(ErrorCode::InvalidTimeParameters);
        }
        if (end_time as i128) - (start_time as i128) < MIN_VESTING_DURATION as i128 {
            return Err(ErrorCode::VestingDurationTooShort);
        }
        if org_id < 1 || org_id > self.organizations.len() as u64 {
            return Err(ErrorCode::OrganizationNotFound);
        }
        let idx: usize = (org_id - 1) as usize;
        if self.organizations[idx].owner != caller {
            return Err(ErrorCode::UnauthorizedOrganizationOwner);
        }
        match self.find_employee(employee_identity, org_id) {
            None => Err(ErrorCode::EmployeeNotFound),
            Some(emp_idx) => {
                if !self.employees[emp_idx].active {
                    proof {
                        self.lemma_employee_index_unique(employee_identity, org_id, emp_idx as int);
                    }
                    return Err(ErrorCode::EmployeeNotActive);
                }
                proof {
                    self.lemma_employee_index_unique(employee_identity, org_id, emp_idx as int);
                }
                let schedule_id = self.state.total_vesting_schedules + 1;
                self.state.total_vesting_schedules = schedule_id;
                let org = &mut self.organizations[idx];
                org.total_vesting_schedules = org.total_vesting_schedules + 1;
                let emp = &mut self.employees[emp_idx];
                emp.total_vesting_schedules = emp.total_vesting_schedules + 1;
                self.schedules.push(
                    VestingSchedule {
                        org_id,
                        employer: caller,
                        employee: employee_identity,
                        token_mint,
                        total_amount,
                        start_time,
                        cliff_time,
                        end_time,
                        claimed_amount: 0,
                        revoked: false,
                        revocable,
                        revoke_time: None,
                        schedule_id,
                        created_at: now,
                    },
                );
                Ok(schedule_id)
            },
        }
    }

    /// What `claim_tokens` decides: schedule lookup, employee-only
    /// authorization, the unconditional revocation guard, the cliff guard,
    /// then the claimable amount itself.
    pub open spec fn claim_tokens_outcome(
        pre: VestingLedger,
        caller: Identity,
        schedule_id: u64,
        now: i64,
    ) -> Result<u64, ErrorCode> {
        if !pre.has_schedule(schedule_id) {
            Err(ErrorCode::VestingScheduleNotFound)
        } else if pre.schedule(schedule_id).employee != caller {
            Err(ErrorCode::UnauthorizedEmployee)
        } else if pre.schedule(schedule_id).revoked {
            Err(ErrorCode::VestingScheduleRevoked)
        } else if now < pre.schedule(schedule_id).cliff_time {
            Err(ErrorCode::CliffTimeNotReached)
        } else if pre.schedule(schedule_id).claimable_at(now as int) == 0 {
            Err(ErrorCode::NoTokensAvailableToClaim)
        } else {
            Ok(pre.schedule(schedule_id).claimable_at(now as int) as u64)
        }
    }

    /// Claims every token vested but not yet claimed at `now`, raising
    /// `claimed_amount` to the vested amount. The returned amount must be
    /// moved from the schedule's escrow holding to the employee by the
    /// custody collaborator, under the schedule's own authority.
    pub fn claim_tokens(&mut self, caller: Identity, schedule_id: u64, now: i64) -> (r: Result<
        u64,
        ErrorCode,
    >)
        requires
            old(self).wf(),
            old(self).state.initialized,
        ensures
            final(self).wf(),
            r == Self::claim_tokens_outcome(*old(self), caller, schedule_id, now),
            r is Err ==> *final(self) == *old(self),
            r is Ok ==> {
                &&& final(self).schedules@ == old(self).schedules@.update(
                    schedule_id - 1,
                    (VestingSchedule {
                        claimed_amount: old(self).schedule(schedule_id).vested_at(now as int) as u64,
                        ..old(self).schedule(schedule_id)
                    }),
                )
                &&& final(self).organizations == old(self).organizations
                &&& final(self).employees == old(self).employees
                &&& final(self).state == old(self).state
            },
    {
        if schedule_id < 1 || schedule_id > self.schedules.len() as u64 {
            return Err(ErrorCode::VestingScheduleNotFound);
        }
        let idx: usize = (schedule_id - 1) as usize;
        if self.schedules[idx].employee != caller {
            return Err(ErrorCode::UnauthorizedEmployee);
        }
        if self.schedules[idx].revoked {
            return Err(ErrorCode::VestingScheduleRevoked);
        }
        if now < self.schedules[idx].cliff_time {
            return Err(ErrorCode::CliffTimeNotReached);
        }
        let claimable_amount = self.schedules[idx].calculate_claimable_amount(now);
        if claimable_amount == 0 {
            return Err(ErrorCode::NoTokensAvailableToClaim);
        }
        proof {
            crate::states::lemma_vested_bounds(self.schedules@[idx as int], now as int);
        }
        let sched = &mut self.schedules[idx];
        sched.claimed_amount = sched.claimed_amount + claimable_amount;
        Ok(claimable_amount)
    }

    /// What `revoke_vesting` decides: schedule lookup, employer-only
    /// authorization, the once-only guard, the revocability guard, then the
    /// amount unvested at `now`.
    pub open spec fn revoke_vesting_outcome(
        pre: VestingLedger,
        caller: Identity,
        schedule_id: u64,
        now: i64,
    ) -> Result<u64, ErrorCode> {
        if !pre.has_schedule(schedule_id) {
            Err(ErrorCode::VestingScheduleNotFound)
        } else if pre.schedule(schedule_id).employer != caller {
            Err(ErrorCode::UnauthorizedOrganizationOwner)
        } else if pre.schedule(schedule_id).revoked {
            Err(ErrorCode::VestingScheduleAlreadyRevoked)
        } else if !pre.schedule(schedule_id).revocable {
            Err(ErrorCode::VestingScheduleNotRevocable)
        } else {
            Ok(pre.schedule(schedule_id).unvested_at(now as int) as u64)
        }
    }

    /// Revokes a revocable schedule: freezes the valuation curve at `now`
    /// and reports the unvested amount, which — when positive — the custody
    /// collaborator must return from escrow to the employer. Tokens vested
    /// but unclaimed at the freeze stay in escrow, unreachable from then on,
    /// because claims are rejected unconditionally once revoked: that lockup
    /// is the documented behaviour of the design.
    pub fn revoke_vesting(&mut self, caller: Identity, schedule_id: u64, now: i64) -> (r: Result<
        u64,
        ErrorCode,
    >)
        requires
            old(self).wf(),
            old(self).state.initialized,
        ensures
            final(self).wf(),
            r == Self::revoke_vesting_outcome(*old(self), caller, schedule_id, now),
            r is Err ==> *final(self) == *old(self),
            r is Ok ==> {
                &&& final(self).schedules@ == old(self).schedules@.update(
                    schedule_id - 1,
                    (VestingSchedule {
                        revoked: true,
                        revoke_time: Some(now),
                        ..old(self).schedule(schedule_id)
                    }),
                )
                &&& final(self).organizations == old(self).organizations
                &&& final(self).employees == old(self).employees
                &&& final(self).state == old(self).state
            },
    {
        if schedule_id < 1 || schedule_id > self.schedules.len() as u64 {
            return Err(ErrorCode::VestingScheduleNotFound);
        }
        let idx: usize = (schedule_id - 1) as usize;
        if self.schedules[idx].employer != caller {
            return Err(ErrorCode::UnauthorizedOrganizationOwner);
        }
        if self.schedules[idx].revoked {
            return Err(ErrorCode::VestingScheduleAlreadyRevoked);
        }
        if !self.schedules[idx].revocable {
            return Err(ErrorCode::VestingScheduleNotRevocable);
        }
        let unvested_amount = self.schedules[idx].calculate_unvested_amount(now);
        let sched = &mut self.schedules[idx];
        sched.revoked = true;
        sched.revoke_time = Some(now);
        Ok(unvested_amount)
    }

    /// Claim monotonicity: a successful claim raises `claimed_amount` to the
    /// vested amount, so an immediate second claim at the same time is
    /// rejected with `NoTokensAvailableToClaim` — and a rejected claim
    /// leaves the ledger unchanged, by `claim_tokens`'s own contract.
    pub proof fn lemma_second_claim_finds_nothing(
        pre: VestingLedger,
        post: VestingLedger,
        caller: Identity,
        schedule_id: u64,
        now: i64,
    )
        requires
            pre.wf(),
            Self::claim_tokens_outcome(pre, caller, schedule_id, now) is Ok,
            post.schedules@ == pre.schedules@.update(
                schedule_id - 1,
                (VestingSchedule {
                    claimed_amount: pre.schedule(schedule_id).vested_at(now as int) as u64,
                    ..pre.schedule(schedule_id)
                }),
            ),
        ensures
            Self::claim_tokens_outcome(post, caller, schedule_id, now) == Err::<u64, ErrorCode>(
                ErrorCode::NoTokensAvailableToClaim,
            ),
    {
        let s = pre.schedule(schedule_id);
        assert(s.wf());
        crate::states::lemma_vested_bounds(s, now as int);
    }

    /// Claim accounting: a claim that goes through finds the vested amount
    /// strictly above the claimed amount, so raising `claimed_amount` to it
    /// only ever increases the field. Claim is the sole operation that
    /// touches `claimed_amount`, so it is non-decreasing over a schedule's
    /// lifetime.
    pub proof fn lemma_claim_raises_claimed(
        pre: VestingLedger,
        caller: Identity,
        schedule_id: u64,
        now: i64,
    )
        requires
            pre.wf(),
            Self::claim_tokens_outcome(pre, caller, schedule_id, now) is Ok,
        ensures
            pre.schedule(schedule_id).claimed_amount < pre.schedule(schedule_id).vested_at(
                now as int,
            ),
    {
    }

    /// The employee cap: a well-formed ledger never drives an organization's
    /// employee counter past `MAX_EMPLOYEES_PER_ORG`, and once the counter
    /// stands at the cap a further join — however valid its inputs — is
    /// rejected with `OrganizationEmployeeLimitReached`.
    pub proof fn lemma_employee_cap(
        pre: VestingLedger,
        identity: Identity,
        org_id: u64,
        name: Seq<char>,
        position: Seq<char>,
    )
        requires
            pre.wf(),
            pre.has_org(org_id),
            pre.org(org_id).active,
            name.len() <= MAX_EMPLOYEE_NAME_LENGTH,
            position.len() <= MAX_EMPLOYEE_POSITION_LENGTH,
        ensures
            pre.org(org_id).total_employees <= MAX_EMPLOYEES_PER_ORG,
            pre.org(org_id).total_employees == MAX_EMPLOYEES_PER_ORG
                ==> Self::join_organization_outcome(pre, identity, org_id, name, position)
                == Err::<(), ErrorCode>(ErrorCode::OrganizationEmployeeLimitReached),
    {
        assert(pre.organizations@[org_id - 1].wf());
    }

    /// The authorization boundary: a revoke attempted by any identity other
    /// than the schedule's employer is rejected with
    /// `UnauthorizedOrganizationOwner` — and a rejected revoke leaves the
    /// ledger, so also the escrow accounting, unchanged, by
    /// `revoke_vesting`'s own contract.
    pub proof fn lemma_revoke_requires_employer(
        pre: VestingLedger,
        caller: Identity,
        schedule_id: u64,
        now: i64,
    )
        requires
            pre.has_schedule(schedule_id),
            caller != pre.schedule(schedule_id).employer,
        ensures
            Self::revoke_vesting_outcome(pre, caller, schedule_id, now) == Err::<u64, ErrorCode>(
                ErrorCode::UnauthorizedOrganizationOwner,
            ),
    {
    }

    /// The once-only revoke guard: after a successful revoke the schedule is
    /// terminal, so a second revoke — at any later time — is rejected with
    /// `VestingScheduleAlreadyRevoked`, and no second return transfer is
    /// reported, by `revoke_vesting`'s contract for rejected calls.
    pub proof fn lemma_revoke_is_terminal(
        pre: VestingLedger,
        post: VestingLedger,
        caller: Identity,
        schedule_id: u64,
        now: i64,
        later: i64,
    )
        requires
            pre.wf(),
            Self::revoke_vesting_outcome(pre, caller, schedule_id, now) is Ok,
            post.schedules@ == pre.schedules@.update(
                schedule_id - 1,
                (VestingSchedule {
                    revoked: true,
                    revoke_time: Some(now),
                    ..pre.schedule(schedule_id)
                }),
            ),
        ensures
            Self::revoke_vesting_outcome(post, caller, schedule_id, later) == Err::<
                u64,
                ErrorCode,
            >(ErrorCode::VestingScheduleAlreadyRevoked),
    {
    }
}

} // verus!
