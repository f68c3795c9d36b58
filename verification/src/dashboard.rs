//! Read-only projections over the ledger for reporting.
//!
//! Nothing here mutates: each query projects current field values, derives
//! the vested and claimable amounts at the query time, and joins schedules
//! with the owning employee's name and position where the record resolves,
//! degrading to an `"Unknown"` placeholder where it does not.

use vstd::prelude::*;

use crate::errors::ErrorCode;
use crate::ledger::VestingLedger;
use crate::states::{Employee, Identity, VestingSchedule};

verus! {

/// A schedule joined with its valuation at the query time and, where
/// resolvable, the employee's name and position.
#[derive(Debug)]
pub struct VestingInfo {
    pub employer: Identity,
    pub employee: Identity,
    pub token_mint: u64,
    pub total_amount: u64,
    pub start_time: i64,
    pub cliff_time: i64,
    pub end_time: i64,
    pub claimed_amount: u64,
    pub vested_amount: u64,
    pub claimable_amount: u64,
    pub revoked: bool,
    pub revocable: bool,
    pub employee_name: String,
    pub employee_position: String,
    pub created_at: i64,
    pub org_id: u64,
}

/// A direct projection of an organization record.
#[derive(Debug)]
pub struct OrganizationInfo {
    pub org_id: u64,
    pub name: String,
    pub owner: Identity,
    pub total_employees: u64,
    pub total_vesting_schedules: u64,
    pub created_at: i64,
    pub active: bool,
}

/// A direct projection of an employee record.
#[derive(Debug)]
pub struct EmployeeInfo {
    pub employee: Identity,
    pub name: String,
    pub position: String,
    pub org_id: u64,
    pub joined_at: i64,
    pub active: bool,
    pub total_vesting_schedules: u64,
}

/// The three global counters.
#[derive(Debug)]
pub struct DashboardStats {
    pub total_organizations: u64,
    pub total_employees: u64,
    pub total_vesting_schedules: u64,
}

/// The predicate an employer dashboard filters schedules with.
pub open spec fn is_org_schedule(org_id: u64) -> spec_fn(VestingSchedule) -> bool {
    |s: VestingSchedule| s.org_id == org_id
}

/// The predicate an employee dashboard filters schedules with.
pub open spec fn is_employee_schedule(identity: Identity) -> spec_fn(VestingSchedule) -> bool {
    |s: VestingSchedule| s.employee == identity
}

/// The predicate an organization's employee listing filters with.
pub open spec fn is_org_employee(org_id: u64) -> spec_fn(Employee) -> bool {
    |e: Employee| e.org_id == org_id
}

/// The subsequence of `schedules` that belongs to the organization, in
/// storage order.
pub open spec fn org_schedules(schedules: Seq<VestingSchedule>, org_id: u64) -> Seq<
    VestingSchedule,
> {
    schedules.filter(is_org_schedule(org_id))
}

/// The subsequence of `schedules` granted to the identity, in storage order.
pub open spec fn employee_schedules(schedules: Seq<VestingSchedule>, identity: Identity) -> Seq<
    VestingSchedule,
> {
    schedules.filter(is_employee_schedule(identity))
}

/// The subsequence of `employees` enrolled in the organization, active or
/// not, in storage order.
pub open spec fn org_employees(employees: Seq<Employee>, org_id: u64) -> Seq<Employee> {
    employees.filter(is_org_employee(org_id))
}

/// Taking one more element of a sequence appends exactly that element.
proof fn lemma_take_push<A>(s: Seq<A>, i: int)
    requires
        0 <= i < s.len(),
    ensures
        s.take(i + 1) == s.take(i).push(s[i]),
{
    assert(s.take(i + 1) =~= s.take(i).push(s[i]));
}

/// The fixed placeholder used where a join cannot resolve an employee.
fn unknown_label() -> (r: String)
    ensures
        r@ == "Unknown"@,
{
    "Unknown".to_owned()
}

impl VestingLedger {
    /// The employee name a dashboard row for `s` shows: the owning record's
    /// name where it resolves, the placeholder where it does not.
    pub open spec fn joined_name(self, s: VestingSchedule) -> Seq<char> {
        if self.has_employee(s.employee, s.org_id) {
            self.employee(s.employee, s.org_id).name@
        } else {
            "Unknown"@
        }
    }

    /// The employee position a dashboard row for `s` shows.
    pub open spec fn joined_position(self, s: VestingSchedule) -> Seq<char> {
        if self.has_employee(s.employee, s.org_id) {
            self.employee(s.employee, s.org_id).position@
        } else {
            "Unknown"@
        }
    }

    /// What a dashboard row projected from `s` at time `now` holds.
    pub open spec fn vesting_info_matches(
        self,
        info: VestingInfo,
        s: VestingSchedule,
        now: int,
    ) -> bool {
        &&& info.employer == s.employer
        &&& info.employee == s.employee
        &&& info.token_mint == s.token_mint
        &&& info.total_amount == s.total_amount
        &&& info.start_time == s.start_time
        &&& info.cliff_time == s.cliff_time
        &&& info.end_time == s.end_time
        &&& info.claimed_amount == s.claimed_amount
        &&& info.vested_amount == s.vested_at(now)
        &&& info.claimable_amount == s.claimable_at(now)
        &&& info.revoked == s.revoked
        &&& info.revocable == s.revocable
        &&& info.employee_name@ == self.joined_name(s)
        &&& info.employee_position@ == self.joined_position(s)
        &&& info.created_at == s.created_at
        &&& info.org_id == s.org_id
    }

    /// What a listing row projected from employee record `e` holds.
    pub open spec fn employee_info_matches(info: EmployeeInfo, e: Employee) -> bool {
        &&& info.employee == e.employee
        &&& info.name@ == e.name@
        &&& info.position@ == e.position@
        &&& info.org_id == e.org_id
        &&& info.joined_at == e.joined_at
        &&& info.active == e.active
        &&& info.total_vesting_schedules == e.total_vesting_schedules
    }

    /// One dashboard row: the schedule in the given slot, valued at `now`
    /// and joined with its employee record.
    fn make_vesting_info(&self, idx: usize, now: i64) -> (info: VestingInfo)
        requires
            self.wf(),
            idx < self.schedules@.len(),
        ensures
            self.vesting_info_matches(info, self.schedules@[idx as int], now as int),
    {
        let employee = self.schedules[idx].employee;
        let org_id = self.schedules[idx].org_id;
        let (employee_name, employee_position) = match self.find_employee(employee, org_id) {
            Some(e) => {
                proof {
                    self.lemma_employee_index_unique(employee, org_id, e as int);
                }
                (self.employees[e].name.clone(), self.employees[e].position.clone())
            },
            None => (unknown_label(), unknown_label()),
        };
        let s = &self.schedules[idx];
        let vested_amount = s.calculate_vested_amount(now);
        let claimable_amount = s.calculate_claimable_amount(now);
        VestingInfo {
            employer: s.employer,
            employee: s.employee,
            token_mint: s.token_mint,
            total_amount: s.total_amount,
            start_time: s.start_time,
            cliff_time: s.cliff_time,
            end_time: s.end_time,
            claimed_amount: s.claimed_amount,
            vested_amount,
            claimable_amount,
            revoked: s.revoked,
            revocable: s.revocable,
            employee_name,
            employee_position,
            created_at: s.created_at,
            org_id: s.org_id,
        }
    }

    /// The three global counters.
    pub fn get_dashboard_stats(&self) -> (r: DashboardStats)
        ensures
            r.total_organizations == self.state.total_organizations,
            r.total_employees == self.state.total_employees,
            r.total_vesting_schedules == self.state.total_vesting_schedules,
    {
        DashboardStats {
            total_organizations: self.state.total_organizations,
            total_employees: self.state.total_employees,
            total_vesting_schedules: self.state.total_vesting_schedules,
        }
    }

    /// A direct projection of the organization record, or
    /// `OrganizationNotFound`.
    pub fn get_organization_info(&self, org_id: u64) -> (r: Result<OrganizationInfo, ErrorCode>)
        requires
            self.wf(),
        ensures
            self.has_org(org_id) ==> r is Ok && {
                let info = r->Ok_0;
                let org = self.org(org_id);
                &&& info.org_id == org.org_id
                &&& info.name@ == org.name@
                &&& info.owner == org.owner
                &&& info.total_employees == org.total_employees
                &&& info.total_vesting_schedules == org.total_vesting_schedules
                &&& info.created_at == org.created_at
                &&& info.active == org.active
            },
            !self.has_org(org_id) ==> r == Err::<OrganizationInfo, ErrorCode>(
                ErrorCode::OrganizationNotFound,
            ),
    {
        if org_id < 1 || org_id > self.organizations.len() as u64 {
            return Err(ErrorCode::OrganizationNotFound);
        }
        let org = &self.organizations[(org_id - 1) as usize];
        Ok(
            OrganizationInfo {
                org_id: org.org_id,
                name: org.name.clone(),
                owner: org.owner,
                total_employees: org.total_employees,
                total_vesting_schedules: org.total_vesting_schedules,
                created_at: org.created_at,
                active: org.active,
            },
        )
    }

    /// A direct projection of the employee record keyed
    /// `(identity, org_id)`, or `EmployeeNotFound`.
    pub fn get_employee_info(&self, identity: Identity, org_id: u64) -> (r: Result<
        EmployeeInfo,
        ErrorCode,
    >)
        requires
            self.wf(),
        ensures
            self.has_employee(identity, org_id) ==> r is Ok && Self::employee_info_matches(
                r->Ok_0,
                self.employee(identity, org_id),
            ),
            !self.has_employee(identity, org_id) ==> r == Err::<EmployeeInfo, ErrorCode>(
                ErrorCode::EmployeeNotFound,
            ),
    {
        match self.find_employee(identity, org_id) {
            None => Err(ErrorCode::EmployeeNotFound),
            Some(i) => {
                proof {
                    self.lemma_employee_index_unique(identity, org_id, i as int);
                }
                let e = &self.employees[i];
                Ok(
                    EmployeeInfo {
                        employee: e.employee,
                        name: e.name.clone(),
                        position: e.position.clone(),
                        org_id: e.org_id,
                        joined_at: e.joined_at,
                        active: e.active,
                        total_vesting_schedules: e.total_vesting_schedules,
                    },
                )
            },
        }
    }

    /// The schedule's fields with its valuation at `now`, or
    /// `VestingScheduleNotFound`. The name and position fields are left
    /// empty: this projection reads no employee record.
    pub fn get_vesting_info(&self, schedule_id: u64, now: i64) -> (r: Result<
        VestingInfo,
        ErrorCode,
    >)
        requires
            self.wf(),
        ensures
            self.has_schedule(schedule_id) ==> r is Ok && {
                let info = r->Ok_0;
                let s = self.schedule(schedule_id);
                &&& info.employer == s.employer
                &&& info.employee == s.employee
                &&& info.token_mint == s.token_mint
                &&& info.total_amount == s.total_amount
                &&& info.start_time == s.start_time
                &&& info.cliff_time == s.cliff_time
                &&& info.end_time == s.end_time
                &&& info.claimed_amount == s.claimed_amount
                &&& info.vested_amount == s.vested_at(now as int)
                &&& info.claimable_amount == s.claimable_at(now as int)
                &&& info.revoked == s.revoked
                &&& info.revocable == s.revocable
                &&& info.employee_name@.len() == 0
                &&& info.employee_position@.len() == 0
                &&& info.created_at == s.created_at
                &&& info.org_id == s.org_id
            },
            !self.has_schedule(schedule_id) ==> r == Err::<VestingInfo, ErrorCode>(
                ErrorCode::VestingScheduleNotFound,
            ),
    {
        if schedule_id < 1 || schedule_id > self.schedules.len() as u64 {
            return Err(ErrorCode::VestingScheduleNotFound);
        }
        let s = &self.schedules[(schedule_id - 1) as usize];
        let vested_amount = s.calculate_vested_amount(now);
        let claimable_amount = s.calculate_claimable_amount(now);
        Ok(
            VestingInfo {
                employer: s.employer,
                employee: s.employee,
                token_mint: s.token_mint,
                total_amount: s.total_amount,
                start_time: s.start_time,
                cliff_time: s.cliff_time,
                end_time: s.end_time,
                claimed_amount: s.claimed_amount,
                vested_amount,
                claimable_amount,
                revoked: s.revoked,
                revocable: s.revocable,
                employee_name: String::new(),
                employee_position: String::new(),
                created_at: s.created_at,
                org_id: s.org_id,
            },
        )
    }

    /// The amount claimable at `now`, or `VestingScheduleNotFound`.
    pub fn get_claimable_amount(&self, schedule_id: u64, now: i64) -> (r: Result<u64, ErrorCode>)
        requires
            self.wf(),
        ensures
            self.has_schedule(schedule_id) ==> r == Ok::<u64, ErrorCode>(
                self.schedule(schedule_id).claimable_at(now as int) as u64,
            ),
            !self.has_schedule(schedule_id) ==> r == Err::<u64, ErrorCode>(
                ErrorCode::VestingScheduleNotFound,
            ),
    {
        if schedule_id < 1 || schedule_id > self.schedules.len() as u64 {
            return Err(ErrorCode::VestingScheduleNotFound);
        }
        Ok(self.schedules[(schedule_id - 1) as usize].calculate_claimable_amount(now))
    }

    /// Every schedule of the organization, in storage order, each valued at
    /// `now` and joined with its employee record. Owner-only.
    pub fn get_employer_dashboard(&self, caller: Identity, org_id: u64, now: i64) -> (r: Result<
        Vec<VestingInfo>,
        ErrorCode,
    >)
        requires
            self.wf(),
        ensures
            !self.has_org(org_id) ==> r == Err::<Vec<VestingInfo>, ErrorCode>(
                ErrorCode::OrganizationNotFound,
            ),
            self.has_org(org_id) && self.org(org_id).owner != caller ==> r == Err::<
                Vec<VestingInfo>,
                ErrorCode,
            >(ErrorCode::UnauthorizedOrganizationOwner),
            self.has_org(org_id) && self.org(org_id).owner == caller ==> r is Ok && {
                let out = r->Ok_0;
                let matching = org_schedules(self.schedules@, org_id);
                &&& out@.len() == matching.len()
                &&& forall|k: int|
                    0 <= k < matching.len() ==> self.vesting_info_matches(
                        #[trigger] out@[k],
                        matching[k],
                        now as int,
                    )
            },
    {
        if org_id < 1 || org_id > self.organizations.len() as u64 {
            return Err(ErrorCode::OrganizationNotFound);
        }
        if self.organizations[(org_id - 1) as usize].owner != caller {
            return Err(ErrorCode::UnauthorizedOrganizationOwner);
        }
        let mut out: Vec<VestingInfo> = Vec::new();
        let mut i: usize = 0;
        while i < self.schedules.len()
            invariant
                self.wf(),
                i <= self.schedules@.len(),
                out@.len() == org_schedules(self.schedules@.take(i as int), org_id).len(),
                forall|k: int|
                    0 <= k < out@.len() ==> self.vesting_info_matches(
                        #[trigger] out@[k],
                        org_schedules(self.schedules@.take(i as int), org_id)[k],
                        now as int,
                    ),
            decreases self.schedules@.len() - i,
        {
            let ghost prefix = self.schedules@.take(i as int);
            if self.schedules[i].org_id == org_id {
                let info = self.make_vesting_info(i, now);
                out.push(info);
            }
            proof {
                lemma_take_push(self.schedules@, i as int);
                prefix.lemma_filter_push(self.schedules@[i as int], is_org_schedule(org_id));
            }
            i = i + 1;
        }
        proof {
            assert(self.schedules@.take(self.schedules@.len() as int) =~= self.schedules@);
        }
        Ok(out)
    }

    /// Every schedule granted to the calling identity, in storage order,
    /// each valued at `now` and joined with its employee record.
    pub fn get_employee_dashboard(&self, caller: Identity, now: i64) -> (out: Vec<VestingInfo>)
        requires
            self.wf(),
        ensures
            ({
                let matching = employee_schedules(self.schedules@, caller);
                &&& out@.len() == matching.len()
                &&& forall|k: int|
                    0 <= k < matching.len() ==> self.vesting_info_matches(
                        #[trigger] out@[k],
                        matching[k],
                        now as int,
                    )
            }),
    {
        let mut out: Vec<VestingInfo> = Vec::new();
        let mut i: usize = 0;
        while i < self.schedules.len()
            invariant
                self.wf(),
                i <= self.schedules@.len(),
                out@.len() == employee_schedules(self.schedules@.take(i as int), caller).len(),
                forall|k: int|
                    0 <= k < out@.len() ==> self.vesting_info_matches(
                        #[trigger] out@[k],
                        employee_schedules(self.schedules@.take(i as int), caller)[k],
                        now as int,
                    ),
            decreases self.schedules@.len() - i,
        {
            let ghost prefix = self.schedules@.take(i as int);
            if self.schedules[i].employee == caller {
                let info = self.make_vesting_info(i, now);
                out.push(info);
            }
            proof {
                lemma_take_push(self.schedules@, i as int);
                prefix.lemma_filter_push(self.schedules@[i as int], is_employee_schedule(caller));
            }
            i = i + 1;
        }
        proof {
            assert(self.schedules@.take(self.schedules@.len() as int) =~= self.schedules@);
        }
        out
    }

    /// Every employee record of the organization, active or not, in storage
    /// order. Owner-only.
    pub fn get_organization_employees(&self, caller: Identity, org_id: u64) -> (r: Result<
        Vec<EmployeeInfo>,
        ErrorCode,
    >)
        requires
            self.wf(),
        ensures
            !self.has_org(org_id) ==> r == Err::<Vec<EmployeeInfo>, ErrorCode>(
                ErrorCode::OrganizationNotFound,
            ),
            self.has_org(org_id) && self.org(org_id).owner != caller ==> r == Err::<
                Vec<EmployeeInfo>,
                ErrorCode,
            >(ErrorCode::UnauthorizedOrganizationOwner),
            self.has_org(org_id) && self.org(org_id).owner == caller ==> r is Ok && {
                let out = r->Ok_0;
                let matching = org_employees(self.employees@, org_id);
                &&& out@.len() == matching.len()
                &&& forall|k: int|
                    0 <= k < matching.len() ==> Self::employee_info_matches(
                        #[trigger] out@[k],
                        matching[k],
                    )
            },
    {
        if org_id < 1 || org_id > self.organizations.len() as u64 {
            return Err(ErrorCode::OrganizationNotFound);
        }
        if self.organizations[(org_id - 1) as usize].owner != caller {
            return Err(ErrorCode::UnauthorizedOrganizationOwner);
        }
        let mut out: Vec<EmployeeInfo> = Vec::new();
        let mut i: usize = 0;
        while i < self.employees.len()
            invariant
                self.wf(),
                i <= self.employees@.len(),
                out@.len() == org_employees(self.employees@.take(i as int), org_id).len(),
                forall|k: int|
                    0 <= k < out@.len() ==> Self::employee_info_matches(
                        #[trigger] out@[k],
                        org_employees(self.employees@.take(i as int), org_id)[k],
                    ),
            decreases self.employees@.len() - i,
        {
            let ghost prefix = self.employees@.take(i as int);
            if self.employees[i].org_id == org_id {
                let e = &self.employees[i];
                out.push(
                    EmployeeInfo {
                        employee: e.employee,
                        name: e.name.clone(),
                        position: e.position.clone(),
                        org_id: e.org_id,
                        joined_at: e.joined_at,
                        active: e.active,
                        total_vesting_schedules: e.total_vesting_schedules,
                    },
                );
            }
            proof {
                lemma_take_push(self.employees@, i as int);
                prefix.lemma_filter_push(self.employees@[i as int], is_org_employee(org_id));
            }
            i = i + 1;
        }
        proof {
            assert(self.employees@.take(self.employees@.len() as int) =~= self.employees@);
        }
        Ok(out)
    }
}

} // verus!
