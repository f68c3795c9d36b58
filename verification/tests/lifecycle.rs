use token_vesting::constants::MAX_EMPLOYEES_PER_ORG;
use token_vesting::errors::ErrorCode;
use token_vesting::ledger::VestingLedger;
use token_vesting::states::{Employee, Organization, ProgramState, VestingSchedule};

const ADMIN: u64 = 1;
const OWNER: u64 = 10;
const WORKER: u64 = 20;
const STRANGER: u64 = 66;
const MINT: u64 = 5;

/// An initialized ledger with one organization (owned by `OWNER`) and one
/// active employee (`WORKER`).
fn populated() -> VestingLedger {
    let mut ledger = VestingLedger::new();
    ledger.initialize_program(ADMIN).unwrap();
    let org_id = ledger.create_organization(OWNER, "acme".to_string(), 1).unwrap();
    assert_eq!(org_id, 1);
    ledger.join_organization(WORKER, 1, "ann".to_string(), "dev".to_string(), 2).unwrap();
    ledger
}

/// `populated()` plus one revocable schedule: 1000 tokens, cliff at 0,
/// fully vested at 1000.
fn with_schedule() -> VestingLedger {
    let mut ledger = populated();
    let id = ledger
        .initialize_vesting_schedule(OWNER, 1, WORKER, MINT, 1000, -1000, 0, 1000, true, 3)
        .unwrap();
    assert_eq!(id, 1);
    ledger
}

#[test]
fn initialize_program_runs_once() {
    let mut ledger = VestingLedger::new();
    assert_eq!(ledger.initialize_program(ADMIN), Ok(()));
    assert!(ledger.state.initialized);
    assert_eq!(ledger.state.admin, ADMIN);
    assert_eq!(ledger.initialize_program(STRANGER), Err(ErrorCode::AlreadyInitialized));
    assert_eq!(ledger.state.admin, ADMIN);
}

#[test]
fn organization_ids_are_sequential() {
    let mut ledger = VestingLedger::new();
    ledger.initialize_program(ADMIN).unwrap();
    assert_eq!(ledger.create_organization(OWNER, "one".to_string(), 1), Ok(1));
    assert_eq!(ledger.create_organization(STRANGER, "two".to_string(), 2), Ok(2));
    let stats = ledger.get_dashboard_stats();
    assert_eq!(stats.total_organizations, 2);
    let info = ledger.get_organization_info(2).unwrap();
    assert_eq!(info.owner, STRANGER);
    assert_eq!(info.name, "two");
    assert!(info.active);
    assert_eq!(info.total_employees, 0);
}

#[test]
fn organization_name_bound_is_enforced() {
    let mut ledger = VestingLedger::new();
    ledger.initialize_program(ADMIN).unwrap();
    let long = "x".repeat(65);
    assert_eq!(
        ledger.create_organization(OWNER, long, 1),
        Err(ErrorCode::OrganizationNameTooLong)
    );
    assert_eq!(ledger.state.total_organizations, 0);
    let exact = "x".repeat(64);
    assert_eq!(ledger.create_organization(OWNER, exact, 1), Ok(1));
}

#[test]
fn join_validates_names_and_lookup() {
    let mut ledger = populated();
    let long = "y".repeat(65);
    assert_eq!(
        ledger.join_organization(30, 1, long.clone(), "dev".to_string(), 9),
        Err(ErrorCode::EmployeeNameTooLong)
    );
    assert_eq!(
        ledger.join_organization(30, 1, "bob".to_string(), long, 9),
        Err(ErrorCode::EmployeePositionTooLong)
    );
    assert_eq!(
        ledger.join_organization(30, 7, "bob".to_string(), "dev".to_string(), 9),
        Err(ErrorCode::OrganizationNotFound)
    );
    assert_eq!(
        ledger.join_organization(WORKER, 1, "ann".to_string(), "dev".to_string(), 9),
        Err(ErrorCode::EmployeeAlreadyExists)
    );
    let stats = ledger.get_dashboard_stats();
    assert_eq!(stats.total_employees, 1);
}

#[test]
fn join_rejects_inactive_organization() {
    // No operation deactivates an organization, so build the record directly.
    let mut ledger = VestingLedger {
        state: ProgramState {
            initialized: true,
            total_organizations: 1,
            total_employees: 0,
            total_vesting_schedules: 0,
            admin: ADMIN,
        },
        organizations: vec![Organization {
            org_id: 1,
            name: "idle".to_string(),
            owner: OWNER,
            total_employees: 0,
            total_vesting_schedules: 0,
            created_at: 0,
            active: false,
        }],
        employees: vec![],
        schedules: vec![],
    };
    assert_eq!(
        ledger.join_organization(WORKER, 1, "ann".to_string(), "dev".to_string(), 2),
        Err(ErrorCode::OrganizationNotActive)
    );
}

#[test]
fn employee_cap_stops_joins_at_the_limit() {
    let mut ledger = VestingLedger::new();
    ledger.initialize_program(ADMIN).unwrap();
    ledger.create_organization(OWNER, "acme".to_string(), 1).unwrap();
    for k in 0..MAX_EMPLOYEES_PER_ORG {
        let identity = 1000 + k;
        assert_eq!(
            ledger.join_organization(identity, 1, "e".to_string(), "dev".to_string(), 2),
            Ok(())
        );
    }
    assert_eq!(
        ledger.join_organization(5000, 1, "late".to_string(), "dev".to_string(), 2),
        Err(ErrorCode::OrganizationEmployeeLimitReached)
    );
    let info = ledger.get_organization_info(1).unwrap();
    assert_eq!(info.total_employees, MAX_EMPLOYEES_PER_ORG);
}

#[test]
fn remove_decrements_org_counter_but_not_global() {
    let mut ledger = populated();
    let before = ledger.get_dashboard_stats();
    assert_eq!(before.total_employees, 1);
    assert_eq!(ledger.get_organization_info(1).unwrap().total_employees, 1);

    assert_eq!(ledger.remove_employee_from_org(OWNER, 1, WORKER), Ok(()));

    // The organization's counter drops; the global counter does not. This
    // asymmetry is the documented behaviour and is asserted exactly.
    assert_eq!(ledger.get_organization_info(1).unwrap().total_employees, 0);
    assert_eq!(ledger.get_dashboard_stats().total_employees, 1);
    let emp = ledger.get_employee_info(WORKER, 1).unwrap();
    assert!(!emp.active);
}

#[test]
fn remove_is_owner_only_and_checks_lookups() {
    let mut ledger = populated();
    assert_eq!(
        ledger.remove_employee_from_org(STRANGER, 1, WORKER),
        Err(ErrorCode::UnauthorizedOrganizationOwner)
    );
    assert!(ledger.get_employee_info(WORKER, 1).unwrap().active);
    assert_eq!(
        ledger.remove_employee_from_org(OWNER, 9, WORKER),
        Err(ErrorCode::OrganizationNotFound)
    );
    assert_eq!(
        ledger.remove_employee_from_org(OWNER, 1, STRANGER),
        Err(ErrorCode::EmployeeNotFound)
    );
}

#[test]
fn schedule_creation_validates_in_order() {
    let mut ledger = populated();
    assert_eq!(
        ledger.initialize_vesting_schedule(OWNER, 1, WORKER, MINT, 0, 0, 100, 200, true, 3),
        Err(ErrorCode::InvalidTotalAmount)
    );
    assert_eq!(
        ledger.initialize_vesting_schedule(OWNER, 1, WORKER, MINT, 1000, 100, 100, 200, true, 3),
        Err(ErrorCode::InvalidTimeParameters)
    );
    assert_eq!(
        ledger.initialize_vesting_schedule(OWNER, 1, WORKER, MINT, 1000, 0, 100, 50, true, 3),
        Err(ErrorCode::InvalidTimeParameters)
    );
    assert_eq!(
        ledger.initialize_vesting_schedule(OWNER, 1, WORKER, MINT, 1000, 0, 10, 59, true, 3),
        Err(ErrorCode::VestingDurationTooShort)
    );
    assert_eq!(
        ledger.initialize_vesting_schedule(OWNER, 3, WORKER, MINT, 1000, 0, 100, 200, true, 3),
        Err(ErrorCode::OrganizationNotFound)
    );
    assert_eq!(
        ledger.initialize_vesting_schedule(STRANGER, 1, WORKER, MINT, 1000, 0, 100, 200, true, 3),
        Err(ErrorCode::UnauthorizedOrganizationOwner)
    );
    assert_eq!(
        ledger.initialize_vesting_schedule(OWNER, 1, STRANGER, MINT, 1000, 0, 100, 200, true, 3),
        Err(ErrorCode::EmployeeNotFound)
    );
    ledger.remove_employee_from_org(OWNER, 1, WORKER).unwrap();
    assert_eq!(
        ledger.initialize_vesting_schedule(OWNER, 1, WORKER, MINT, 1000, 0, 100, 200, true, 3),
        Err(ErrorCode::EmployeeNotActive)
    );
    assert_eq!(ledger.get_dashboard_stats().total_vesting_schedules, 0);
}

#[test]
fn schedule_creation_escrows_the_grant_and_bumps_counters() {
    let ledger = with_schedule();
    let s = &ledger.schedules[0];
    assert_eq!(s.schedule_id, 1);
    assert_eq!(s.org_id, 1);
    assert_eq!(s.employer, OWNER);
    assert_eq!(s.employee, WORKER);
    assert_eq!(s.token_mint, MINT);
    assert_eq!(s.total_amount, 1000);
    assert_eq!(s.claimed_amount, 0);
    assert!(!s.revoked);
    assert!(s.revocable);
    assert_eq!(s.revoke_time, None);
    assert_eq!(s.escrow_balance(), 1000);
    assert_eq!(ledger.get_dashboard_stats().total_vesting_schedules, 1);
    assert_eq!(ledger.get_organization_info(1).unwrap().total_vesting_schedules, 1);
    assert_eq!(ledger.get_employee_info(WORKER, 1).unwrap().total_vesting_schedules, 1);
}

#[test]
fn ramp_values_through_the_full_flow() {
    let mut ledger = populated();
    let id = ledger
        .initialize_vesting_schedule(OWNER, 1, WORKER, MINT, 1000, 50, 100, 200, true, 3)
        .unwrap();
    assert_eq!(ledger.get_claimable_amount(id, 100), Ok(0));
    assert_eq!(ledger.get_claimable_amount(id, 150), Ok(500));
    assert_eq!(ledger.get_claimable_amount(id, 199), Ok(990));
    assert_eq!(ledger.get_claimable_amount(id, 200), Ok(1000));
    assert_eq!(ledger.get_claimable_amount(id, 300), Ok(1000));
}

#[test]
fn claim_moves_claimed_to_vested_and_twice_finds_nothing() {
    let mut ledger = with_schedule();
    assert_eq!(ledger.claim_tokens(WORKER, 1, 400), Ok(400));
    assert_eq!(ledger.schedules[0].claimed_amount, 400);
    assert_eq!(ledger.schedules[0].escrow_balance(), 600);
    // An immediate second claim at the same time fails and changes nothing.
    assert_eq!(ledger.claim_tokens(WORKER, 1, 400), Err(ErrorCode::NoTokensAvailableToClaim));
    assert_eq!(ledger.schedules[0].claimed_amount, 400);
    // Once more time has passed, the difference is claimable.
    assert_eq!(ledger.claim_tokens(WORKER, 1, 650), Ok(250));
    assert_eq!(ledger.schedules[0].claimed_amount, 650);
}

#[test]
fn claim_guards_lookup_identity_cliff_and_availability() {
    let mut ledger = with_schedule();
    assert_eq!(ledger.claim_tokens(WORKER, 2, 400), Err(ErrorCode::VestingScheduleNotFound));
    assert_eq!(ledger.claim_tokens(STRANGER, 1, 400), Err(ErrorCode::UnauthorizedEmployee));
    assert_eq!(ledger.claim_tokens(WORKER, 1, -5), Err(ErrorCode::CliffTimeNotReached));
    assert_eq!(ledger.claim_tokens(WORKER, 1, 0), Err(ErrorCode::NoTokensAvailableToClaim));
    assert_eq!(ledger.schedules[0].claimed_amount, 0);
}

#[test]
fn revoke_splits_the_grant_and_blocks_later_claims() {
    let mut ledger = with_schedule();
    // At t=400 with nothing claimed: 600 go back to the employer.
    assert_eq!(ledger.revoke_vesting(OWNER, 1, 400), Ok(600));
    let s = &ledger.schedules[0];
    assert!(s.revoked);
    assert_eq!(s.revoke_time, Some(400));
    assert_eq!(s.claimed_amount, 0);
    // The 400 vested but unclaimed stay in escrow, unreachable: a later
    // claim is rejected outright.
    assert_eq!(s.escrow_balance(), 400);
    assert_eq!(ledger.claim_tokens(WORKER, 1, 900), Err(ErrorCode::VestingScheduleRevoked));
    assert_eq!(ledger.schedules[0].claimed_amount, 0);
}

#[test]
fn revoke_is_employer_only_and_leaves_state_alone() {
    let mut ledger = with_schedule();
    assert_eq!(
        ledger.revoke_vesting(STRANGER, 1, 400),
        Err(ErrorCode::UnauthorizedOrganizationOwner)
    );
    let s = &ledger.schedules[0];
    assert!(!s.revoked);
    assert_eq!(s.claimed_amount, 0);
    assert_eq!(s.escrow_balance(), 1000);
}

#[test]
fn revoke_twice_is_rejected() {
    let mut ledger = with_schedule();
    assert_eq!(ledger.revoke_vesting(OWNER, 1, 400), Ok(600));
    // The second call fails; no second return transfer is reported.
    assert_eq!(ledger.revoke_vesting(OWNER, 1, 500), Err(ErrorCode::VestingScheduleAlreadyRevoked));
    assert_eq!(ledger.schedules[0].revoke_time, Some(400));
    assert_eq!(ledger.schedules[0].escrow_balance(), 400);
}

#[test]
fn revoke_rejects_non_revocable_schedules() {
    let mut ledger = populated();
    let id = ledger
        .initialize_vesting_schedule(OWNER, 1, WORKER, MINT, 1000, -1000, 0, 1000, false, 3)
        .unwrap();
    assert_eq!(ledger.revoke_vesting(OWNER, id, 400), Err(ErrorCode::VestingScheduleNotRevocable));
    assert!(!ledger.schedules[0].revoked);
}

#[test]
fn revoke_after_full_vesting_returns_nothing() {
    let mut ledger = with_schedule();
    assert_eq!(ledger.revoke_vesting(OWNER, 1, 2000), Ok(0));
    assert!(ledger.schedules[0].revoked);
}

#[test]
fn get_claimable_amount_reports_the_current_value() {
    let mut ledger = with_schedule();
    assert_eq!(ledger.get_claimable_amount(1, 250), Ok(250));
    assert_eq!(ledger.get_claimable_amount(9, 250), Err(ErrorCode::VestingScheduleNotFound));
    ledger.claim_tokens(WORKER, 1, 250).unwrap();
    assert_eq!(ledger.get_claimable_amount(1, 250), Ok(0));
}

#[test]
fn get_vesting_info_projects_without_names() {
    let ledger = with_schedule();
    let info = ledger.get_vesting_info(1, 400).unwrap();
    assert_eq!(info.employer, OWNER);
    assert_eq!(info.employee, WORKER);
    assert_eq!(info.total_amount, 1000);
    assert_eq!(info.vested_amount, 400);
    assert_eq!(info.claimable_amount, 400);
    assert_eq!(info.employee_name, "");
    assert_eq!(info.employee_position, "");
    assert_eq!(ledger.get_vesting_info(2, 400).unwrap_err(), ErrorCode::VestingScheduleNotFound);
}

#[test]
fn employer_dashboard_is_owner_only_and_joins_names() {
    let mut ledger = with_schedule();
    ledger.create_organization(STRANGER, "other".to_string(), 4).unwrap();
    assert_eq!(
        ledger.get_employer_dashboard(STRANGER, 1, 400).unwrap_err(),
        ErrorCode::UnauthorizedOrganizationOwner
    );
    assert_eq!(
        ledger.get_employer_dashboard(OWNER, 9, 400).unwrap_err(),
        ErrorCode::OrganizationNotFound
    );
    let rows = ledger.get_employer_dashboard(OWNER, 1, 400).unwrap();
    assert_eq!(rows.len(), 1);
    assert_eq!(rows[0].employee_name, "ann");
    assert_eq!(rows[0].employee_position, "dev");
    assert_eq!(rows[0].vested_amount, 400);
    assert_eq!(rows[0].claimable_amount, 400);
    // The second organization has no schedules.
    assert_eq!(ledger.get_employer_dashboard(STRANGER, 2, 400).unwrap().len(), 0);
}

#[test]
fn employee_dashboard_lists_only_the_callers_grants() {
    let mut ledger = with_schedule();
    ledger.join_organization(30, 1, "bob".to_string(), "ops".to_string(), 2).unwrap();
    ledger
        .initialize_vesting_schedule(OWNER, 1, 30, MINT, 500, -1000, 0, 1000, true, 3)
        .unwrap();
    let rows = ledger.get_employee_dashboard(WORKER, 400);
    assert_eq!(rows.len(), 1);
    assert_eq!(rows[0].total_amount, 1000);
    assert_eq!(rows[0].employee_name, "ann");
    assert_eq!(ledger.get_employee_dashboard(30, 400).len(), 1);
    assert_eq!(ledger.get_employee_dashboard(STRANGER, 400).len(), 0);
}

#[test]
fn dashboard_joins_degrade_to_unknown() {
    // A schedule whose employee record is missing still shows, with the
    // placeholder. Built directly: no operation creates such a state.
    let ledger = VestingLedger {
        state: ProgramState {
            initialized: true,
            total_organizations: 1,
            total_employees: 0,
            total_vesting_schedules: 1,
            admin: ADMIN,
        },
        organizations: vec![Organization {
            org_id: 1,
            name: "acme".to_string(),
            owner: OWNER,
            total_employees: 0,
            total_vesting_schedules: 1,
            created_at: 0,
            active: true,
        }],
        employees: vec![],
        schedules: vec![VestingSchedule {
            org_id: 1,
            employer: OWNER,
            employee: 99,
            token_mint: MINT,
            total_amount: 1000,
            start_time: -1000,
            cliff_time: 0,
            end_time: 1000,
            claimed_amount: 0,
            revoked: false,
            revocable: true,
            revoke_time: None,
            schedule_id: 1,
            created_at: 0,
        }],
    };
    let rows = ledger.get_employer_dashboard(OWNER, 1, 400).unwrap();
    assert_eq!(rows.len(), 1);
    assert_eq!(rows[0].employee_name, "Unknown");
    assert_eq!(rows[0].employee_position, "Unknown");
}

#[test]
fn organization_employee_listing_includes_inactive_records() {
    let mut ledger = populated();
    ledger.join_organization(30, 1, "bob".to_string(), "ops".to_string(), 2).unwrap();
    ledger.remove_employee_from_org(OWNER, 1, WORKER).unwrap();
    assert_eq!(
        ledger.get_organization_employees(STRANGER, 1).unwrap_err(),
        ErrorCode::UnauthorizedOrganizationOwner
    );
    let rows = ledger.get_organization_employees(OWNER, 1).unwrap();
    assert_eq!(rows.len(), 2);
    assert_eq!(rows[0].employee, WORKER);
    assert!(!rows[0].active);
    assert_eq!(rows[1].employee, 30);
    assert!(rows[1].active);
    assert_eq!(rows[1].name, "bob");
}

#[test]
fn employee_records_are_scoped_per_organization() {
    let mut ledger = populated();
    ledger.create_organization(STRANGER, "other".to_string(), 4).unwrap();
    // The same identity may join a different organization.
    assert_eq!(
        ledger.join_organization(WORKER, 2, "ann".to_string(), "dev".to_string(), 5),
        Ok(())
    );
    assert_eq!(ledger.get_employee_info(WORKER, 1).unwrap().org_id, 1);
    assert_eq!(ledger.get_employee_info(WORKER, 2).unwrap().org_id, 2);
    assert_eq!(ledger.get_employee_info(STRANGER, 1).unwrap_err(), ErrorCode::EmployeeNotFound);
}
