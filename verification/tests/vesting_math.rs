use token_vesting::states::VestingSchedule;

fn schedule(total: u64, start: i64, cliff: i64, end: i64) -> VestingSchedule {
    VestingSchedule {
        org_id: 1,
        employer: 10,
        employee: 20,
        token_mint: 5,
        total_amount: total,
        start_time: start,
        cliff_time: cliff,
        end_time: end,
        claimed_amount: 0,
        revoked: false,
        revocable: true,
        revoke_time: None,
        schedule_id: 1,
        created_at: 0,
    }
}

#[test]
fn linear_ramp_exact_values() {
    let s = schedule(1000, 50, 100, 200);
    assert_eq!(s.calculate_vested_amount(100), 0);
    assert_eq!(s.calculate_vested_amount(150), 500);
    assert_eq!(s.calculate_vested_amount(199), 990);
    assert_eq!(s.calculate_vested_amount(200), 1000);
    assert_eq!(s.calculate_vested_amount(300), 1000);
}

#[test]
fn nothing_vests_before_the_cliff() {
    let s = schedule(1000, 50, 100, 200);
    assert_eq!(s.calculate_vested_amount(99), 0);
    assert_eq!(s.calculate_vested_amount(i64::MIN), 0);
    assert_eq!(s.calculate_claimable_amount(99), 0);
    assert_eq!(s.calculate_unvested_amount(99), 1000);
}

#[test]
fn division_truncates_toward_zero() {
    let s = schedule(10, -1, 0, 3);
    assert_eq!(s.calculate_vested_amount(1), 3);
    assert_eq!(s.calculate_vested_amount(2), 6);
    let t = schedule(7, -1, 0, 9);
    assert_eq!(t.calculate_vested_amount(4), 3);
}

#[test]
fn wide_intermediate_handles_largest_grant() {
    let s = schedule(u64::MAX, -10, 0, 2);
    assert_eq!(s.calculate_vested_amount(1), u64::MAX / 2);
    assert_eq!(s.calculate_vested_amount(2), u64::MAX);
}

#[test]
fn start_time_has_no_effect_on_the_curve() {
    let a = schedule(1000, 0, 100, 200);
    let b = schedule(1000, 99, 100, 200);
    for t in [100, 137, 199, 200] {
        assert_eq!(a.calculate_vested_amount(t), b.calculate_vested_amount(t));
    }
}

#[test]
fn revoke_freezes_the_valuation() {
    let mut s = schedule(1000, -1000, 0, 1000);
    s.revoked = true;
    s.revoke_time = Some(400);
    assert_eq!(s.calculate_vested_amount(400), 400);
    assert_eq!(s.calculate_vested_amount(900), 400);
    assert_eq!(s.calculate_vested_amount(5000), 400);
    // Queries before the revoke time still read the live curve.
    assert_eq!(s.calculate_vested_amount(200), 200);
}

#[test]
fn claimable_is_vested_minus_claimed() {
    let mut s = schedule(1000, 50, 100, 200);
    s.claimed_amount = 300;
    assert_eq!(s.calculate_claimable_amount(150), 200);
    assert_eq!(s.calculate_claimable_amount(200), 700);
    // Floored at zero where a frozen valuation sits below the claims.
    s.revoked = true;
    s.revoke_time = Some(120);
    assert_eq!(s.calculate_vested_amount(150), 200);
    assert_eq!(s.calculate_claimable_amount(150), 0);
}

#[test]
fn unvested_complements_vested() {
    let s = schedule(1000, 50, 100, 200);
    assert_eq!(s.calculate_unvested_amount(150), 500);
    assert_eq!(s.calculate_unvested_amount(200), 0);
    assert_eq!(s.calculate_unvested_amount(0), 1000);
}

#[test]
fn escrow_holds_grant_minus_claims_and_return() {
    let mut s = schedule(1000, -1000, 0, 1000);
    assert_eq!(s.escrow_balance(), 1000);
    s.claimed_amount = 250;
    assert_eq!(s.escrow_balance(), 750);
    // Revoking at 400 returns the 600 unvested; the 150 vested but
    // unclaimed stay in escrow.
    s.revoked = true;
    s.revoke_time = Some(400);
    assert_eq!(s.escrow_balance(), 150);
}
