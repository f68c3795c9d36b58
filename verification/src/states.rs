//! The four record kinds and the linear vesting valuation.
//!
//! `VestingSchedule` owns the valuation curve: vesting is zero before the
//! cliff and grows linearly from the cliff to the end time; `start_time`
//! matters only for creation-time validation. Revocation freezes the curve at
//! the revoke time for every later query.

use vstd::arithmetic::div_mod::{
    lemma_div_is_ordered, lemma_div_pos_is_pos, lemma_multiply_divide_le,
};
use vstd::arithmetic::mul::lemma_mul_inequality;
use vstd::prelude::*;

use crate::constants::{
    MAX_EMPLOYEES_PER_ORG, MAX_EMPLOYEE_NAME_LENGTH, MAX_EMPLOYEE_POSITION_LENGTH,
    MAX_ORG_NAME_LENGTH, MIN_VESTING_DURATION,
};

verus! {

/// A caller or record identity; authentication of a request against an
/// identity is an external collaborator's duty, so identities are plain keys.
pub type Identity = u64;

/// The singleton record of global counters and the admin identity.
pub struct ProgramState {
    pub initialized: bool,
    pub total_organizations: u64,
    pub total_employees: u64,
    pub total_vesting_schedules: u64,
    pub admin: Identity,
}

/// An organization, keyed by its sequential `org_id` starting at 1.
pub struct Organization {
    pub org_id: u64,
    pub name: String,
    pub owner: Identity,
    pub total_employees: u64,
    pub total_vesting_schedules: u64,
    pub created_at: i64,
    pub active: bool,
}

/// An employee record, keyed by `(employee, org_id)`, unique per pair.
/// Removal is a soft delete: the record persists with `active == false`.
pub struct Employee {
    pub employee: Identity,
    pub name: String,
    pub position: String,
    pub org_id: u64,
    pub joined_at: i64,
    pub active: bool,
    pub total_vesting_schedules: u64,
}

/// A single grant of `total_amount` tokens to one employee, released
/// linearly between `cliff_time` and `end_time`.
pub struct VestingSchedule {
    pub org_id: u64,
    pub employer: Identity,
    pub employee: Identity,
    pub token_mint: u64,
    pub total_amount: u64,
    pub start_time: i64,
    pub cliff_time: i64,
    pub end_time: i64,
    pub claimed_amount: u64,
    pub revoked: bool,
    pub revocable: bool,
    pub revoke_time: Option<i64>,
    pub schedule_id: u64,
    pub created_at: i64,
}

impl Organization {
    /// Well-formedness established by `create_organization` and preserved by
    /// every later operation.
    pub open spec fn wf(self) -> bool {
        &&& self.name@.len() <= MAX_ORG_NAME_LENGTH
        &&& self.total_employees <= MAX_EMPLOYEES_PER_ORG
    }
}

impl Employee {
    /// Well-formedness established by `join_organization` and preserved by
    /// every later operation.
    pub open spec fn wf(self) -> bool {
        &&& self.name@.len() <= MAX_EMPLOYEE_NAME_LENGTH
        &&& self.position@.len() <= MAX_EMPLOYEE_POSITION_LENGTH
    }
}

impl VestingSchedule {
    /// Well-formedness established at creation and preserved by claim and
    /// revoke: positive grant, ordered times of sufficient span, claims
    /// within the grant, and the revoke flag tied to the revoke timestamp.
    pub open spec fn wf(self) -> bool {
        &&& self.total_amount > 0
        &&& self.start_time < self.cliff_time
        &&& self.cliff_time < self.end_time
        &&& self.end_time - self.start_time >= MIN_VESTING_DURATION
        &&& self.claimed_amount <= self.total_amount
        &&& (self.revoked <==> self.revoke_time is Some)
    }

    /// The recorded revoke time, or zero where none is present.
    pub open spec fn revoke_time_or_zero(self) -> int {
        match self.revoke_time {
            Some(t) => t as int,
            None => 0,
        }
    }

    /// The time the valuation curve is read at: a revoked schedule is frozen
    /// at its revoke time for every later query.
    pub open spec fn effective_time(self, t: int) -> int {
        if self.revoked && t > self.revoke_time_or_zero() {
            self.revoke_time_or_zero()
        } else {
            t
        }
    }

    /// The raw linear ramp, ignoring revocation: zero before the cliff, the
    /// whole grant from the end time on, and in between the floor of
    /// `total_amount * (t - cliff) / (end - cliff)`.
    pub open spec fn vested_at_time(self, t: int) -> int {
        if t < self.cliff_time {
            0
        } else if t >= self.end_time {
            self.total_amount as int
        } else {
            (self.total_amount * (t - self.cliff_time)) / (self.end_time - self.cliff_time)
        }
    }

    /// The vested amount at query time `t`, with revocation applied.
    pub open spec fn vested_at(self, t: int) -> int {
        self.vested_at_time(self.effective_time(t))
    }

    /// Vested but not yet claimed, floored at zero.
    pub open spec fn claimable_at(self, t: int) -> int {
        if self.vested_at(t) >= self.claimed_amount {
            self.vested_at(t) - self.claimed_amount
        } else {
            0
        }
    }

    /// Not yet vested, floored at zero.
    pub open spec fn unvested_at(self, t: int) -> int {
        if self.total_amount >= self.vested_at(t) {
            self.total_amount - self.vested_at(t)
        } else {
            0
        }
    }

    /// What revocation returned to the employer: the amount unvested at the
    /// revoke time, or zero while the schedule is live.
    pub open spec fn returned_amount(self) -> int {
        if self.revoked {
            self.unvested_at(self.revoke_time_or_zero())
        } else {
            0
        }
    }

    /// What the schedule's escrow holding still custodies: the grant minus
    /// every claim and minus the revocation return, floored at zero.
    pub open spec fn escrow_funds(self) -> int {
        let after_claims = if self.total_amount >= self.claimed_amount {
            self.total_amount - self.claimed_amount
        } else {
            0
        };
        if after_claims >= self.returned_amount() {
            after_claims - self.returned_amount()
        } else {
            0
        }
    }

    /// The raw ramp at `timestamp`, computed with a 128-bit intermediate so
    /// the product cannot overflow before the truncating division.
    fn calculate_vested_amount_at_time(&self, timestamp: i64) -> (r: u64)
        requires
            self.total_amount > 0,
            self.cliff_time < self.end_time,
        ensures
            r as int == self.vested_at_time(timestamp as int),
    {
        if timestamp < self.cliff_time {
            return 0;
        }
        if timestamp >= self.end_time {
            return self.total_amount;
        }
        let elapsed: i128 = timestamp as i128 - self.cliff_time as i128;
        let duration: i128 = self.end_time as i128 - self.cliff_time as i128;
        proof {
            assert(self.total_amount * elapsed < 0x100000000000000000000000000000000int)
                by (nonlinear_arith)
                requires
                    0 <= self.total_amount < 0x10000000000000000,
                    0 <= elapsed < 0x10000000000000000,
            ;
        }
        let vested: u128 = (self.total_amount as u128) * (elapsed as u128) / (duration as u128);
        proof {
            let total = self.total_amount as int;
            let e = elapsed as int;
            let d = duration as int;
            lemma_div_pos_is_pos(total * e, d);
            lemma_mul_inequality(e, d, total);
            lemma_multiply_divide_le(total * e, d, total);
            assert(vested as int == (total * e) / d);
            assert(0 <= vested as int <= total);
        }
        vested as u64
    }

    /// The vested amount at `current_time`; a revoked schedule is valued at
    /// its revoke time for every later query.
    pub fn calculate_vested_amount(&self, current_time: i64) -> (r: u64)
        requires
            self.total_amount > 0,
            self.cliff_time < self.end_time,
        ensures
            r as int == self.vested_at(current_time as int),
    {
        if self.revoked {
            let rt: i64 = match self.revoke_time {
                Some(t) => t,
                None => 0,
            };
            if current_time > rt {
                return self.calculate_vested_amount_at_time(rt);
            }
        }
        self.calculate_vested_amount_at_time(current_time)
    }

    /// Vested but not yet claimed, floored at zero.
    pub fn calculate_claimable_amount(&self, current_time: i64) -> (r: u64)
        requires
            self.total_amount > 0,
            self.cliff_time < self.end_time,
        ensures
            r as int == self.claimable_at(current_time as int),
    {
        let vested_amount = self.calculate_vested_amount(current_time);
        vested_amount.saturating_sub(self.claimed_amount)
    }

    /// Not yet vested at `current_time`, floored at zero.
    pub fn calculate_unvested_amount(&self, current_time: i64) -> (r: u64)
        requires
            self.total_amount > 0,
            self.cliff_time < self.end_time,
        ensures
            r as int == self.unvested_at(current_time as int),
    {
        self.total_amount.saturating_sub(self.calculate_vested_amount(current_time))
    }

    /// What the schedule's escrow holding still custodies.
    pub fn escrow_balance(&self) -> (r: u64)
        requires
            self.total_amount > 0,
            self.cliff_time < self.end_time,
        ensures
            r as int == self.escrow_funds(),
    {
        let returned: u64 = if self.revoked {
            let rt: i64 = match self.revoke_time {
                Some(t) => t,
                None => 0,
            };
            self.calculate_unvested_amount(rt)
        } else {
            0
        };
        proof {
            if self.revoked {
                assert(self.effective_time(self.revoke_time_or_zero())
                    == self.revoke_time_or_zero());
            }
        }
        self.total_amount.saturating_sub(self.claimed_amount).saturating_sub(returned)
    }
}

/// The raw ramp stays within the grant: `0 <= vested_at_time(t) <= total_amount`.
pub proof fn lemma_ramp_bounds(s: VestingSchedule, t: int)
    requires
        s.total_amount > 0,
        s.cliff_time < s.end_time,
    ensures
        0 <= s.vested_at_time(t) <= s.total_amount,
{
    if s.cliff_time <= t < s.end_time {
        let total = s.total_amount as int;
        let e = t - s.cliff_time;
        let d = s.end_time - s.cliff_time;
        lemma_div_pos_is_pos(total * e, d);
        lemma_mul_inequality(e, d, total);
        lemma_multiply_divide_le(total * e, d, total);
    }
}

/// The raw ramp never decreases as time advances.
pub proof fn lemma_ramp_monotonic(s: VestingSchedule, t1: int, t2: int)
    requires
        s.total_amount > 0,
        s.cliff_time < s.end_time,
        t1 <= t2,
    ensures
        s.vested_at_time(t1) <= s.vested_at_time(t2),
{
    lemma_ramp_bounds(s, t1);
    lemma_ramp_bounds(s, t2);
    if s.cliff_time <= t1 < s.end_time && s.cliff_time <= t2 < s.end_time {
        let total = s.total_amount as int;
        let d = s.end_time - s.cliff_time;
        lemma_mul_inequality(t1 - s.cliff_time, t2 - s.cliff_time, total);
        lemma_div_is_ordered(total * (t1 - s.cliff_time), total * (t2 - s.cliff_time), d);
    }
}

/// The vested amount, revocation included, stays within the grant
/// (the numeric half of the claim-accounting invariant).
pub proof fn lemma_vested_bounds(s: VestingSchedule, t: int)
    requires
        s.total_amount > 0,
        s.cliff_time < s.end_time,
    ensures
        0 <= s.vested_at(t) <= s.total_amount,
{
    lemma_ramp_bounds(s, s.effective_time(t));
}

/// The vested amount, revocation included, never decreases as time advances:
/// `claimed_amount`, which each claim raises to the then-vested amount, can
/// never overtake a later valuation.
pub proof fn lemma_vested_monotonic(s: VestingSchedule, t1: int, t2: int)
    requires
        s.total_amount > 0,
        s.cliff_time < s.end_time,
        t1 <= t2,
    ensures
        s.vested_at(t1) <= s.vested_at(t2),
{
    assert(s.effective_time(t1) <= s.effective_time(t2));
    lemma_ramp_monotonic(s, s.effective_time(t1), s.effective_time(t2));
}

/// Claim monotonicity: a claim raises `claimed_amount` to the vested amount,
/// and an immediate second claim at the same time finds nothing claimable.
pub proof fn lemma_claim_exhausts_claimable(s: VestingSchedule, t: int)
    requires
        s.wf(),
        !s.revoked,
        s.claimable_at(t) > 0,
    ensures
        ({
            let after = VestingSchedule {
                claimed_amount: s.vested_at(t) as u64,
                ..s
            };
            after.wf() && after.claimable_at(t) == 0
        }),
{
    lemma_vested_bounds(s, t);
}

} // verus!
