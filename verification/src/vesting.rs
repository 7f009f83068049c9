//! Decision logic of a linear vesting contract with an optional cliff and an
//! admin who may revoke the unvested part.
//!
//! Each operation of the contract is a function from the stored schedule and
//! the ledger time to the new schedule and the token transfers to make; the
//! host environment (storage, authorization, token transfers) stays outside.
use vstd::prelude::*;
use vstd::arithmetic::div_mod::{
    lemma_div_is_ordered, lemma_div_multiples_vanish, lemma_fundamental_div_mod, lemma_mod_pos_bound,
};
use vstd::arithmetic::mul::{lemma_mul_inequality, lemma_mul_is_commutative};

verus! {

/// Storage keys of the contract.
#[derive(Debug, Clone, Copy, PartialEq, Eq, Structural)]
pub enum DataKey {
    Admin,
    Schedule,
}

/// A linear vesting schedule with an optional cliff and admin-revocable
/// unvested tokens. `A` is the host's address type.
#[derive(Clone, Debug)]
pub struct VestingSchedule<A> {
    /// Address that will receive the vested tokens.
    pub beneficiary: A,
    /// Token contract address.
    pub token: A,
    /// Total tokens locked into this schedule.
    pub total_amount: i128,
    /// Tokens already claimed by (or paid to) the beneficiary.
    pub claimed_amount: i128,
    /// Unix timestamp (seconds) at which vesting begins.
    pub start_time: u64,
    /// Seconds after `start_time` before any tokens vest.
    pub cliff_duration: u64,
    /// Total seconds over which all tokens become vested.
    pub vesting_duration: u64,
    /// True once the admin has revoked the schedule.
    pub revoked: bool,
}

/// Why an operation of the vesting contract was refused.
#[derive(Debug, Clone, Copy, PartialEq, Eq, Structural)]
pub enum VestingError {
    /// `initialize` was called on a contract that already holds a schedule.
    AlreadyInitialized,
    /// `total_amount` was not positive.
    NonPositiveTotal,
    /// `vesting_duration` was not positive.
    NonPositiveDuration,
    /// `cliff_duration` exceeded `vesting_duration`.
    CliffExceedsDuration,
    /// `claim` on a revoked schedule.
    Revoked,
    /// `claim` with nothing vested beyond what was already claimed.
    NothingToClaim,
    /// `revoke` on a schedule that is already revoked.
    AlreadyRevoked,
    /// The vesting arithmetic overflows its integer type.
    Overflow,
}

/// The transfers that a revocation makes out of the contract's balance;
/// `None` where the amount due is not positive and no transfer happens.
#[derive(Debug, Clone, Copy, PartialEq, Eq, Structural)]
pub struct RevokePayouts {
    /// Vested but unclaimed tokens, paid to the beneficiary.
    pub to_beneficiary: Option<i128>,
    /// Unvested tokens, returned to the admin.
    pub to_admin: Option<i128>,
}

/// The vesting contract's operations.
pub struct VestingContract;

impl<A> VestingSchedule<A> {
    /// What every stored schedule satisfies.
    pub open spec fn wf(&self) -> bool {
        &&& self.total_amount > 0
        &&& self.vesting_duration > 0
        &&& self.cliff_duration <= self.vesting_duration
        &&& 0 <= self.claimed_amount <= self.total_amount
    }
}

/// The time at which the cliff ends.
pub open spec fn cliff_end<A>(s: VestingSchedule<A>) -> int {
    s.start_time + s.cliff_duration
}

/// Seconds since vesting began, zero before it began.
pub open spec fn elapsed<A>(s: VestingSchedule<A>, now: u64) -> int {
    if now >= s.start_time {
        now - s.start_time
    } else {
        0
    }
}

/// Whether computing the vested amount at `now` overflows: the cliff's end
/// does not fit in a `u64`, or the product of the total and the elapsed time
/// does not fit in an `i128` where it is needed.
pub open spec fn vesting_overflows<A>(s: VestingSchedule<A>, now: u64) -> bool {
    ||| cliff_end(s) > u64::MAX
    ||| (now >= cliff_end(s) && elapsed(s, now) < s.vesting_duration && s.total_amount * elapsed(
        s,
        now,
    ) > i128::MAX)
}

/// Tokens vested at `now`: none before the cliff's end, all from the end of
/// the vesting window on, and in between the total scaled linearly by the
/// elapsed time (rounded down).
pub open spec fn vested<A>(s: VestingSchedule<A>, now: u64) -> int {
    if now < cliff_end(s) {
        0
    } else if elapsed(s, now) >= s.vesting_duration {
        s.total_amount as int
    } else {
        s.total_amount * elapsed(s, now) / (s.vesting_duration as int)
    }
}

/// Tokens the contract holds for the schedule: the unclaimed part, or
/// nothing once revoked.
pub open spec fn held<A>(s: VestingSchedule<A>) -> int {
    if s.revoked {
        0
    } else {
        s.total_amount - s.claimed_amount
    }
}

/// An amount that a transfer may or may not move, as an integer.
pub open spec fn paid(p: Option<i128>) -> int {
    match p {
        Some(a) => a as int,
        None => 0,
    }
}

/// `Some(amount)` exactly where the amount is positive.
pub open spec fn if_positive(amount: int) -> Option<i128> {
    if amount > 0 {
        Some(amount as i128)
    } else {
        None
    }
}

/// What `initialize` decides.
pub open spec fn initialize_outcome<A>(
    initialized: bool,
    token: A,
    beneficiary: A,
    total_amount: i128,
    start_time: u64,
    cliff_duration: u64,
    vesting_duration: u64,
) -> Result<VestingSchedule<A>, VestingError> {
    if initialized {
        Err(VestingError::AlreadyInitialized)
    } else if total_amount <= 0 {
        Err(VestingError::NonPositiveTotal)
    } else if vesting_duration == 0 {
        Err(VestingError::NonPositiveDuration)
    } else if cliff_duration > vesting_duration {
        Err(VestingError::CliffExceedsDuration)
    } else {
        Ok(
            VestingSchedule {
                beneficiary,
                token,
                total_amount,
                claimed_amount: 0,
                start_time,
                cliff_duration,
                vesting_duration,
                revoked: false,
            },
        )
    }
}

/// What `vested_amount` decides.
pub open spec fn vested_outcome<A>(s: VestingSchedule<A>, now: u64) -> Result<i128, VestingError> {
    if vesting_overflows(s, now) {
        Err(VestingError::Overflow)
    } else {
        Ok(vested(s, now) as i128)
    }
}

/// What `claimable` decides: nothing once revoked, else the vested amount
/// less what was claimed.
pub open spec fn claimable_outcome<A>(s: VestingSchedule<A>, now: u64) -> Result<
    i128,
    VestingError,
> {
    if s.revoked {
        Ok(0)
    } else if vesting_overflows(s, now) {
        Err(VestingError::Overflow)
    } else {
        Ok((vested(s, now) - s.claimed_amount) as i128)
    }
}

/// What `claim` decides: the new schedule and the amount paid to the beneficiary.
pub open spec fn claim_outcome<A>(s: VestingSchedule<A>, now: u64) -> Result<
    (VestingSchedule<A>, i128),
    VestingError,
> {
    if s.revoked {
        Err(VestingError::Revoked)
    } else if vesting_overflows(s, now) {
        Err(VestingError::Overflow)
    } else if vested(s, now) - s.claimed_amount <= 0 {
        Err(VestingError::NothingToClaim)
    } else {
        Ok(
            (
                VestingSchedule { claimed_amount: vested(s, now) as i128, ..s },
                (vested(s, now) - s.claimed_amount) as i128,
            ),
        )
    }
}

/// What `revoke` decides: the new schedule and the transfers it makes.
pub open spec fn revoke_outcome<A>(s: VestingSchedule<A>, now: u64) -> Result<
    (VestingSchedule<A>, RevokePayouts),
    VestingError,
> {
    if s.revoked {
        Err(VestingError::AlreadyRevoked)
    } else if vesting_overflows(s, now) {
        Err(VestingError::Overflow)
    } else {
        Ok(
            (
                VestingSchedule { revoked: true, claimed_amount: vested(s, now) as i128, ..s },
                RevokePayouts {
                    to_beneficiary: if_positive(vested(s, now) - s.claimed_amount),
                    to_admin: if_positive(s.total_amount - vested(s, now)),
                },
            ),
        )
    }
}

/// On a well-formed schedule the vested amount lies between zero and the total.
pub proof fn law_vested_bounded<A>(s: VestingSchedule<A>, now: u64)
    requires
        s.wf(),
    ensures
        0 <= vested(s, now) <= s.total_amount,
{
    let e = elapsed(s, now);
    let d = s.vesting_duration as int;
    let t = s.total_amount as int;
    if now >= cliff_end(s) && e < d {
        lemma_mul_inequality(0, e, t);
        lemma_mul_inequality(e, d, t);
        lemma_mul_is_commutative(e, t);
        lemma_mul_is_commutative(d, t);
        lemma_div_is_ordered(0, t * e, d);
        lemma_div_is_ordered(t * e, t * d, d);
        lemma_div_multiples_vanish(t, d);
        lemma_mul_is_commutative(d, t);
    }
}

/// Vesting never goes backwards: on a well-formed schedule a later ledger
/// time has at least as much vested.
pub proof fn law_vested_monotonic<A>(s: VestingSchedule<A>, t1: u64, t2: u64)
    requires
        s.wf(),
        t1 <= t2,
    ensures
        vested(s, t1) <= vested(s, t2),
{
    law_vested_bounded(s, t1);
    law_vested_bounded(s, t2);
    let d = s.vesting_duration as int;
    let t = s.total_amount as int;
    let e1 = elapsed(s, t1);
    let e2 = elapsed(s, t2);
    if t1 >= cliff_end(s) && e2 < d {
        lemma_mul_inequality(e1, e2, t);
        lemma_mul_is_commutative(e1, t);
        lemma_mul_is_commutative(e2, t);
        lemma_div_is_ordered(t * e1, t * e2, d);
    }
}

/// Nothing vests before the cliff ends, and everything has vested once the
/// vesting window is over.
pub proof fn law_vesting_endpoints<A>(s: VestingSchedule<A>, now: u64)
    requires
        s.wf(),
    ensures
        now < cliff_end(s) ==> vested(s, now) == 0,
        now >= s.start_time + s.vesting_duration ==> vested(s, now) == s.total_amount,
{
}

/// A new schedule is well formed, and the deposit the admin makes for it is
/// exactly what the contract then holds for it.
pub proof fn law_initialize_funds_schedule<A>(
    initialized: bool,
    token: A,
    beneficiary: A,
    total_amount: i128,
    start_time: u64,
    cliff_duration: u64,
    vesting_duration: u64,
)
    requires
        initialize_outcome(
            initialized,
            token,
            beneficiary,
            total_amount,
            start_time,
            cliff_duration,
            vesting_duration,
        ) is Ok,
    ensures
        ({
            let s = initialize_outcome(
                initialized,
                token,
                beneficiary,
                total_amount,
                start_time,
                cliff_duration,
                vesting_duration,
            )->Ok_0;
            s.wf() && held(s) == total_amount && !s.revoked && s.claimed_amount == 0
        }),
{
}

/// A claim pays a positive amount out of what the contract holds, keeps the
/// schedule well formed, and leaves nothing more to claim at the same time.
pub proof fn law_claim_conserves<A>(s: VestingSchedule<A>, now: u64)
    requires
        s.wf(),
        claim_outcome(s, now) is Ok,
    ensures
        ({
            let (s2, amount) = claim_outcome(s, now)->Ok_0;
            &&& 0 < amount <= held(s)
            &&& held(s2) == held(s) - amount
            &&& s2.wf()
            &&& claimable_outcome(s2, now) == Ok::<i128, VestingError>(0)
            &&& claim_outcome(s2, now) == Err::<(VestingSchedule<A>, i128), VestingError>(
                VestingError::NothingToClaim,
            )
        }),
{
    law_vested_bounded(s, now);
}

/// A revocation pays out exactly what the contract holds for the schedule
/// (the vested part to the beneficiary, the rest to the admin), provided
/// no more was claimed than has vested at that time, and afterwards the
/// contract holds nothing for it.
pub proof fn law_revoke_conserves<A>(s: VestingSchedule<A>, now: u64)
    requires
        s.wf(),
        revoke_outcome(s, now) is Ok,
        s.claimed_amount <= vested(s, now),
    ensures
        ({
            let (s2, pay) = revoke_outcome(s, now)->Ok_0;
            &&& paid(pay.to_beneficiary) + paid(pay.to_admin) == held(s)
            &&& held(s2) == 0
            &&& s2.wf()
        }),
{
    law_vested_bounded(s, now);
}

/// A revoked schedule is final: nothing is claimable, and neither a claim
/// nor another revocation goes through.
pub proof fn law_revoked_is_final<A>(s: VestingSchedule<A>, now: u64)
    requires
        s.wf(),
        s.revoked,
    ensures
        claimable_outcome(s, now) == Ok::<i128, VestingError>(0),
        claim_outcome(s, now) == Err::<(VestingSchedule<A>, i128), VestingError>(
            VestingError::Revoked,
        ),
        revoke_outcome(s, now) == Err::<(VestingSchedule<A>, RevokePayouts), VestingError>(
            VestingError::AlreadyRevoked,
        ),
{
}

/// What `vested_amount` returns, in terms of the schedule's fields alone:
/// an overflow error exactly where the cliff's end does not fit in a `u64`
/// or where, inside the linear window, `total * (now - start)` does not fit
/// in an `i128`; otherwise nothing before `start + cliff`, everything once
/// `now - start` reaches the duration, and in between the largest `v` with
/// `v * duration <= total * (now - start)`.
pub proof fn law_vested_amount_from_fields<A>(s: VestingSchedule<A>, now: u64)
    requires
        s.wf(),
    ensures
        s.start_time + s.cliff_duration > u64::MAX ==> vested_outcome(s, now) == Err::<
            i128,
            VestingError,
        >(VestingError::Overflow),
        s.start_time + s.cliff_duration <= u64::MAX && now < s.start_time + s.cliff_duration
            ==> vested_outcome(s, now) == Ok::<i128, VestingError>(0),
        s.start_time + s.cliff_duration <= u64::MAX && now >= s.start_time + s.cliff_duration
            && now - s.start_time >= s.vesting_duration ==> vested_outcome(s, now) == Ok::<
            i128,
            VestingError,
        >(s.total_amount),
        s.start_time + s.cliff_duration <= u64::MAX && now >= s.start_time + s.cliff_duration
            && now - s.start_time < s.vesting_duration && s.total_amount * (now - s.start_time)
            > i128::MAX ==> vested_outcome(s, now) == Err::<i128, VestingError>(
            VestingError::Overflow,
        ),
        s.start_time + s.cliff_duration <= u64::MAX && now >= s.start_time + s.cliff_duration
            && now - s.start_time < s.vesting_duration && s.total_amount * (now - s.start_time)
            <= i128::MAX ==> ({
            &&& vested_outcome(s, now) is Ok
            &&& 0 <= vested_outcome(s, now)->Ok_0
            &&& vested_outcome(s, now)->Ok_0 * s.vesting_duration <= s.total_amount * (now
                - s.start_time)
            &&& s.total_amount * (now - s.start_time) < (vested_outcome(s, now)->Ok_0 + 1)
                * s.vesting_duration
        }),
{
    law_vested_bounded(s, now);
    let d = s.vesting_duration as int;
    let x = s.total_amount * elapsed(s, now);
    if now >= cliff_end(s) && elapsed(s, now) < d {
        lemma_mul_inequality(0, elapsed(s, now), s.total_amount as int);
        lemma_mul_is_commutative(elapsed(s, now), s.total_amount as int);
        lemma_fundamental_div_mod(x, d);
        lemma_mod_pos_bound(x, d);
        lemma_mul_is_commutative(d, x / d);
        assert((x / d + 1) * d == (x / d) * d + d) by (nonlinear_arith);
    }
}

/// Vesting depends on time only through `now - start_time`: moving the start
/// and the ledger time by the same offset leaves the vested amount unchanged.
pub proof fn law_vested_amount_shift<A>(s: VestingSchedule<A>, now: u64, k: u64)
    requires
        s.wf(),
        s.start_time + k + s.cliff_duration <= u64::MAX,
        now + k <= u64::MAX,
    ensures
        vested_outcome(VestingSchedule { start_time: (s.start_time + k) as u64, ..s }, (now + k) as u64)
            == vested_outcome(s, now),
{
}

/// `claimable` is what has vested less what was claimed, or nothing once the
/// schedule is revoked; it fails only where computing the vested amount does.
pub proof fn law_claimable_is_vested_less_claimed<A>(s: VestingSchedule<A>, now: u64)
    requires
        s.wf(),
    ensures
        s.revoked ==> claimable_outcome(s, now) == Ok::<i128, VestingError>(0),
        !s.revoked ==> match vested_outcome(s, now) {
            Ok(v) => claimable_outcome(s, now) == Ok::<i128, VestingError>(
                (v - s.claimed_amount) as i128,
            ),
            Err(e) => claimable_outcome(s, now) == Err::<i128, VestingError>(e),
        },
        !s.revoked && vested_outcome(s, now) is Ok ==> claimable_outcome(s, now)->Ok_0
            == vested_outcome(s, now)->Ok_0 - s.claimed_amount,
{
    law_vested_bounded(s, now);
}

/// A claim pays exactly what `vested_amount` reports less what was already
/// claimed, records that vested amount as claimed and changes nothing else;
/// it is refused on a revoked schedule, where the vested amount cannot be
/// computed, and where nothing is due.
pub proof fn law_claim_pays_vested_less_claimed<A>(s: VestingSchedule<A>, now: u64)
    requires
        s.wf(),
    ensures
        s.revoked ==> claim_outcome(s, now) == Err::<(VestingSchedule<A>, i128), VestingError>(
            VestingError::Revoked,
        ),
        !s.revoked && vested_outcome(s, now) is Err ==> claim_outcome(s, now) == Err::<
            (VestingSchedule<A>, i128),
            VestingError,
        >(vested_outcome(s, now)->Err_0),
        !s.revoked && vested_outcome(s, now) is Ok && vested_outcome(s, now)->Ok_0
            <= s.claimed_amount ==> claim_outcome(s, now) == Err::<
            (VestingSchedule<A>, i128),
            VestingError,
        >(VestingError::NothingToClaim),
        !s.revoked && vested_outcome(s, now) is Ok && vested_outcome(s, now)->Ok_0
            > s.claimed_amount ==> ({
            let v = vested_outcome(s, now)->Ok_0;
            let (s2, amount) = claim_outcome(s, now)->Ok_0;
            &&& claim_outcome(s, now) is Ok
            &&& amount == v - s.claimed_amount
            &&& s2.claimed_amount == v
            &&& s2.beneficiary == s.beneficiary
            &&& s2.token == s.token
            &&& s2.total_amount == s.total_amount
            &&& s2.start_time == s.start_time
            &&& s2.cliff_duration == s.cliff_duration
            &&& s2.vesting_duration == s.vesting_duration
            &&& s2.revoked == s.revoked
        }),
{
    law_vested_bounded(s, now);
}

/// A revocation pays the beneficiary what `vested_amount` reports less what
/// was claimed (when positive), returns the total less that vested amount to
/// the admin (when positive), marks the schedule revoked with the vested
/// amount as claimed and changes nothing else; it is refused on a revoked
/// schedule and where the vested amount cannot be computed.
pub proof fn law_revoke_splits_at_vested<A>(s: VestingSchedule<A>, now: u64)
    requires
        s.wf(),
    ensures
        s.revoked ==> revoke_outcome(s, now) == Err::<
            (VestingSchedule<A>, RevokePayouts),
            VestingError,
        >(VestingError::AlreadyRevoked),
        !s.revoked && vested_outcome(s, now) is Err ==> revoke_outcome(s, now) == Err::<
            (VestingSchedule<A>, RevokePayouts),
            VestingError,
        >(vested_outcome(s, now)->Err_0),
        !s.revoked && vested_outcome(s, now) is Ok ==> ({
            let v = vested_outcome(s, now)->Ok_0;
            let (s2, pay) = revoke_outcome(s, now)->Ok_0;
            &&& revoke_outcome(s, now) is Ok
            &&& pay.to_beneficiary == (if v - s.claimed_amount > 0 {
                Some((v - s.claimed_amount) as i128)
            } else {
                None::<i128>
            })
            &&& pay.to_admin == (if s.total_amount - v > 0 {
                Some((s.total_amount - v) as i128)
            } else {
                None::<i128>
            })
            &&& s2.revoked
            &&& s2.claimed_amount == v
            &&& s2.beneficiary == s.beneficiary
            &&& s2.token == s.token
            &&& s2.total_amount == s.total_amount
            &&& s2.start_time == s.start_time
            &&& s2.cliff_duration == s.cliff_duration
            &&& s2.vesting_duration == s.vesting_duration
        }),
{
    law_vested_bounded(s, now);
}

impl<A> VestingSchedule<A> {
    /// Whether the schedule satisfies [`VestingSchedule::wf`], which every
    /// schedule that [`VestingContract::initialize`] builds does.
    pub fn is_well_formed(&self) -> (r: bool)
        ensures
            r == self.wf(),
    {
        self.total_amount > 0 && self.vesting_duration > 0 && self.cliff_duration
            <= self.vesting_duration && 0 <= self.claimed_amount && self.claimed_amount
            <= self.total_amount
    }
}

impl VestingContract {
    /// Tokens vested at ledger time `now`.
    pub fn vested_amount<A>(s: &VestingSchedule<A>, now: u64) -> (r: Result<i128, VestingError>)
        requires
            s.wf(),
        ensures
            r == vested_outcome(*s, now),
    {
        let cliff_end = match s.start_time.checked_add(s.cliff_duration) {
            Some(c) => c,
            None => return Err(VestingError::Overflow),
        };
        if now < cliff_end {
            return Ok(0);
        }
        let elapsed = now.saturating_sub(s.start_time);
        if elapsed >= s.vesting_duration {
            Ok(s.total_amount)
        } else {
            let product = match s.total_amount.checked_mul(elapsed as i128) {
                Some(p) => p,
                None => return Err(VestingError::Overflow),
            };
            proof {
                law_vested_bounded(*s, now);
            }
            Ok(product / (s.vesting_duration as i128))
        }
    }

    /// Checks the arguments of a new schedule and builds it. The caller
    /// (admin) then funds the contract with `total_amount` tokens.
    /// `initialized` says whether the contract already holds a schedule.
    pub fn initialize<A>(
        initialized: bool,
        token: A,
        beneficiary: A,
        total_amount: i128,
        start_time: u64,
        cliff_duration: u64,
        vesting_duration: u64,
    ) -> (r: Result<VestingSchedule<A>, VestingError>)
        ensures
            r == initialize_outcome(
                initialized,
                token,
                beneficiary,
                total_amount,
                start_time,
                cliff_duration,
                vesting_duration,
            ),
            r matches Ok(s) ==> s.wf(),
    {
        if initialized {
            return Err(VestingError::AlreadyInitialized);
        }
        if total_amount <= 0 {
            return Err(VestingError::NonPositiveTotal);
        }
        if vesting_duration == 0 {
            return Err(VestingError::NonPositiveDuration);
        }
        if cliff_duration > vesting_duration {
            return Err(VestingError::CliffExceedsDuration);
        }
        Ok(
            VestingSchedule {
                beneficiary,
                token,
                total_amount,
                claimed_amount: 0,
                start_time,
                cliff_duration,
                vesting_duration,
                revoked: false,
            },
        )
    }

    /// Tokens the beneficiary can claim at ledger time `now`.
    pub fn claimable<A>(s: &VestingSchedule<A>, now: u64) -> (r: Result<i128, VestingError>)
        requires
            s.wf(),
        ensures
            r == claimable_outcome(*s, now),
    {
        if s.revoked {
            return Ok(0);
        }
        let vested = Self::vested_amount(s, now)?;
        proof {
            law_vested_bounded(*s, now);
        }
        Ok(vested - s.claimed_amount)
    }

    /// Records the claim of every vested and unclaimed token at ledger time
    /// `now` and returns the amount to pay to the beneficiary. On an error the
    /// schedule is left as it was.
    pub fn claim<A>(schedule: &mut VestingSchedule<A>, now: u64) -> (r: Result<i128, VestingError>)
        requires
            old(schedule).wf(),
        ensures
            final(schedule).wf(),
            match r {
                Ok(amount) => claim_outcome(*old(schedule), now) == Ok::<
                    (VestingSchedule<A>, i128),
                    VestingError,
                >((*final(schedule), amount)),
                Err(e) => claim_outcome(*old(schedule), now) == Err::<
                    (VestingSchedule<A>, i128),
                    VestingError,
                >(e) && *final(schedule) == *old(schedule),
            },
    {
        if schedule.revoked {
            return Err(VestingError::Revoked);
        }
        let vested = match Self::vested_amount(schedule, now) {
            Ok(v) => v,
            Err(e) => return Err(e),
        };
        proof {
            law_vested_bounded(*schedule, now);
        }
        let claimable = vested - schedule.claimed_amount;
        if claimable <= 0 {
            return Err(VestingError::NothingToClaim);
        }
        schedule.claimed_amount = vested;
        Ok(claimable)
    }

    /// Revokes the schedule at ledger time `now`: the vested and unclaimed
    /// tokens go to the beneficiary, the unvested ones back to the admin. On
    /// an error the schedule is left as it was.
    pub fn revoke<A>(schedule: &mut VestingSchedule<A>, now: u64) -> (r: Result<
        RevokePayouts,
        VestingError,
    >)
        requires
            old(schedule).wf(),
        ensures
            final(schedule).wf(),
            match r {
                Ok(p) => revoke_outcome(*old(schedule), now) == Ok::<
                    (VestingSchedule<A>, RevokePayouts),
                    VestingError,
                >((*final(schedule), p)),
                Err(e) => revoke_outcome(*old(schedule), now) == Err::<
                    (VestingSchedule<A>, RevokePayouts),
                    VestingError,
                >(e) && *final(schedule) == *old(schedule),
            },
    {
        if schedule.revoked {
            return Err(VestingError::AlreadyRevoked);
        }
        let vested = match Self::vested_amount(schedule, now) {
            Ok(v) => v,
            Err(e) => return Err(e),
        };
        proof {
            law_vested_bounded(*schedule, now);
        }
        let beneficiary_due = vested - schedule.claimed_amount;
        let to_beneficiary = if beneficiary_due > 0 {
            Some(beneficiary_due)
        } else {
            None
        };
        let unvested = schedule.total_amount - vested;
        let to_admin = if unvested > 0 {
            Some(unvested)
        } else {
            None
        };
        schedule.revoked = true;
        schedule.claimed_amount = vested;
        Ok(RevokePayouts { to_beneficiary, to_admin })
    }
}

} // verus!
