use vstd::prelude::*;
use vstd::arithmetic::div_mod::lemma_div_nonincreasing;
use vstd::arithmetic::div_mod::lemma_div_pos_is_pos;
use crate::error::ErrorCode;
use crate::pubkey::Pubkey;

verus! {

/// Seconds from `from` to `to`, or zero when `to` is not later than `from`.
pub open spec fn seconds_between(from: int, to: int) -> int {
    if to > from {
        to - from
    } else {
        0
    }
}

/// `n` divided by a positive `d`, rounded toward zero.
pub open spec fn quotient_toward_zero(n: int, d: int) -> int
    recommends
        d > 0,
{
    if n >= 0 {
        n / d
    } else {
        -((-n) / d)
    }
}

/// Whether `value` can be held in 64 signed bits.
pub open spec fn fits_i64(value: int) -> bool {
    i64::MIN <= value <= i64::MAX
}

/// One beneficiary's grant against a pool: its terms, and how much of it has
/// been paid out so far.
#[derive(Clone, Copy, Debug, PartialEq, Eq)]
pub struct EmployeeAccount {
    pub beneficiary: Pubkey,
    pub start_time: i64,
    pub end_time: i64,
    pub total_amount: i64,
    pub total_withdrawn: i64,
    pub cliff_time: i64,
    pub vesting_account: Pubkey,
    pub bump: u8,
}

impl EmployeeAccount {
    /// Seconds of the vesting period that lie behind `now`.
    pub open spec fn time_since_start(self, now: int) -> int {
        seconds_between(self.start_time as int, now)
    }

    /// Length of the vesting period in seconds.
    pub open spec fn total_vesting_time(self) -> int {
        seconds_between(self.start_time as int, self.end_time as int)
    }

    /// The part of the grant that has vested at `now`, or the reason why no
    /// claim can be served at that time.
    ///
    /// Nothing can be claimed before the cliff. A period of no length is
    /// refused. From the end of the period on the whole grant has vested;
    /// before that the grant vests in proportion to the time since the start,
    /// provided that the product of the two fits in 64 signed bits.
    pub open spec fn vested_at(self, now: int) -> Result<int, ErrorCode> {
        if now < self.cliff_time {
            Err(ErrorCode::ClaimNotAvailableYet)
        } else if self.total_vesting_time() == 0 {
            Err(ErrorCode::InvalidVestingPeriod)
        } else if now >= self.end_time {
            Ok(self.total_amount as int)
        } else if !fits_i64(self.total_amount * self.time_since_start(now)) {
            Err(ErrorCode::CalculationOverflow)
        } else {
            Ok(
                quotient_toward_zero(
                    self.total_amount * self.time_since_start(now),
                    self.total_vesting_time(),
                ),
            )
        }
    }

    /// What a claim at `now` pays out: the vested amount less what has been
    /// withdrawn, where that is more than nothing.
    pub open spec fn claimable_at(self, now: int) -> Result<int, ErrorCode> {
        match self.vested_at(now) {
            Err(e) => Err(e),
            Ok(vested) => if vested > self.total_withdrawn {
                Ok(vested - self.total_withdrawn)
            } else {
                Err(ErrorCode::NothingToClaim)
            },
        }
    }

    /// The schedule once `amount` more has been paid out.
    pub open spec fn after_withdrawal(self, amount: int) -> EmployeeAccount
        recommends
            fits_i64(self.total_withdrawn + amount),
    {
        EmployeeAccount { total_withdrawn: (self.total_withdrawn + amount) as i64, ..self }
    }

    /// The schedule after a claim at `now` whose transfer went through. A
    /// claim that is refused leaves the schedule as it is.
    pub open spec fn after_claim(self, now: int) -> EmployeeAccount {
        match self.claimable_at(now) {
            Ok(amount) => self.after_withdrawal(amount),
            Err(_) => self,
        }
    }

    /// The schedule after one claim at each of `times`, in that order.
    pub open spec fn after_claims(self, times: Seq<int>) -> EmployeeAccount
        decreases times.len(),
    {
        if times.len() == 0 {
            self
        } else {
            self.after_claims(times.drop_last()).after_claim(times.last())
        }
    }

    /// Whether `other` is a schedule on the same terms: all but the amount
    /// withdrawn is the same.
    pub open spec fn same_terms(self, other: EmployeeAccount) -> bool {
        other == (EmployeeAccount { total_withdrawn: other.total_withdrawn, ..self })
    }

    /// Nothing negative has been withdrawn, and no more than a grant of a
    /// positive amount allows.
    pub open spec fn wf(self) -> bool {
        0 <= self.total_withdrawn <= (if self.total_amount > 0 {
            self.total_amount
        } else {
            0
        })
    }

    /// The vested part of the grant at `now`.
    pub fn vested_amount(&self, now: i64) -> (result: Result<i64, ErrorCode>)
        ensures
            match result {
                Ok(vested) => self.vested_at(now as int) == Ok::<int, ErrorCode>(vested as int),
                Err(e) => self.vested_at(now as int) == Err::<int, ErrorCode>(e),
            },
    {
        if now < self.cliff_time {
            return Err(ErrorCode::ClaimNotAvailableYet);
        }
        let time_since_start = seconds_elapsed(self.start_time, now);
        let total_vesting_time = seconds_elapsed(self.start_time, self.end_time);
        if total_vesting_time == 0 {
            return Err(ErrorCode::InvalidVestingPeriod);
        }
        if now >= self.end_time {
            Ok(self.total_amount)
        } else {
            match checked_product(self.total_amount, time_since_start) {
                Some(product) => Ok(divide_toward_zero(product, total_vesting_time)),
                None => Err(ErrorCode::CalculationOverflow),
            }
        }
    }

    /// The amount that a claim at `now` pays out.
    pub fn claimable_amount(&self, now: i64) -> (result: Result<u64, ErrorCode>)
        ensures
            match result {
                Ok(amount) => {
                    &&& self.claimable_at(now as int) == Ok::<int, ErrorCode>(amount as int)
                    &&& self.total_withdrawn + amount <= i64::MAX
                },
                Err(e) => self.claimable_at(now as int) == Err::<int, ErrorCode>(e),
            },
    {
        match self.vested_amount(now) {
            Err(e) => Err(e),
            Ok(vested) => {
                if vested > self.total_withdrawn {
                    Ok((vested as i128 - self.total_withdrawn as i128) as u64)
                } else {
                    Err(ErrorCode::NothingToClaim)
                }
            },
        }
    }
}

/// Seconds from `from` to `to`, or zero when `to` is not later than `from`.
fn seconds_elapsed(from: i64, to: i64) -> (seconds: u64)
    ensures
        seconds == seconds_between(from as int, to as int),
{
    if to > from {
        (to as i128 - from as i128) as u64
    } else {
        0
    }
}

/// The product of an amount and a number of seconds, where it fits in 64
/// signed bits.
fn checked_product(amount: i64, seconds: u64) -> (product: Option<i64>)
    ensures
        fits_i64(amount * seconds) ==> product == Some((amount * seconds) as i64),
        !fits_i64(amount * seconds) ==> product.is_none(),
{
    assert(-0x8000_0000_0000_0000 * 0xffff_ffff_ffff_ffff <= amount * seconds
        <= 0x7fff_ffff_ffff_ffff * 0xffff_ffff_ffff_ffff) by (nonlinear_arith)
        requires
            -0x8000_0000_0000_0000 <= amount <= 0x7fff_ffff_ffff_ffff,
            0 <= seconds <= 0xffff_ffff_ffff_ffff,
    ;
    let wide: i128 = (amount as i128) * (seconds as i128);
    if wide < i64::MIN as i128 || wide > i64::MAX as i128 {
        None
    } else {
        Some(wide as i64)
    }
}

/// `product` divided by `divisor`, rounded toward zero.
fn divide_toward_zero(product: i64, divisor: u64) -> (quotient: i64)
    requires
        divisor > 0,
    ensures
        quotient == quotient_toward_zero(product as int, divisor as int),
{
    proof {
        if product >= 0 {
            lemma_div_pos_is_pos(product as int, divisor as int);
            lemma_div_nonincreasing(product as int, divisor as int);
        } else {
            lemma_div_pos_is_pos(-(product as int), divisor as int);
            lemma_div_nonincreasing(-(product as int), divisor as int);
        }
    }
    ((product as i128) / (divisor as i128)) as i64
}

} // verus!
