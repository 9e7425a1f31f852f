use vstd::prelude::*;
use vstd::arithmetic::div_mod::lemma_div_is_ordered;
use vstd::arithmetic::div_mod::lemma_div_pos_is_pos;
use crate::error::ErrorCode;
use crate::schedule::fits_i64;
use crate::schedule::quotient_toward_zero;
use crate::schedule::seconds_between;
use crate::schedule::EmployeeAccount;

verus! {

/// A share `amount * part / whole` of an amount lies between nothing and the
/// amount, on the amount's side of zero.
proof fn lemma_share_is_within_amount(amount: int, part: int, whole: int)
    requires
        0 <= part <= whole,
        0 < whole,
    ensures
        amount >= 0 ==> 0 <= quotient_toward_zero(amount * part, whole) <= amount,
        amount <= 0 ==> amount <= quotient_toward_zero(amount * part, whole) <= 0,
{
    let magnitude = if amount >= 0 {
        amount
    } else {
        -amount
    };
    assert(0 <= magnitude * part <= magnitude * whole) by (nonlinear_arith)
        requires
            0 <= magnitude,
            0 <= part <= whole,
    ;
    lemma_div_pos_is_pos(magnitude * part, whole);
    lemma_div_is_ordered(magnitude * part, magnitude * whole, whole);
    assert((magnitude * whole) / whole == magnitude) by (nonlinear_arith)
        requires
            0 < whole,
    ;
    assert(amount * part == if amount >= 0 {
        magnitude * part
    } else {
        -(magnitude * part)
    }) by (nonlinear_arith)
        requires
            magnitude == if amount >= 0 {
                amount
            } else {
                -amount
            },
    ;
}

/// What has vested is never more than the grant, and never on the other side
/// of zero.
pub proof fn vested_amount_is_within_grant(schedule: EmployeeAccount, now: int)
    ensures
        match schedule.vested_at(now) {
            Ok(vested) => {
                &&& fits_i64(vested)
                &&& schedule.total_amount >= 0 ==> 0 <= vested <= schedule.total_amount
                &&& schedule.total_amount <= 0 ==> schedule.total_amount <= vested <= 0
            },
            Err(_) => true,
        },
{
    if schedule.vested_at(now) is Ok && now < schedule.end_time {
        lemma_share_is_within_amount(
            schedule.total_amount as int,
            schedule.time_since_start(now),
            schedule.total_vesting_time(),
        );
    }
}

/// A claim that is served pays more than nothing, and brings what the
/// schedule has paid out up to what has vested.
pub proof fn claim_pays_what_has_vested(schedule: EmployeeAccount, now: int)
    ensures
        match schedule.claimable_at(now) {
            Ok(amount) => {
                &&& 0 < amount <= u64::MAX
                &&& fits_i64(schedule.total_withdrawn + amount)
                &&& schedule.vested_at(now) == Ok::<int, ErrorCode>(
                    schedule.total_withdrawn + amount,
                )
                &&& schedule.after_claim(now).total_withdrawn == schedule.total_withdrawn
                    + amount
                &&& schedule.same_terms(schedule.after_claim(now))
            },
            Err(_) => schedule.after_claim(now) == schedule,
        },
{
    vested_amount_is_within_grant(schedule, now);
}

/// One claim keeps a schedule well formed.
pub proof fn claim_keeps_well_formed(schedule: EmployeeAccount, now: int)
    requires
        schedule.wf(),
    ensures
        schedule.after_claim(now).wf(),
{
    vested_amount_is_within_grant(schedule, now);
}

/// However often a schedule is claimed against, and at whatever times, what
/// it has paid out never goes down and its terms stay as they are. Where it
/// started within a grant of no negative amount, it never pays out more than
/// the grant.
pub proof fn withdrawals_grow_within_grant(schedule: EmployeeAccount, times: Seq<int>)
    ensures
        schedule.after_claims(times).total_withdrawn >= schedule.total_withdrawn,
        schedule.same_terms(schedule.after_claims(times)),
        schedule.wf() ==> schedule.after_claims(times).wf(),
        0 <= schedule.total_amount && schedule.total_withdrawn <= schedule.total_amount
            ==> schedule.after_claims(times).total_withdrawn <= schedule.total_amount,
    decreases times.len(),
{
    if times.len() > 0 {
        let before = schedule.after_claims(times.drop_last());
        withdrawals_grow_within_grant(schedule, times.drop_last());
        claim_pays_what_has_vested(before, times.last());
        vested_amount_is_within_grant(before, times.last());
    }
}

/// As time goes on, no less of a grant of no negative amount has vested.
pub proof fn vested_amount_never_shrinks(schedule: EmployeeAccount, earlier: int, later: int)
    requires
        schedule.total_amount >= 0,
        earlier <= later,
    ensures
        match (schedule.vested_at(earlier), schedule.vested_at(later)) {
            (Ok(before), Ok(after)) => before <= after,
            _ => true,
        },
{
    let amount = schedule.total_amount as int;
    let whole = schedule.total_vesting_time();
    if schedule.vested_at(earlier) is Ok && schedule.vested_at(later) is Ok {
        vested_amount_is_within_grant(schedule, earlier);
        if later < schedule.end_time {
            let part_before = schedule.time_since_start(earlier);
            let part_after = schedule.time_since_start(later);
            assert(0 <= amount * part_before <= amount * part_after) by (nonlinear_arith)
                requires
                    0 <= amount,
                    0 <= part_before <= part_after,
            ;
            lemma_div_is_ordered(amount * part_before, amount * part_after, whole);
        }
    }
}

/// Whether no time in `times` is earlier than one before it.
pub open spec fn non_decreasing(times: Seq<int>) -> bool {
    forall|i: int, j: int| 0 <= i <= j < times.len() ==> times[i] <= times[j]
}

/// A schedule that starts with nothing paid out, on a grant of no negative
/// amount, and is claimed against at times that never go back, has at no
/// later time paid out more than has vested by then, nor more than the grant.
pub proof fn withdrawn_stays_within_vested(schedule: EmployeeAccount, times: Seq<int>, later: int)
    requires
        schedule.total_amount >= 0,
        schedule.total_withdrawn == 0,
        non_decreasing(times),
        times.len() > 0 ==> times.last() <= later,
    ensures
        match schedule.vested_at(later) {
            Ok(vested) => 0 <= schedule.after_claims(times).total_withdrawn <= vested
                <= schedule.total_amount,
            Err(_) => true,
        },
    decreases times.len(),
{
    vested_amount_is_within_grant(schedule, later);
    if times.len() > 0 {
        let earlier = times.drop_last();
        let before = schedule.after_claims(earlier);
        withdrawals_grow_within_grant(schedule, earlier);
        assert(non_decreasing(earlier)) by {
            assert forall|i: int, j: int| 0 <= i <= j < earlier.len() implies earlier[i]
                <= earlier[j] by {
                assert(earlier[i] == times[i] && earlier[j] == times[j]);
            }
        }
        if earlier.len() > 0 {
            assert(earlier.last() == times[times.len() - 2]);
        }
        withdrawn_stays_within_vested(schedule, earlier, later);
        claim_pays_what_has_vested(before, times.last());
        assert(before.vested_at(times.last()) == schedule.vested_at(times.last()));
        vested_amount_never_shrinks(schedule, times.last(), later);
    }
}

/// Before the cliff every claim is refused as too early, and from the cliff
/// on none is.
pub proof fn claims_open_at_the_cliff(schedule: EmployeeAccount, now: int)
    ensures
        now < schedule.cliff_time ==> schedule.claimable_at(now) == Err::<int, ErrorCode>(
            ErrorCode::ClaimNotAvailableYet,
        ),
        now >= schedule.cliff_time ==> schedule.claimable_at(now) != Err::<int, ErrorCode>(
            ErrorCode::ClaimNotAvailableYet,
        ),
{
}

/// Where the cliff is the start of the period, a claim at the cliff finds
/// that nothing has vested yet.
pub proof fn nothing_has_vested_at_the_start(schedule: EmployeeAccount)
    requires
        schedule.cliff_time == schedule.start_time,
        schedule.start_time < schedule.end_time,
    ensures
        schedule.vested_at(schedule.cliff_time as int) == Ok::<int, ErrorCode>(0),
        schedule.total_withdrawn >= 0 ==> schedule.claimable_at(schedule.cliff_time as int)
            == Err::<int, ErrorCode>(ErrorCode::NothingToClaim),
{
    assert(schedule.total_amount * 0 == 0);
    assert(0int / schedule.total_vesting_time() == 0) by (nonlinear_arith)
        requires
            schedule.total_vesting_time() > 0,
    ;
}

/// From the end of the period on, a claim pays all of the grant that has not
/// been paid out yet.
pub proof fn all_is_claimable_after_the_end(schedule: EmployeeAccount, now: int)
    requires
        schedule.cliff_time <= now,
        schedule.start_time < schedule.end_time <= now,
        schedule.total_withdrawn <= schedule.total_amount,
    ensures
        schedule.claimable_at(now) == if schedule.total_withdrawn < schedule.total_amount {
            Ok::<int, ErrorCode>(schedule.total_amount - schedule.total_withdrawn)
        } else {
            Err::<int, ErrorCode>(ErrorCode::NothingToClaim)
        },
{
}

/// A claim that comes again at the same time, after one that was paid, finds
/// nothing to claim.
pub proof fn second_claim_finds_nothing(schedule: EmployeeAccount, now: int)
    requires
        schedule.claimable_at(now) is Ok,
    ensures
        schedule.after_claim(now).claimable_at(now) == Err::<int, ErrorCode>(
            ErrorCode::NothingToClaim,
        ),
{
    claim_pays_what_has_vested(schedule, now);
}

/// A period that ends when it starts is refused at any time from the cliff on.
pub proof fn period_without_length_is_refused(schedule: EmployeeAccount, now: int)
    requires
        schedule.start_time == schedule.end_time,
        schedule.cliff_time <= now,
    ensures
        schedule.claimable_at(now) == Err::<int, ErrorCode>(ErrorCode::InvalidVestingPeriod),
        schedule.after_claim(now) == schedule,
{
}

/// Within the period, a grant whose product with the seconds since the start
/// does not fit in 64 signed bits is refused, and the schedule stays as it is.
pub proof fn overflowing_product_is_refused(schedule: EmployeeAccount, now: int)
    requires
        schedule.cliff_time <= now < schedule.end_time,
        schedule.start_time < schedule.end_time,
        !fits_i64(schedule.total_amount * seconds_between(schedule.start_time as int, now)),
    ensures
        schedule.claimable_at(now) == Err::<int, ErrorCode>(ErrorCode::CalculationOverflow),
        schedule.after_claim(now) == schedule,
{
}

} // verus!
