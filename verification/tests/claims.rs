use vesting::claim_tokens;
use vesting::settle_claim;
use vesting::ClaimTokens;
use vesting::EmployeeAccount;
use vesting::ErrorCode;
use vesting::Pubkey;
use vesting::VestingAccount;

fn key(byte: u8) -> Pubkey {
    Pubkey::new_from_array([byte; 32])
}

fn schedule(start_time: i64, end_time: i64, cliff_time: i64, total_amount: i64) -> EmployeeAccount {
    EmployeeAccount {
        beneficiary: key(1),
        start_time,
        end_time,
        total_amount,
        total_withdrawn: 0,
        cliff_time,
        vesting_account: key(2),
        bump: 254,
    }
}

fn pool() -> VestingAccount {
    VestingAccount {
        owner: key(3),
        mint: key(4),
        treasury_token_account: key(5),
        company_name: String::from("acme"),
        treasury_bump: 253,
        bump: 252,
    }
}

fn claim(employee_account: EmployeeAccount) -> ClaimTokens {
    ClaimTokens {
        employee_account,
        vesting_account: pool(),
        employee_token_account: key(6),
        mint_decimals: 9,
    }
}

/// Claims at `now` and lets the transfer go through.
fn claim_and_pay(ctx: &mut ClaimTokens, now: i64) -> Result<u64, ErrorCode> {
    let transfer = claim_tokens(ctx, now)?;
    let paid: Result<(), String> = Ok(());
    assert_eq!(settle_claim(&mut ctx.employee_account, transfer.amount, paid), Ok(()));
    Ok(transfer.amount)
}

#[test]
fn half_has_vested_at_the_midpoint() {
    let s = schedule(0, 100, 0, 1000);
    assert_eq!(s.vested_amount(50), Ok(500));
    assert_eq!(s.claimable_amount(50), Ok(500));
}

#[test]
fn two_claims_pay_the_whole_grant() {
    let mut ctx = claim(schedule(0, 100, 0, 1000));
    assert_eq!(claim_and_pay(&mut ctx, 50), Ok(500));
    assert_eq!(ctx.employee_account.total_withdrawn, 500);
    assert_eq!(claim_and_pay(&mut ctx, 100), Ok(500));
    assert_eq!(ctx.employee_account.total_withdrawn, 1000);
    assert_eq!(claim_and_pay(&mut ctx, 100), Err(ErrorCode::NothingToClaim));
    assert_eq!(claim_and_pay(&mut ctx, 1_000_000), Err(ErrorCode::NothingToClaim));
    assert_eq!(ctx.employee_account.total_withdrawn, 1000);
}

#[test]
fn claim_one_second_before_the_cliff_is_too_early() {
    let ctx = claim(schedule(0, 100, 10, 1000));
    assert_eq!(claim_tokens(&ctx, 9).err(), Some(ErrorCode::ClaimNotAvailableYet));
    assert_eq!(ctx.employee_account.vested_amount(9), Err(ErrorCode::ClaimNotAvailableYet));
    assert_eq!(ctx.employee_account.claimable_amount(i64::MIN), Err(ErrorCode::ClaimNotAvailableYet));
}

#[test]
fn claim_at_the_cliff_is_served() {
    let ctx = claim(schedule(0, 100, 10, 1000));
    let transfer = claim_tokens(&ctx, 10).unwrap();
    assert_eq!(transfer.amount, 100);
}

#[test]
fn claim_at_a_cliff_that_is_the_start_finds_nothing() {
    let ctx = claim(schedule(20, 100, 20, 1000));
    assert_eq!(ctx.employee_account.vested_amount(20), Ok(0));
    assert_eq!(claim_tokens(&ctx, 20).err(), Some(ErrorCode::NothingToClaim));
}

#[test]
fn claim_before_the_cliff_is_too_early_even_for_a_period_without_length() {
    let ctx = claim(schedule(5, 5, 10, 1000));
    assert_eq!(claim_tokens(&ctx, 9).err(), Some(ErrorCode::ClaimNotAvailableYet));
    assert_eq!(claim_tokens(&ctx, 10).err(), Some(ErrorCode::InvalidVestingPeriod));
}

#[test]
fn claim_between_cliff_and_start_finds_nothing() {
    let ctx = claim(schedule(0, 100, -10, 1000));
    assert_eq!(ctx.employee_account.vested_amount(-5), Ok(0));
    assert_eq!(claim_tokens(&ctx, -5).err(), Some(ErrorCode::NothingToClaim));
    assert_eq!(claim_tokens(&ctx, 0).err(), Some(ErrorCode::NothingToClaim));
    assert_eq!(claim_tokens(&ctx, 1).unwrap().amount, 10);
}

#[test]
fn all_that_is_left_is_claimable_from_the_end_on() {
    let mut s = schedule(0, 100, 0, 1000);
    s.total_withdrawn = 300;
    assert_eq!(s.claimable_amount(100), Ok(700));
    assert_eq!(s.claimable_amount(101), Ok(700));
    assert_eq!(s.claimable_amount(i64::MAX), Ok(700));
    s.total_withdrawn = 1000;
    assert_eq!(s.claimable_amount(100), Err(ErrorCode::NothingToClaim));
    s.total_withdrawn = 0;
    assert_eq!(s.claimable_amount(100), Ok(1000));
}

#[test]
fn whole_grant_vests_at_the_end_whatever_its_size() {
    let s = schedule(0, 100, 0, i64::MAX);
    assert_eq!(s.vested_amount(100), Ok(i64::MAX));
    assert_eq!(s.claimable_amount(100), Ok(i64::MAX as u64));
}

#[test]
fn second_claim_at_the_same_time_finds_nothing() {
    let mut ctx = claim(schedule(0, 100, 0, 1000));
    assert_eq!(claim_and_pay(&mut ctx, 37), Ok(370));
    assert_eq!(claim_and_pay(&mut ctx, 37), Err(ErrorCode::NothingToClaim));
    assert_eq!(ctx.employee_account.total_withdrawn, 370);
}

#[test]
fn period_without_length_is_refused_at_any_time() {
    for now in [7, 8, 100, i64::MAX] {
        let ctx = claim(schedule(7, 7, 7, 1000));
        assert_eq!(claim_tokens(&ctx, now).err(), Some(ErrorCode::InvalidVestingPeriod));
        assert_eq!(ctx.employee_account.vested_amount(now), Err(ErrorCode::InvalidVestingPeriod));
    }
}

#[test]
fn period_that_ends_before_it_starts_is_refused() {
    let ctx = claim(schedule(100, 0, 0, 1000));
    assert_eq!(claim_tokens(&ctx, 50).err(), Some(ErrorCode::InvalidVestingPeriod));
    assert_eq!(claim_tokens(&ctx, 500).err(), Some(ErrorCode::InvalidVestingPeriod));
}

#[test]
fn product_that_overflows_is_refused() {
    let mut ctx = claim(schedule(0, 1000, 0, i64::MAX));
    let before = ctx.employee_account;
    assert_eq!(claim_tokens(&ctx, 500).err(), Some(ErrorCode::CalculationOverflow));
    assert_eq!(claim_and_pay(&mut ctx, 2), Err(ErrorCode::CalculationOverflow));
    assert_eq!(ctx.employee_account, before);
    assert_eq!(claim_and_pay(&mut ctx, 1), Ok((i64::MAX / 1000) as u64));
}

#[test]
fn greatest_product_that_fits_is_served() {
    let s = schedule(0, 4, 0, i64::MAX / 3);
    assert_eq!(s.vested_amount(3), Ok((i64::MAX / 3) * 3 / 4));
    let s = schedule(0, 4, 0, i64::MAX / 3 + 1);
    assert_eq!(s.vested_amount(3), Err(ErrorCode::CalculationOverflow));
}

#[test]
fn failed_transfer_leaves_the_schedule_as_it_was() {
    let mut ctx = claim(schedule(0, 100, 0, 1000));
    let before = ctx.employee_account;
    let transfer = claim_tokens(&ctx, 50).unwrap();
    let failed: Result<(), String> = Err(String::from("insufficient funds"));
    assert_eq!(
        settle_claim(&mut ctx.employee_account, transfer.amount, failed),
        Err(String::from("insufficient funds"))
    );
    assert_eq!(ctx.employee_account, before);
    assert_eq!(claim_tokens(&ctx, 50).unwrap().amount, 500);
}

#[test]
fn settled_transfer_is_added_to_what_was_withdrawn() {
    let mut s = schedule(0, 100, 0, 1000);
    s.total_withdrawn = 40;
    let paid: Result<(), u32> = Ok(());
    assert_eq!(settle_claim(&mut s, 60, paid), Ok(()));
    assert_eq!(s, EmployeeAccount { total_withdrawn: 100, ..schedule(0, 100, 0, 1000) });
}

#[test]
fn claim_leaves_the_schedule_untouched() {
    let ctx = claim(schedule(0, 100, 0, 1000));
    let before = ctx.clone();
    assert!(claim_tokens(&ctx, 50).is_ok());
    assert_eq!(ctx, before);
}

#[test]
fn withdrawals_never_go_down_nor_beyond_the_grant() {
    let mut ctx = claim(schedule(10, 1010, 100, 12_345));
    let mut last = 0;
    for now in [0, 99, 100, 100, 101, 250, 250, 600, 1009, 1010, 1011, 5000, i64::MAX] {
        let _ = claim_and_pay(&mut ctx, now);
        let withdrawn = ctx.employee_account.total_withdrawn;
        assert!(withdrawn >= last);
        assert!(withdrawn <= 12_345);
        if let Ok(vested) = ctx.employee_account.vested_amount(now) {
            assert_eq!(withdrawn, vested);
        }
        last = withdrawn;
    }
    assert_eq!(last, 12_345);
}

#[test]
fn withdrawals_never_go_down_when_the_clock_does() {
    let mut ctx = claim(schedule(0, 100, 0, 1000));
    assert_eq!(claim_and_pay(&mut ctx, 80), Ok(800));
    assert_eq!(claim_and_pay(&mut ctx, 30), Err(ErrorCode::NothingToClaim));
    assert_eq!(ctx.employee_account.total_withdrawn, 800);
}

#[test]
fn vested_amount_never_shrinks_as_time_goes_on() {
    let s = schedule(-50, 950, -50, 777);
    let mut last = 0;
    for now in -50..=1000 {
        let vested = s.vested_amount(now).unwrap();
        assert!(vested >= last);
        assert!(vested <= 777);
        last = vested;
    }
    assert_eq!(s.vested_amount(-50), Ok(0));
    assert_eq!(s.vested_amount(450), Ok(388));
    assert_eq!(s.vested_amount(949), Ok(776));
    assert_eq!(s.vested_amount(950), Ok(777));
}

#[test]
fn vested_amount_is_rounded_down() {
    let mut ctx = claim(schedule(0, 3, 0, 10));
    assert_eq!(ctx.employee_account.vested_amount(1), Ok(3));
    assert_eq!(ctx.employee_account.vested_amount(2), Ok(6));
    assert_eq!(claim_and_pay(&mut ctx, 1), Ok(3));
    assert_eq!(claim_and_pay(&mut ctx, 2), Ok(3));
    assert_eq!(claim_and_pay(&mut ctx, 3), Ok(4));
    assert_eq!(ctx.employee_account.total_withdrawn, 10);
}

#[test]
fn small_grant_vests_nothing_until_a_unit_is_due() {
    let s = schedule(0, 100, 0, 1);
    assert_eq!(s.vested_amount(99), Ok(0));
    assert_eq!(s.claimable_amount(99), Err(ErrorCode::NothingToClaim));
    assert_eq!(s.claimable_amount(100), Ok(1));
}

#[test]
fn negative_grant_is_never_paid() {
    let s = schedule(0, 100, 0, -1000);
    assert_eq!(s.vested_amount(50), Ok(-500));
    assert_eq!(s.claimable_amount(50), Err(ErrorCode::NothingToClaim));
    assert_eq!(s.claimable_amount(100), Err(ErrorCode::NothingToClaim));
}

#[test]
fn negative_product_is_rounded_toward_zero() {
    let mut s = schedule(0, 2, 0, -5);
    assert_eq!(s.vested_amount(1), Ok(-2));
    s.total_withdrawn = -3;
    assert_eq!(s.claimable_amount(1), Ok(1));
}

#[test]
fn times_far_apart_are_measured_exactly() {
    let mut s = schedule(i64::MIN, i64::MAX, i64::MIN, 0);
    assert_eq!(s.vested_amount(0), Ok(0));
    assert_eq!(s.claimable_amount(0), Err(ErrorCode::NothingToClaim));
    s.total_amount = 1;
    assert_eq!(s.vested_amount(-1), Ok(0));
    assert_eq!(s.vested_amount(0), Err(ErrorCode::CalculationOverflow));
    s.total_amount = -1;
    assert_eq!(s.vested_amount(0), Ok(0));
    s.total_amount = -2;
    assert_eq!(s.vested_amount(0), Err(ErrorCode::CalculationOverflow));
    s.total_amount = 7;
    assert_eq!(s.vested_amount(i64::MAX), Ok(7));
}

#[test]
fn claim_may_exceed_the_signed_range_when_the_counter_is_negative() {
    let mut s = schedule(0, 100, 0, i64::MAX);
    s.total_withdrawn = i64::MIN;
    assert_eq!(s.claimable_amount(100), Ok(u64::MAX));
    let paid: Result<(), u8> = Ok(());
    assert_eq!(settle_claim(&mut s, u64::MAX, paid), Ok(()));
    assert_eq!(s.total_withdrawn, i64::MAX);
}

#[test]
fn transfer_goes_from_the_treasury_to_the_beneficiary() {
    let ctx = claim(schedule(0, 100, 0, 1000));
    let transfer = claim_tokens(&ctx, 25).unwrap();
    assert_eq!(transfer.from, key(5));
    assert_eq!(transfer.mint, key(4));
    assert_eq!(transfer.to, key(6));
    assert_eq!(transfer.authority, key(5));
    assert_eq!(transfer.amount, 250);
    assert_eq!(transfer.decimals, 9);
}

#[test]
fn transfer_is_signed_with_the_treasury_seeds() {
    let ctx = claim(schedule(0, 100, 0, 1000));
    let transfer = claim_tokens(&ctx, 25).unwrap();
    assert_eq!(
        transfer.signer_seeds,
        vec![b"vesting_treasury".to_vec(), b"acme".to_vec(), vec![253u8]]
    );
    assert_eq!(transfer.signer_seeds, ctx.vesting_account.treasury_signer_seeds());
}

#[test]
fn treasury_seeds_hold_the_name_as_utf8() {
    let mut p = pool();
    p.company_name = String::from("Zoë & Söhne");
    p.treasury_bump = 0;
    let seeds = p.treasury_signer_seeds();
    assert_eq!(seeds.len(), 3);
    assert_eq!(seeds[0], "vesting_treasury".as_bytes());
    assert_eq!(seeds[1], "Zoë & Söhne".as_bytes());
    assert_eq!(seeds[2], [0u8]);
}
