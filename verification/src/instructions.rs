use vstd::prelude::*;
use vstd::utf8::encode_utf8;
use crate::error::ErrorCode;
use crate::pool::VestingAccount;
use crate::pool::MAX_COMPANY_NAME_LEN;
use crate::pubkey::Pubkey;
use crate::schedule::EmployeeAccount;

verus! {

/// The bump seeds of the two addresses that the creation of a pool sets up.
#[derive(Clone, Copy, Debug, PartialEq, Eq)]
pub struct CreateVestingAccountBumps {
    pub vesting_account: u8,
    pub treasury_token_account: u8,
}

/// What the creation of a pool works on.
#[derive(Clone, Debug, PartialEq, Eq)]
pub struct CreateVestingAccount {
    /// Who asks for the pool, and will administer it.
    pub signer: Pubkey,
    /// The pool that is stored under the company name already, if there is one.
    pub vesting_account: Option<VestingAccount>,
    /// The asset that the pool will hold.
    pub mint: Pubkey,
    /// Where the pool will keep the asset.
    pub treasury_token_account: Pubkey,
    pub bumps: CreateVestingAccountBumps,
}

/// The bump seed of the address at which a new schedule is stored.
#[derive(Clone, Copy, Debug, PartialEq, Eq)]
pub struct CreateEmployeeAccountBumps {
    pub employee_account: u8,
}

/// What the creation of a schedule works on.
#[derive(Clone, Debug, PartialEq, Eq)]
pub struct CreateEmployeeAccount {
    /// Who asks for the schedule.
    pub owner: Pubkey,
    /// Who will be entitled to claim.
    pub beneficiary: Pubkey,
    /// The pool that the schedule draws on.
    pub vesting_account: VestingAccount,
    /// The address at which that pool is stored.
    pub vesting_account_key: Pubkey,
    pub bumps: CreateEmployeeAccountBumps,
}

/// What a claim works on.
#[derive(Clone, Debug, PartialEq, Eq)]
pub struct ClaimTokens {
    /// The schedule that is claimed against.
    pub employee_account: EmployeeAccount,
    /// The pool that pays.
    pub vesting_account: VestingAccount,
    /// Where the beneficiary receives the asset.
    pub employee_token_account: Pubkey,
    /// Decimal places of the pool's asset.
    pub mint_decimals: u8,
}

/// A transfer out of a treasury that is still to be made: the accounts it
/// touches, the seeds that sign for the treasury, and the amount.
#[derive(Clone, Debug, PartialEq, Eq)]
pub struct TransferChecked {
    pub from: Pubkey,
    pub mint: Pubkey,
    pub to: Pubkey,
    pub authority: Pubkey,
    pub signer_seeds: Vec<Vec<u8>>,
    pub amount: u64,
    pub decimals: u8,
}

impl ClaimTokens {
    /// Whether `transfer` moves the pool's asset from the pool's treasury to
    /// the beneficiary, signed for by the treasury itself.
    pub open spec fn pays_with(self, transfer: TransferChecked) -> bool {
        &&& transfer.from == self.vesting_account.treasury_token_account
        &&& transfer.mint == self.vesting_account.mint
        &&& transfer.to == self.employee_token_account
        &&& transfer.authority == self.vesting_account.treasury_token_account
        &&& transfer.signer_seeds.deep_view() == self.vesting_account.treasury_seeds()
        &&& transfer.decimals == self.mint_decimals
    }
}

/// Sets up the pool of the company `company_name`, administered by the signer.
///
/// A company has one pool: where one is stored under the name already, the
/// request is refused as a duplicate.
pub fn create_vesting_account(ctx: &CreateVestingAccount, company_name: String) -> (result: Result<
    VestingAccount,
    ErrorCode,
>)
    requires
        encode_utf8(company_name@).len() <= MAX_COMPANY_NAME_LEN,
    ensures
        match result {
            Ok(pool) => {
                &&& ctx.vesting_account.is_none()
                &&& pool.owner == ctx.signer
                &&& pool.mint == ctx.mint
                &&& pool.treasury_token_account == ctx.treasury_token_account
                &&& pool.company_name == company_name
                &&& pool.treasury_bump == ctx.bumps.treasury_token_account
                &&& pool.bump == ctx.bumps.vesting_account
                &&& pool.wf()
            },
            Err(e) => ctx.vesting_account.is_some() && e == ErrorCode::DuplicatePool,
        },
{
    if ctx.vesting_account.is_some() {
        return Err(ErrorCode::DuplicatePool);
    }
    Ok(
        VestingAccount {
            owner: ctx.signer,
            mint: ctx.mint,
            treasury_token_account: ctx.treasury_token_account,
            company_name,
            treasury_bump: ctx.bumps.treasury_token_account,
            bump: ctx.bumps.vesting_account,
        },
    )
}

/// Grants the beneficiary `total_amount` out of the pool, to vest from
/// `start_time` to `end_time` and to be claimed from `cliff_time` on.
///
/// Only the owner of the pool may grant. The times are taken as they are
/// given: a claim finds out whether they make sense.
pub fn create_employee_vesting(
    ctx: &CreateEmployeeAccount,
    start_time: i64,
    end_time: i64,
    total_amount: i64,
    cliff_time: i64,
) -> (result: Result<EmployeeAccount, ErrorCode>)
    ensures
        match result {
            Ok(schedule) => {
                &&& ctx.owner == ctx.vesting_account.owner
                &&& schedule == (EmployeeAccount {
                    beneficiary: ctx.beneficiary,
                    start_time,
                    end_time,
                    total_amount,
                    total_withdrawn: 0,
                    cliff_time,
                    vesting_account: ctx.vesting_account_key,
                    bump: ctx.bumps.employee_account,
                })
                &&& schedule.wf()
            },
            Err(e) => ctx.owner != ctx.vesting_account.owner && e == ErrorCode::Unauthorized,
        },
{
    if ctx.owner != ctx.vesting_account.owner {
        return Err(ErrorCode::Unauthorized);
    }
    Ok(
        EmployeeAccount {
            beneficiary: ctx.beneficiary,
            start_time,
            end_time,
            total_amount,
            total_withdrawn: 0,
            cliff_time,
            vesting_account: ctx.vesting_account_key,
            bump: ctx.bumps.employee_account,
        },
    )
}

/// Works out what a claim at `now` is owed and says which transfer pays it.
///
/// Nothing is paid and nothing is recorded here: the caller makes the
/// transfer and reports how it went to [`settle_claim`].
pub fn claim_tokens(ctx: &ClaimTokens, now: i64) -> (result: Result<TransferChecked, ErrorCode>)
    ensures
        match result {
            Ok(transfer) => {
                &&& ctx.employee_account.claimable_at(now as int) == Ok::<int, ErrorCode>(
                    transfer.amount as int,
                )
                &&& ctx.employee_account.total_withdrawn + transfer.amount <= i64::MAX
                &&& ctx.pays_with(transfer)
            },
            Err(e) => ctx.employee_account.claimable_at(now as int) == Err::<int, ErrorCode>(e),
        },
{
    let claimable_amount = match ctx.employee_account.claimable_amount(now) {
        Ok(amount) => amount,
        Err(e) => {
            return Err(e);
        },
    };
    let transfer = TransferChecked {
        from: ctx.vesting_account.treasury_token_account,
        mint: ctx.vesting_account.mint,
        to: ctx.employee_token_account,
        authority: ctx.vesting_account.treasury_token_account,
        signer_seeds: ctx.vesting_account.treasury_signer_seeds(),
        amount: claimable_amount,
        decimals: ctx.mint_decimals,
    };
    Ok(transfer)
}

/// Closes a claim once the transfer of `amount` has been tried: a transfer
/// that went through is added to what the schedule has paid out, one that
/// failed leaves the schedule as it was and hands its error on.
pub fn settle_claim<E>(
    employee_account: &mut EmployeeAccount,
    amount: u64,
    outcome: Result<(), E>,
) -> (result: Result<(), E>)
    requires
        old(employee_account).total_withdrawn + amount <= i64::MAX,
    ensures
        match outcome {
            Ok(_) => {
                &&& result is Ok
                &&& *final(employee_account) == old(employee_account).after_withdrawal(
                    amount as int,
                )
            },
            Err(e) => result == Err::<(), E>(e) && *final(employee_account) == *old(
                employee_account,
            ),
        },
{
    match outcome {
        Ok(()) => {
            let withdrawn = employee_account.total_withdrawn as i128 + amount as i128;
            employee_account.total_withdrawn = withdrawn as i64;
            Ok(())
        },
        Err(e) => Err(e),
    }
}

} // verus!
