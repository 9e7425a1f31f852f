//! A token-vesting ledger: a company's pool, the grants made out of it, and
//! the claims that pay out what has vested.

pub mod error;
pub mod instructions;
pub mod laws;
pub mod pool;
pub mod pubkey;
pub mod schedule;

pub use error::ErrorCode;
pub use instructions::claim_tokens;
pub use instructions::create_employee_vesting;
pub use instructions::create_vesting_account;
pub use instructions::settle_claim;
pub use instructions::ClaimTokens;
pub use instructions::CreateEmployeeAccount;
pub use instructions::CreateEmployeeAccountBumps;
pub use instructions::CreateVestingAccount;
pub use instructions::CreateVestingAccountBumps;
pub use instructions::TransferChecked;
pub use pool::VestingAccount;
pub use pool::MAX_COMPANY_NAME_LEN;
pub use pool::TREASURY_SEED;
pub use pubkey::Pubkey;
pub use schedule::EmployeeAccount;
