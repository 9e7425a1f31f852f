use vstd::prelude::*;
use vstd::slice::slice_to_vec;
use vstd::string::StringSliceAdditionalSpecFns;
use vstd::utf8::encode_utf8;
use crate::pubkey::Pubkey;

verus! {

/// First seed of every treasury address.
pub const TREASURY_SEED: &'static str = "vesting_treasury";

/// Greatest length of a company name, in bytes.
pub const MAX_COMPANY_NAME_LEN: usize = 50;

/// One company's pool: who administers it, which asset it holds, and where
/// the asset is kept.
#[derive(Clone, Debug, PartialEq, Eq)]
pub struct VestingAccount {
    pub owner: Pubkey,
    pub mint: Pubkey,
    pub treasury_token_account: Pubkey,
    pub company_name: String,
    pub treasury_bump: u8,
    pub bump: u8,
}

impl VestingAccount {
    /// The company name as the bytes that key the pool.
    pub open spec fn name_bytes(self) -> Seq<u8> {
        encode_utf8(self.company_name@)
    }

    /// The company name is short enough to be stored.
    pub open spec fn wf(self) -> bool {
        self.name_bytes().len() <= MAX_COMPANY_NAME_LEN
    }

    /// The seeds from which the authority over the treasury is derived: the
    /// fixed tag, the company name, and the treasury's bump.
    pub open spec fn treasury_seeds(self) -> Seq<Seq<u8>> {
        seq![TREASURY_SEED.spec_bytes(), self.name_bytes(), seq![self.treasury_bump]]
    }

    /// The seeds that sign for the treasury of this pool.
    pub fn treasury_signer_seeds(&self) -> (seeds: Vec<Vec<u8>>)
        ensures
            seeds.deep_view() == self.treasury_seeds(),
    {
        let tag = slice_to_vec(TREASURY_SEED.as_bytes());
        let name = slice_to_vec(self.company_name.as_str().as_bytes());
        let mut bump: Vec<u8> = Vec::new();
        bump.push(self.treasury_bump);
        let mut seeds: Vec<Vec<u8>> = Vec::new();
        seeds.push(tag);
        seeds.push(name);
        seeds.push(bump);
        proof {
            assert(seeds@[0].deep_view() =~= seeds@[0]@);
            assert(seeds@[1].deep_view() =~= seeds@[1]@);
            assert(seeds@[2].deep_view() =~= seeds@[2]@);
            assert(seeds@[2]@ =~= seq![self.treasury_bump]);
            assert(seeds.deep_view() =~= self.treasury_seeds());
        }
        seeds
    }
}

} // verus!
