use vstd::prelude::*;
use vstd::utf8::encode_utf8;
use crate::address::{Address, MAX_SEED_LEN};
use crate::errors::VoucherNftError;

verus! {

/// The administrative root: who may provision vaults, and which asset is the
/// collection that every voucher belongs to.
#[derive(Clone, Copy, Debug, PartialEq, Eq)]
pub struct Config {
    pub admin: Address,
    pub collection: Address,
}

impl Config {
    /// Binds the administrator and the collection asset.
    pub fn initialize(&mut self, admin: Address, collection: Address) -> (r: Result<(), VoucherNftError>)
        ensures
            r is Ok,
            final(self).admin == admin,
            final(self).collection == collection,
    {
        self.admin = admin;
        self.collection = collection;
        Ok(())
    }
}

/// The program signer: a program-controlled identity with no private key,
/// whose signing power is proved by re-deriving its address with `bump`.
#[derive(Clone, Copy, Debug, PartialEq, Eq, Structural)]
pub struct Authorator {
    pub bump: u8,
}

impl Authorator {
    /// Records the derivation nonce of the program signer.
    pub fn initialize(&mut self, bump: u8) -> (r: Result<(), VoucherNftError>)
        ensures
            r is Ok,
            final(self).bump == bump,
    {
        self.bump = bump;
        Ok(())
    }
}

/// A named scope provisioned by the administrator and run by one operator.
#[derive(Clone, Debug)]
pub struct Vault {
    pub operator: Address,
    pub seed: String,
    pub bump: u8,
}

/// A vault seed is at most 32 bytes long in UTF-8.
pub open spec fn seed_fits(seed: Seq<char>) -> bool {
    encode_utf8(seed).len() <= MAX_SEED_LEN
}

/// A vault: operator, seed and nonce.
pub type VaultView = (Seq<u8>, Seq<char>, u8);

impl View for Vault {
    type V = VaultView;

    open spec fn view(&self) -> VaultView {
        (self.operator@, self.seed@, self.bump)
    }
}

impl Vault {
    /// A copy of this vault.
    pub fn duplicate(&self) -> (r: Vault)
        ensures
            r == *self,
    {
        Vault { operator: self.operator, seed: self.seed.clone(), bump: self.bump }
    }

    /// Stores the operator, the seed and the derivation nonce; a seed longer
    /// than 32 bytes is refused and the record left as it was.
    pub fn initialize(&mut self, operator: Address, seed: String, bump: u8) -> (r: Result<(), VoucherNftError>)
        ensures
            seed_fits(seed@) ==> r is Ok && final(self).operator == operator && final(self).seed@ == seed@
                && final(self).bump == bump,
            !seed_fits(seed@) ==> r == Err::<(), VoucherNftError>(VoucherNftError::SeedTooLong) && *final(self) == *old(self),
    {
        let bytes = seed.as_str().as_bytes();
        if bytes.len() > MAX_SEED_LEN {
            return Err(VoucherNftError::SeedTooLong);
        }
        self.operator = operator;
        self.seed = seed;
        self.bump = bump;
        Ok(())
    }
}

/// The largest discount, in basis points: 10000 is the whole price.
pub const MAX_DISCOUNT_BPS: u16 = 10000;

/// Redemption terms attached to one voucher.
#[derive(Clone, Copy, Debug, PartialEq, Eq)]
pub struct RepayVoucher {
    /// Discount in basis points.
    pub discount_percentage: u16,
    /// How many times the voucher may be used.
    pub maximum_amount: u32,
    pub start_time: i64,
    pub end_time: i64,
    pub nft_mint: Address,
    pub authorator: Address,
}

/// The terms as the caller supplies them.
#[derive(Clone, Copy, Debug, PartialEq, Eq, Structural)]
pub struct AddRepayVoucherParams {
    pub discount_percentage: u16,
    pub maximum_amount: u32,
    pub start_time: i64,
    pub end_time: i64,
}

/// The outcome of validating terms at time `now`: each rule is tried in
/// turn and the first one broken names the error.
pub open spec fn spec_validate_terms(
    discount_percentage: u16,
    maximum_amount: u32,
    start_time: i64,
    end_time: i64,
    now: i64,
) -> Result<(), VoucherNftError> {
    if discount_percentage > MAX_DISCOUNT_BPS {
        Err(VoucherNftError::InvalidDiscountPercentage)
    } else if maximum_amount == 0 {
        Err(VoucherNftError::InvalidMaximumAmount)
    } else if start_time >= end_time {
        Err(VoucherNftError::StartTimeAfterEndTime)
    } else if start_time < now {
        Err(VoucherNftError::StartTimeBeforeCurrentTime)
    } else {
        Ok(())
    }
}

/// The stored terms: discount, cap, window, voucher and program signer.
pub type RepayVoucherView = (u16, u32, i64, i64, Seq<u8>, Seq<u8>);

impl View for RepayVoucher {
    type V = RepayVoucherView;

    open spec fn view(&self) -> RepayVoucherView {
        (self.discount_percentage, self.maximum_amount, self.start_time, self.end_time, self.nft_mint@, self.authorator@)
    }
}

impl RepayVoucher {
    /// Checks the terms against the invariants of a redemption record, with
    /// `current_time` the ledger's clock.
    pub fn assert_data_is_valid(
        discount_percentage: u16,
        maximum_amount: u32,
        start_time: i64,
        end_time: i64,
        current_time: i64,
    ) -> (r: Result<(), VoucherNftError>)
        ensures
            r == spec_validate_terms(discount_percentage, maximum_amount, start_time, end_time, current_time),
    {
        if discount_percentage > MAX_DISCOUNT_BPS {
            return Err(VoucherNftError::InvalidDiscountPercentage);
        }
        if maximum_amount == 0 {
            return Err(VoucherNftError::InvalidMaximumAmount);
        }
        if start_time >= end_time {
            return Err(VoucherNftError::StartTimeAfterEndTime);
        }
        if start_time < current_time {
            return Err(VoucherNftError::StartTimeBeforeCurrentTime);
        }
        Ok(())
    }

    /// Validates the terms and, where they hold, stores them with the voucher
    /// and the program signer they belong to; otherwise the record is left as
    /// it was.
    pub fn initialize(
        &mut self,
        discount_percentage: u16,
        maximum_amount: u32,
        start_time: i64,
        end_time: i64,
        nft_mint: Address,
        authorator: Address,
        current_time: i64,
    ) -> (r: Result<(), VoucherNftError>)
        ensures
            r == spec_validate_terms(discount_percentage, maximum_amount, start_time, end_time, current_time),
            r is Ok ==> *final(self) == (RepayVoucher {
                discount_percentage,
                maximum_amount,
                start_time,
                end_time,
                nft_mint,
                authorator,
            }),
            r is Err ==> *final(self) == *old(self),
    {
        Self::assert_data_is_valid(discount_percentage, maximum_amount, start_time, end_time, current_time)?;
        self.discount_percentage = discount_percentage;
        self.maximum_amount = maximum_amount;
        self.start_time = start_time;
        self.end_time = end_time;
        self.nft_mint = nft_mint;
        self.authorator = authorator;
        Ok(())
    }
}

} // verus!
