//! Governance of voucher tokens: an administrator provisions vaults, each
//! vault's operator issues vouchers, attaches redemption terms to vouchers
//! this program provably issued, and hands vouchers out to users. Every
//! record sits at an address derived from its namespace and seed, and every
//! supplied account is re-derived before its data is trusted.

pub mod add_repay_voucher;
pub mod add_vault;
pub mod address;
pub mod calls;
pub mod creators;
pub mod errors;
pub mod initialize;
pub mod laws;
pub mod mint_voucher;
pub mod operator_airdrop;
pub mod state;
pub mod store;

use vstd::prelude::*;
pub use crate::add_repay_voucher::AddRepayVoucher;
pub use crate::add_vault::AddVault;
pub use crate::address::{AccountInput, Address};
pub use crate::calls::{CallSigner, LedgerCall};
pub use crate::creators::Creator;
pub use crate::errors::VoucherNftError;
pub use crate::initialize::{Bootstrap, Initialize};
pub use crate::mint_voucher::{MetadataParams, MintVoucher};
pub use crate::operator_airdrop::{MintInfo, OperatorAirdrop, TokenHolding};
pub use crate::state::{AddRepayVoucherParams, Authorator, Config, RepayVoucher, Vault};
pub use crate::store::{ProgramAccounts, Record};

verus! {

/// Bootstraps the program: see `initialize::handler`.
pub fn initialize(ctx: &Initialize, params: &MetadataParams) -> (r: Result<Bootstrap, VoucherNftError>)
    ensures
        match initialize::spec_checks(*ctx) {
            Err(e) => r is Err && r->Err_0 == e,
            Ok(_) => r is Ok && r->Ok_0.config.admin == ctx.admin
                && r->Ok_0.config.collection == ctx.collection_mint
                && address::program_address(address::authorator_seeds(), ctx.program_id@) == Some(
                (ctx.authorator_key@, r->Ok_0.authorator.bump))
                && initialize::is_bootstrap_plan(r->Ok_0.calls@, *ctx, *params),
        },
{
    initialize::handler(ctx, params)
}

/// Provisions a vault: see `add_vault::handler`.
pub fn add_vault(ctx: &AddVault, seed: String, operator: Address) -> (r: Result<Vault, VoucherNftError>)
    ensures
        add_vault::vault_result_view(r) == add_vault::spec_handler(ctx@, seed@, operator@),
{
    add_vault::handler(ctx, seed, operator)
}

/// Issues a voucher: see `mint_voucher::handler`.
pub fn mint_voucher(ctx: &MintVoucher, params: &MetadataParams) -> (r: Result<Vec<LedgerCall>, VoucherNftError>)
    ensures
        match mint_voucher::spec_checks(*ctx) {
            Err(e) => r == Err::<Vec<LedgerCall>, VoucherNftError>(e),
            Ok(_) => r is Ok && mint_voucher::is_mint_plan(r->Ok_0@, *ctx, *params),
        },
{
    mint_voucher::handler(ctx, params)
}

/// Attaches redemption terms to a voucher: see `add_repay_voucher::handler`.
pub fn add_voucher_repay_information(ctx: &AddRepayVoucher, params: AddRepayVoucherParams) -> (r: Result<
    RepayVoucher,
    VoucherNftError,
>)
    ensures
        add_repay_voucher::result_view(r) == add_repay_voucher::spec_handler(ctx@, params),
{
    add_repay_voucher::handler(ctx, params)
}

/// Hands a voucher to a user: see `operator_airdrop::handler`.
pub fn operator_airdrop(ctx: &OperatorAirdrop) -> (r: Result<Vec<LedgerCall>, VoucherNftError>)
    ensures
        match operator_airdrop::spec_checks(*ctx) {
            Err(e) => r is Err && r->Err_0 == e,
            Ok(_) => r is Ok && operator_airdrop::is_airdrop_plan(r->Ok_0@, *ctx),
        },
{
    operator_airdrop::handler(ctx)
}

} // verus!
