use vstd::prelude::*;
use crate::address::{
    AccountInput, Address, check_derived_account, is_derived_key, master_edition_address,
    master_edition_seeds, program_address, spec_check_derived_account, spec_key_is_derived,
    token_metadata_program_bytes, vault_address, vault_seeds,
};
use crate::calls::{CallSigner, LedgerCall};
use crate::errors::VoucherNftError;
use crate::state::Vault;

verus! {

/// A unit as the token ledger reports it.
#[derive(Clone, Copy, Debug, PartialEq, Eq, Structural)]
pub struct MintInfo {
    pub decimals: u8,
    pub supply: u64,
}

/// A holding account as the token ledger reports it.
#[derive(Clone, Copy, Debug)]
pub struct TokenHolding {
    pub owner: Address,
    pub mint: Address,
    pub amount: u64,
}

/// The accounts of the instruction that hands a voucher to a user.
#[derive(Clone, Debug)]
pub struct OperatorAirdrop {
    pub program_id: Address,
    pub vault_key: Address,
    pub vault: Vault,
    /// The signer of the instruction.
    pub operator: Address,
    /// The recipient.
    pub user: Address,
    pub mint: Address,
    pub mint_info: MintInfo,
    pub master_edition: AccountInput,
    /// The vault's holding of the voucher.
    pub vault_token_account: TokenHolding,
    /// The recipient's holding of the voucher, where it exists already.
    pub user_token_account: Option<TokenHolding>,
}

/// A holding account fits when it is `owner`'s holding of `mint`.
pub open spec fn holding_fits(h: TokenHolding, owner: Seq<u8>, mint: Seq<u8>) -> bool {
    h.owner@ == owner && h.mint@ == mint
}

/// The checks of an airdrop, in order: the first that fails names the error.
pub open spec fn spec_checks(ctx: OperatorAirdrop) -> Result<(), VoucherNftError> {
    let edition = spec_check_derived_account(ctx.master_edition.key@, ctx.master_edition.data@.len() == 0,
        program_address(master_edition_seeds(ctx.mint@), token_metadata_program_bytes()));
    if !spec_key_is_derived(ctx.vault_key@, program_address(vault_seeds(ctx.vault.seed@), ctx.program_id@)) {
        Err(VoucherNftError::InvalidAccountArgument)
    } else if ctx.operator@ != ctx.vault.operator@ {
        Err(VoucherNftError::OnlyOperator)
    } else if !holding_fits(ctx.vault_token_account, ctx.vault_key@, ctx.mint@) {
        Err(VoucherNftError::InvalidAccountArgument)
    } else if ctx.user_token_account is Some && !holding_fits(ctx.user_token_account->Some_0, ctx.user@, ctx.mint@) {
        Err(VoucherNftError::InvalidAccountArgument)
    } else if edition is Err {
        edition
    } else if ctx.mint_info.decimals != 0 || ctx.mint_info.supply != 1 {
        Err(VoucherNftError::InvalidNftMint)
    } else {
        Ok(())
    }
}

/// The calls of an airdrop: open the recipient's holding where it is missing,
/// then move one unit from the vault's holding to it, signed by the vault.
pub open spec fn is_airdrop_plan(calls: Seq<LedgerCall>, ctx: OperatorAirdrop) -> bool {
    let transfer = calls.last();
    &&& calls.len() == if ctx.user_token_account is Some { 1int } else { 2int }
    &&& ctx.user_token_account is None ==> (calls[0] matches LedgerCall::CreateHoldingAccount { mint, owner }
        && mint@ == ctx.mint@ && owner@ == ctx.user@)
    &&& transfer matches LedgerCall::Transfer { mint, from_owner, to_owner, amount, signer }
        && mint@ == ctx.mint@ && from_owner@ == ctx.vault_key@ && to_owner@ == ctx.user@ && amount == 1
        && signer == CallSigner::Vault
}

/// Hands one voucher from the vault's custody to `user`, after checking the
/// vault, the caller, the holdings, the edition record and that the unit is
/// a singleton with divisibility zero (else `InvalidNftMint`).
pub fn handler(ctx: &OperatorAirdrop) -> (r: Result<Vec<LedgerCall>, VoucherNftError>)
    ensures
        match spec_checks(*ctx) {
            Err(e) => r is Err && r->Err_0 == e,
            Ok(_) => r is Ok && is_airdrop_plan(r->Ok_0@, *ctx),
        },
{
    if !is_derived_key(&ctx.vault_key, &vault_address(&ctx.program_id, &ctx.vault.seed)) {
        return Err(VoucherNftError::InvalidAccountArgument);
    }
    if ctx.operator != ctx.vault.operator {
        return Err(VoucherNftError::OnlyOperator);
    }
    if ctx.vault_token_account.owner != ctx.vault_key || ctx.vault_token_account.mint != ctx.mint {
        return Err(VoucherNftError::InvalidAccountArgument);
    }
    if let Some(holding) = &ctx.user_token_account {
        if holding.owner != ctx.user || holding.mint != ctx.mint {
            return Err(VoucherNftError::InvalidAccountArgument);
        }
    }
    check_derived_account(
        &ctx.master_edition.key,
        ctx.master_edition.data.len() == 0,
        master_edition_address(&ctx.mint),
    )?;
    if ctx.mint_info.decimals != 0 || ctx.mint_info.supply != 1 {
        return Err(VoucherNftError::InvalidNftMint);
    }
    let mut calls: Vec<LedgerCall> = Vec::new();
    if ctx.user_token_account.is_none() {
        calls.push(LedgerCall::CreateHoldingAccount { mint: ctx.mint, owner: ctx.user });
    }
    calls.push(LedgerCall::Transfer {
        mint: ctx.mint,
        from_owner: ctx.vault_key,
        to_owner: ctx.user,
        amount: 1,
        signer: CallSigner::Vault,
    });
    Ok(calls)
}

} // verus!
