use vstd::prelude::*;
use crate::address::{
    Address, authorator_address, authorator_seeds, config_address, config_seeds, is_derived_key,
    program_address, spec_key_is_derived, vault_address, vault_seeds,
};
use crate::calls::{CallSigner, LedgerCall};
use crate::creators::{Creator, creators_view};
use crate::errors::VoucherNftError;
use crate::state::{Config, Vault};

verus! {

/// The descriptive fields of a new voucher.
#[derive(Clone, Debug)]
pub struct MetadataParams {
    pub name: String,
    pub symbol: String,
    pub uri: String,
}

/// The accounts of the instruction that issues a voucher under a vault.
#[derive(Clone, Debug)]
pub struct MintVoucher {
    pub program_id: Address,
    pub config_key: Address,
    pub config: Config,
    pub vault_key: Address,
    pub vault: Vault,
    pub authorator_key: Address,
    /// The signer of the instruction.
    pub operator: Address,
    /// The new unit, and the registry records it is to get.
    pub mint: Address,
    pub metadata_account: Address,
    pub master_edition: Address,
    /// The collection asset that the voucher joins.
    pub collection_mint: Address,
}

/// The checks of issuing a voucher, in order: the first that fails names the error.
pub open spec fn spec_checks(ctx: MintVoucher) -> Result<(), VoucherNftError> {
    if !spec_key_is_derived(ctx.config_key@, program_address(config_seeds(), ctx.program_id@)) {
        Err(VoucherNftError::InvalidAccountArgument)
    } else if !spec_key_is_derived(ctx.vault_key@, program_address(vault_seeds(ctx.vault.seed@), ctx.program_id@)) {
        Err(VoucherNftError::InvalidAccountArgument)
    } else if !spec_key_is_derived(ctx.authorator_key@, program_address(authorator_seeds(), ctx.program_id@)) {
        Err(VoucherNftError::InvalidAccountArgument)
    } else if ctx.operator@ != ctx.vault.operator@ {
        Err(VoucherNftError::OnlyOperator)
    } else if ctx.vault_key@ == ctx.authorator_key@ {
        Err(VoucherNftError::InvalidAccountArgument)
    } else if ctx.collection_mint@ != ctx.config.collection@ {
        Err(VoucherNftError::InvalidAccountArgument)
    } else {
        Ok(())
    }
}

/// The seven calls that issue a voucher, in order: create the unit with
/// divisibility zero under the vault's authority; open the vault's holding of
/// it; mint one unit into that holding; write the descriptive record, with no
/// seller fee, the vault (share 0, verified by its own signature) and the
/// program signer (share 100, not yet verified) as creators and an unverified
/// collection claim; finalize the edition with no further prints; have the
/// program signer countersign; and verify the collection membership under the
/// program signer.
pub open spec fn is_mint_plan(calls: Seq<LedgerCall>, ctx: MintVoucher, params: MetadataParams) -> bool {
    &&& calls.len() == 7
    &&& calls[0] matches LedgerCall::InitializeMint { mint, decimals, mint_authority, freeze_authority }
        && mint@ == ctx.mint@ && decimals == 0 && mint_authority@ == ctx.vault_key@
        && freeze_authority@ == ctx.vault_key@
    &&& calls[1] matches LedgerCall::CreateHoldingAccount { mint, owner }
        && mint@ == ctx.mint@ && owner@ == ctx.vault_key@
    &&& calls[2] matches LedgerCall::MintTo { mint, owner, amount, signer }
        && mint@ == ctx.mint@ && owner@ == ctx.vault_key@ && amount == 1 && signer == CallSigner::Vault
    &&& calls[3] matches LedgerCall::CreateMetadata {
        metadata, mint, update_authority, name, symbol, uri, seller_fee_basis_points, creators, collection,
        is_mutable, signer }
        && metadata@ == ctx.metadata_account@ && mint@ == ctx.mint@ && update_authority@ == ctx.vault_key@
        && name@ == params.name@ && symbol@ == params.symbol@ && uri@ == params.uri@
        && seller_fee_basis_points == 0
        && creators_view(creators@) == seq![(ctx.vault_key@, true, 0u8), (ctx.authorator_key@, false, 100u8)]
        && collection is Some && collection->Some_0@ == ctx.collection_mint@
        && is_mutable && signer == CallSigner::Vault
    &&& calls[4] matches LedgerCall::CreateMasterEdition { edition, mint, metadata, authority, max_supply, signer }
        && edition@ == ctx.master_edition@ && mint@ == ctx.mint@ && metadata@ == ctx.metadata_account@
        && authority@ == ctx.vault_key@ && max_supply == Some(0u64) && signer == CallSigner::Vault
    &&& calls[5] matches LedgerCall::SignMetadata { metadata, creator, signer }
        && metadata@ == ctx.metadata_account@ && creator@ == ctx.authorator_key@ && signer == CallSigner::Authorator
    &&& calls[6] matches LedgerCall::VerifyCollection { metadata, collection_authority, collection_mint, signer }
        && metadata@ == ctx.metadata_account@ && collection_authority@ == ctx.authorator_key@
        && collection_mint@ == ctx.collection_mint@ && signer == CallSigner::Authorator
}

/// Issues a voucher: after the checks, the calls that create, fill, describe,
/// finalize and verify the new unit.
pub fn handler(ctx: &MintVoucher, params: &MetadataParams) -> (r: Result<Vec<LedgerCall>, VoucherNftError>)
    ensures
        match spec_checks(*ctx) {
            Err(e) => r == Err::<Vec<LedgerCall>, VoucherNftError>(e),
            Ok(_) => r is Ok && is_mint_plan(r->Ok_0@, *ctx, *params),
        },
{
    if !is_derived_key(&ctx.config_key, &config_address(&ctx.program_id)) {
        return Err(VoucherNftError::InvalidAccountArgument);
    }
    if !is_derived_key(&ctx.vault_key, &vault_address(&ctx.program_id, &ctx.vault.seed)) {
        return Err(VoucherNftError::InvalidAccountArgument);
    }
    if !is_derived_key(&ctx.authorator_key, &authorator_address(&ctx.program_id)) {
        return Err(VoucherNftError::InvalidAccountArgument);
    }
    if ctx.operator != ctx.vault.operator {
        return Err(VoucherNftError::OnlyOperator);
    }
    if ctx.vault_key == ctx.authorator_key {
        return Err(VoucherNftError::InvalidAccountArgument);
    }
    if ctx.collection_mint != ctx.config.collection {
        return Err(VoucherNftError::InvalidAccountArgument);
    }
    let mut creators: Vec<Creator> = Vec::new();
    creators.push(Creator { address: ctx.vault_key, verified: true, share: 0 });
    creators.push(Creator { address: ctx.authorator_key, verified: false, share: 100 });
    assert(creators_view(creators@) =~= seq![(ctx.vault_key@, true, 0u8), (ctx.authorator_key@, false, 100u8)]);
    let mut calls: Vec<LedgerCall> = Vec::new();
    calls.push(LedgerCall::InitializeMint {
        mint: ctx.mint,
        decimals: 0,
        mint_authority: ctx.vault_key,
        freeze_authority: ctx.vault_key,
    });
    calls.push(LedgerCall::CreateHoldingAccount { mint: ctx.mint, owner: ctx.vault_key });
    calls.push(LedgerCall::MintTo { mint: ctx.mint, owner: ctx.vault_key, amount: 1, signer: CallSigner::Vault });
    calls.push(LedgerCall::CreateMetadata {
        metadata: ctx.metadata_account,
        mint: ctx.mint,
        update_authority: ctx.vault_key,
        name: params.name.clone(),
        symbol: params.symbol.clone(),
        uri: params.uri.clone(),
        seller_fee_basis_points: 0,
        creators,
        collection: Some(ctx.collection_mint),
        is_mutable: true,
        signer: CallSigner::Vault,
    });
    calls.push(LedgerCall::CreateMasterEdition {
        edition: ctx.master_edition,
        mint: ctx.mint,
        metadata: ctx.metadata_account,
        authority: ctx.vault_key,
        max_supply: Some(0),
        signer: CallSigner::Vault,
    });
    calls.push(LedgerCall::SignMetadata {
        metadata: ctx.metadata_account,
        creator: ctx.authorator_key,
        signer: CallSigner::Authorator,
    });
    calls.push(LedgerCall::VerifyCollection {
        metadata: ctx.metadata_account,
        collection_authority: ctx.authorator_key,
        collection_mint: ctx.collection_mint,
        signer: CallSigner::Authorator,
    });
    Ok(calls)
}

} // verus!
