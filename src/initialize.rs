use vstd::prelude::*;
use crate::address::{
    Address, authorator_address, authorator_seeds, config_address, config_seeds, is_derived_key,
    program_address, spec_key_is_derived,
};
use crate::calls::{CallSigner, LedgerCall};
use crate::creators::{Creator, creators_view};
use crate::errors::VoucherNftError;
use crate::mint_voucher::MetadataParams;
use crate::state::{Authorator, Config};

verus! {

/// The accounts of the bootstrap instruction.
#[derive(Clone, Copy, Debug)]
pub struct Initialize {
    pub program_id: Address,
    /// Where the configuration goes, and whether that address already holds a record.
    pub config_key: Address,
    pub config_exists: bool,
    /// Where the program signer goes, and whether that address already holds a record.
    pub authorator_key: Address,
    pub authorator_exists: bool,
    /// The signer of the instruction, who becomes the administrator.
    pub admin: Address,
    /// The new collection asset and the registry records it is to get.
    pub collection_mint: Address,
    pub metadata_account: Address,
    pub master_edition: Address,
}

/// The records that bootstrap creates, and the calls that set up the
/// collection asset.
#[derive(Clone, Debug)]
pub struct Bootstrap {
    pub config: Config,
    pub authorator: Authorator,
    pub calls: Vec<LedgerCall>,
}

/// The checks of bootstrap, in order: the first that fails names the error.
pub open spec fn spec_checks(ctx: Initialize) -> Result<(), VoucherNftError> {
    if !spec_key_is_derived(ctx.config_key@, program_address(config_seeds(), ctx.program_id@)) {
        Err(VoucherNftError::InvalidAccountArgument)
    } else if ctx.config_exists {
        Err(VoucherNftError::AlreadyInitialized)
    } else if !spec_key_is_derived(ctx.authorator_key@, program_address(authorator_seeds(), ctx.program_id@)) {
        Err(VoucherNftError::InvalidAccountArgument)
    } else if ctx.authorator_exists {
        Err(VoucherNftError::AlreadyInitialized)
    } else {
        Ok(())
    }
}

/// The five calls that set up the collection asset: create it with
/// divisibility zero under the program signer; open the program signer's
/// holding of it; mint its one unit there; write its descriptive record, with
/// no seller fee and the program signer as the sole, verified creator;
/// finalize it with no further prints.
pub open spec fn is_bootstrap_plan(calls: Seq<LedgerCall>, ctx: Initialize, params: MetadataParams) -> bool {
    &&& calls.len() == 5
    &&& calls[0] matches LedgerCall::InitializeMint { mint, decimals, mint_authority, freeze_authority }
        && mint@ == ctx.collection_mint@ && decimals == 0 && mint_authority@ == ctx.authorator_key@
        && freeze_authority@ == ctx.authorator_key@
    &&& calls[1] matches LedgerCall::CreateHoldingAccount { mint, owner }
        && mint@ == ctx.collection_mint@ && owner@ == ctx.authorator_key@
    &&& calls[2] matches LedgerCall::MintTo { mint, owner, amount, signer }
        && mint@ == ctx.collection_mint@ && owner@ == ctx.authorator_key@ && amount == 1
        && signer == CallSigner::Authorator
    &&& calls[3] matches LedgerCall::CreateMetadata {
        metadata, mint, update_authority, name, symbol, uri, seller_fee_basis_points, creators, collection,
        is_mutable, signer }
        && metadata@ == ctx.metadata_account@ && mint@ == ctx.collection_mint@
        && update_authority@ == ctx.authorator_key@
        && name@ == params.name@ && symbol@ == params.symbol@ && uri@ == params.uri@
        && seller_fee_basis_points == 0
        && creators_view(creators@) == seq![(ctx.authorator_key@, true, 100u8)]
        && collection is None && is_mutable && signer == CallSigner::Authorator
    &&& calls[4] matches LedgerCall::CreateMasterEdition { edition, mint, metadata, authority, max_supply, signer }
        && edition@ == ctx.master_edition@ && mint@ == ctx.collection_mint@ && metadata@ == ctx.metadata_account@
        && authority@ == ctx.authorator_key@ && max_supply == Some(0u64) && signer == CallSigner::Authorator
}

/// Bootstraps the program: creates the configuration, binding the caller as
/// administrator and the new collection asset, and the program signer with
/// its nonce; then sets up the collection asset. A second bootstrap is
/// `AlreadyInitialized`.
pub fn handler(ctx: &Initialize, params: &MetadataParams) -> (r: Result<Bootstrap, VoucherNftError>)
    ensures
        match spec_checks(*ctx) {
            Err(e) => r is Err && r->Err_0 == e,
            Ok(_) => r is Ok && r->Ok_0.config.admin == ctx.admin
                && r->Ok_0.config.collection == ctx.collection_mint
                && program_address(authorator_seeds(), ctx.program_id@) == Some((ctx.authorator_key@, r->Ok_0.authorator.bump))
                && is_bootstrap_plan(r->Ok_0.calls@, *ctx, *params),
        },
{
    if !is_derived_key(&ctx.config_key, &config_address(&ctx.program_id)) {
        return Err(VoucherNftError::InvalidAccountArgument);
    }
    if ctx.config_exists {
        return Err(VoucherNftError::AlreadyInitialized);
    }
    let bump = match authorator_address(&ctx.program_id) {
        Some(d) => {
            if d.address != ctx.authorator_key {
                return Err(VoucherNftError::InvalidAccountArgument);
            }
            d.bump
        },
        None => return Err(VoucherNftError::InvalidAccountArgument),
    };
    if ctx.authorator_exists {
        return Err(VoucherNftError::AlreadyInitialized);
    }
    let mut authorator = Authorator { bump: 0 };
    authorator.initialize(bump)?;
    let mut config = Config { admin: Address::zeroed(), collection: Address::zeroed() };
    config.initialize(ctx.admin, ctx.collection_mint)?;

    let mut creators: Vec<Creator> = Vec::new();
    creators.push(Creator { address: ctx.authorator_key, verified: true, share: 100 });
    assert(creators_view(creators@) =~= seq![(ctx.authorator_key@, true, 100u8)]);
    let mut calls: Vec<LedgerCall> = Vec::new();
    calls.push(LedgerCall::InitializeMint {
        mint: ctx.collection_mint,
        decimals: 0,
        mint_authority: ctx.authorator_key,
        freeze_authority: ctx.authorator_key,
    });
    calls.push(LedgerCall::CreateHoldingAccount { mint: ctx.collection_mint, owner: ctx.authorator_key });
    calls.push(LedgerCall::MintTo {
        mint: ctx.collection_mint,
        owner: ctx.authorator_key,
        amount: 1,
        signer: CallSigner::Authorator,
    });
    calls.push(LedgerCall::CreateMetadata {
        metadata: ctx.metadata_account,
        mint: ctx.collection_mint,
        update_authority: ctx.authorator_key,
        name: params.name.clone(),
        symbol: params.symbol.clone(),
        uri: params.uri.clone(),
        seller_fee_basis_points: 0,
        creators,
        collection: None,
        is_mutable: true,
        signer: CallSigner::Authorator,
    });
    calls.push(LedgerCall::CreateMasterEdition {
        edition: ctx.master_edition,
        mint: ctx.collection_mint,
        metadata: ctx.metadata_account,
        authority: ctx.authorator_key,
        max_supply: Some(0),
        signer: CallSigner::Authorator,
    });
    Ok(Bootstrap { config, authorator, calls })
}

} // verus!
