use vstd::prelude::*;
use crate::address::{
    AccountInput, Address, authorator_address, authorator_seeds, check_derived_account,
    is_derived_key, master_edition_address, master_edition_seeds, metadata_address, metadata_seeds,
    program_address, repay_voucher_address, repay_voucher_seeds, spec_check_derived_account,
    spec_key_is_derived, token_metadata_program_bytes, vault_address, vault_seeds,
};
use crate::creators::{REQUIRE_VAULT_VERIFIED, decoded_creators, read_creators, spec_verify_creators, verify_creators};
use crate::errors::VoucherNftError;
use crate::state::{AddRepayVoucherParams, RepayVoucher, RepayVoucherView, Vault, VaultView, spec_validate_terms};

verus! {

/// The accounts of the instruction that attaches redemption terms to a voucher.
#[derive(Clone, Debug)]
pub struct AddRepayVoucher {
    /// This program's identity.
    pub program_id: Address,
    /// The vault the voucher was issued under, and its address.
    pub vault_key: Address,
    pub vault: Vault,
    /// The signer of the instruction.
    pub operator: Address,
    /// The voucher's unit.
    pub mint: Address,
    /// The registry's descriptive record of the voucher.
    pub metadata_account: AccountInput,
    /// The registry's edition record of the voucher.
    pub master_edition: AccountInput,
    /// Where the terms are to be stored, and whether that address already holds a record.
    pub repay_voucher_key: Address,
    pub repay_voucher_exists: bool,
    /// The ledger's clock.
    pub current_time: i64,
}

/// The accounts of the instruction as the contracts see them.
pub ghost struct AddRepayVoucherView {
    pub program_id: Seq<u8>,
    pub vault_key: Seq<u8>,
    pub vault: VaultView,
    pub operator: Seq<u8>,
    pub mint: Seq<u8>,
    pub metadata_key: Seq<u8>,
    pub metadata_data: Seq<u8>,
    pub edition_key: Seq<u8>,
    pub edition_data: Seq<u8>,
    pub repay_voucher_key: Seq<u8>,
    pub repay_voucher_exists: bool,
    pub current_time: i64,
}

impl View for AddRepayVoucher {
    type V = AddRepayVoucherView;

    open spec fn view(&self) -> AddRepayVoucherView {
        AddRepayVoucherView {
            program_id: self.program_id@,
            vault_key: self.vault_key@,
            vault: self.vault@,
            operator: self.operator@,
            mint: self.mint@,
            metadata_key: self.metadata_account.key@,
            metadata_data: self.metadata_account.data@,
            edition_key: self.master_edition.key@,
            edition_data: self.master_edition.data@,
            repay_voucher_key: self.repay_voucher_key@,
            repay_voucher_exists: self.repay_voucher_exists,
            current_time: self.current_time,
        }
    }
}

/// What attaching `params` with the accounts `ctx` gives: the checks run in
/// this order and the first that fails names the error.
pub open spec fn spec_handler(ctx: AddRepayVoucherView, params: AddRepayVoucherParams) -> Result<RepayVoucherView, VoucherNftError> {
    let metadata = spec_check_derived_account(ctx.metadata_key, ctx.metadata_data.len() == 0,
        program_address(metadata_seeds(ctx.mint), token_metadata_program_bytes()));
    let edition = spec_check_derived_account(ctx.edition_key, ctx.edition_data.len() == 0,
        program_address(master_edition_seeds(ctx.mint), token_metadata_program_bytes()));
    if !spec_key_is_derived(ctx.vault_key, program_address(vault_seeds(ctx.vault.1), ctx.program_id)) {
        Err(VoucherNftError::InvalidAccountArgument)
    } else if ctx.operator != ctx.vault.0 {
        Err(VoucherNftError::OnlyOperator)
    } else if !spec_key_is_derived(ctx.repay_voucher_key, program_address(repay_voucher_seeds(ctx.mint), ctx.program_id)) {
        Err(VoucherNftError::InvalidAccountArgument)
    } else if ctx.repay_voucher_exists {
        Err(VoucherNftError::AccountAlreadyInUse)
    } else if metadata is Err {
        Err(metadata->Err_0)
    } else if edition is Err {
        Err(edition->Err_0)
    } else {
        match (program_address(authorator_seeds(), ctx.program_id), decoded_creators(ctx.metadata_data)) {
            (None, _) => Err(VoucherNftError::InvalidAccountArgument),
            (_, None) => Err(VoucherNftError::InvalidAccountArgument),
            (Some(authorator), Some(creators)) => {
                let signed = spec_verify_creators(creators, authorator.0, ctx.vault_key, REQUIRE_VAULT_VERIFIED);
                let terms = spec_validate_terms(params.discount_percentage, params.maximum_amount,
                    params.start_time, params.end_time, ctx.current_time);
                if signed is Err {
                    Err(signed->Err_0)
                } else if terms is Err {
                    Err(terms->Err_0)
                } else {
                    Ok((params.discount_percentage, params.maximum_amount, params.start_time, params.end_time, ctx.mint, authorator.0))
                }
            },
        }
    }
}

pub open spec fn result_view(r: Result<RepayVoucher, VoucherNftError>) -> Result<RepayVoucherView, VoucherNftError> {
    match r {
        Ok(v) => Ok(v@),
        Err(e) => Err(e),
    }
}

/// Attaches redemption terms to a voucher: the vault and the caller are
/// checked, then the registry records of the voucher are re-derived and
/// checked, then the creator list must carry the program signer (and the
/// vault) verified, and last the terms themselves must hold.
pub fn handler(ctx: &AddRepayVoucher, params: AddRepayVoucherParams) -> (r: Result<RepayVoucher, VoucherNftError>)
    ensures
        result_view(r) == spec_handler(ctx@, params),
{
    let vault_derived = vault_address(&ctx.program_id, &ctx.vault.seed);
    if !is_derived_key(&ctx.vault_key, &vault_derived) {
        return Err(VoucherNftError::InvalidAccountArgument);
    }
    if ctx.operator != ctx.vault.operator {
        return Err(VoucherNftError::OnlyOperator);
    }
    let repay_derived = repay_voucher_address(&ctx.program_id, &ctx.mint);
    if !is_derived_key(&ctx.repay_voucher_key, &repay_derived) {
        return Err(VoucherNftError::InvalidAccountArgument);
    }
    if ctx.repay_voucher_exists {
        return Err(VoucherNftError::AccountAlreadyInUse);
    }
    check_derived_account(
        &ctx.metadata_account.key,
        ctx.metadata_account.data.len() == 0,
        metadata_address(&ctx.mint),
    )?;
    check_derived_account(
        &ctx.master_edition.key,
        ctx.master_edition.data.len() == 0,
        master_edition_address(&ctx.mint),
    )?;
    let authorator = match authorator_address(&ctx.program_id) {
        Some(d) => d.address,
        None => return Err(VoucherNftError::InvalidAccountArgument),
    };
    let creators = read_creators(&ctx.metadata_account.data)?;
    verify_creators(&creators, &authorator, &ctx.vault_key, REQUIRE_VAULT_VERIFIED)?;
    let mut repay_voucher = RepayVoucher {
        discount_percentage: 0,
        maximum_amount: 0,
        start_time: 0,
        end_time: 0,
        nft_mint: Address::zeroed(),
        authorator: Address::zeroed(),
    };
    repay_voucher.initialize(
        params.discount_percentage,
        params.maximum_amount,
        params.start_time,
        params.end_time,
        ctx.mint,
        authorator,
        ctx.current_time,
    )?;
    Ok(repay_voucher)
}

} // verus!
