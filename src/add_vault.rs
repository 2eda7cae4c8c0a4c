use vstd::prelude::*;
use crate::address::{
    Address, config_address, config_seeds, is_derived_key, program_address, spec_key_is_derived,
    vault_address, vault_seeds,
};
use crate::errors::VoucherNftError;
use crate::state::{Config, Vault, VaultView, seed_fits};

verus! {

/// The accounts of the instruction that provisions a vault.
#[derive(Clone, Copy, Debug)]
pub struct AddVault {
    pub program_id: Address,
    pub config_key: Address,
    pub config: Config,
    /// The signer of the instruction.
    pub admin: Address,
    /// Where the vault is to be stored, and whether that address already holds a record.
    pub vault_key: Address,
    pub vault_exists: bool,
}

/// The accounts of the instruction as the contracts see them.
pub ghost struct AddVaultView {
    pub program_id: Seq<u8>,
    pub config_key: Seq<u8>,
    pub admin_of_config: Seq<u8>,
    pub admin: Seq<u8>,
    pub vault_key: Seq<u8>,
    pub vault_exists: bool,
}

impl View for AddVault {
    type V = AddVaultView;

    open spec fn view(&self) -> AddVaultView {
        AddVaultView {
            program_id: self.program_id@,
            config_key: self.config_key@,
            admin_of_config: self.config.admin@,
            admin: self.admin@,
            vault_key: self.vault_key@,
            vault_exists: self.vault_exists,
        }
    }
}

/// What provisioning the vault `seed` for `operator` gives: the checks run in
/// this order and the first that fails names the error.
pub open spec fn spec_handler(ctx: AddVaultView, seed: Seq<char>, operator: Seq<u8>) -> Result<VaultView, VoucherNftError> {
    if !spec_key_is_derived(ctx.config_key, program_address(config_seeds(), ctx.program_id)) {
        Err(VoucherNftError::InvalidAccountArgument)
    } else if ctx.admin != ctx.admin_of_config {
        Err(VoucherNftError::OnlyAdmin)
    } else if !seed_fits(seed) {
        Err(VoucherNftError::SeedTooLong)
    } else if !spec_key_is_derived(ctx.vault_key, program_address(vault_seeds(seed), ctx.program_id)) {
        Err(VoucherNftError::InvalidAccountArgument)
    } else if ctx.vault_exists {
        Err(VoucherNftError::AccountAlreadyInUse)
    } else {
        Ok((operator, seed, program_address(vault_seeds(seed), ctx.program_id)->Some_0.1))
    }
}

pub open spec fn vault_result_view(r: Result<Vault, VoucherNftError>) -> Result<VaultView, VoucherNftError> {
    match r {
        Ok(v) => Ok(v@),
        Err(e) => Err(e),
    }
}

/// Provisions the vault named `seed`, run by `operator`. Only the
/// administrator may; the seed must fit in 32 bytes; the vault's address must
/// be the one derived from the seed and must not hold a record yet.
pub fn handler(ctx: &AddVault, seed: String, operator: Address) -> (r: Result<Vault, VoucherNftError>)
    ensures
        vault_result_view(r) == spec_handler(ctx@, seed@, operator@),
{
    if !is_derived_key(&ctx.config_key, &config_address(&ctx.program_id)) {
        return Err(VoucherNftError::InvalidAccountArgument);
    }
    if ctx.admin != ctx.config.admin {
        return Err(VoucherNftError::OnlyAdmin);
    }
    let mut vault = Vault { operator: Address::zeroed(), seed: String::new(), bump: 0 };
    if seed.as_str().as_bytes().len() > crate::address::MAX_SEED_LEN {
        return Err(VoucherNftError::SeedTooLong);
    }
    let derived = vault_address(&ctx.program_id, &seed);
    let bump = match derived {
        Some(d) => {
            if d.address != ctx.vault_key {
                return Err(VoucherNftError::InvalidAccountArgument);
            }
            d.bump
        },
        None => return Err(VoucherNftError::InvalidAccountArgument),
    };
    if ctx.vault_exists {
        return Err(VoucherNftError::AccountAlreadyInUse);
    }
    vault.initialize(operator, seed, bump)?;
    Ok(vault)
}

} // verus!
