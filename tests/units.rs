use anchor_lang::AnchorSerialize;
use mpl_token_metadata::accounts::Metadata;
use mpl_token_metadata::types::{Creator as MplCreator, Key};
use solana_program::pubkey::Pubkey;
use voucher_nft::address::{master_edition_address, metadata_address};
use voucher_nft::creators::{read_creators, Creator};
use voucher_nft::{AccountInput, Address};

pub fn addr(n: u8) -> Address {
    Address::new([n; 32])
}

pub fn creator(a: Address, verified: bool, share: u8) -> Creator {
    Creator { address: a, verified, share }
}

/// Borsh bytes of a descriptive record of `mint` with the given creator list.
pub fn metadata_bytes(mint: Address, creators: Option<Vec<(Address, bool, u8)>>) -> Vec<u8> {
    let record = Metadata {
        key: Key::MetadataV1,
        update_authority: Pubkey::new_from_array(mint.bytes),
        mint: Pubkey::new_from_array(mint.bytes),
        name: "Voucher".to_string(),
        symbol: "VC".to_string(),
        uri: "uri".to_string(),
        seller_fee_basis_points: 0,
        creators: creators.map(|cs| {
            cs.into_iter()
                .map(|(a, verified, share)| MplCreator {
                    address: Pubkey::new_from_array(a.bytes),
                    verified,
                    share,
                })
                .collect()
        }),
        primary_sale_happened: false,
        is_mutable: true,
        edition_nonce: None,
        token_standard: None,
        collection: None,
        uses: None,
        collection_details: None,
        programmable_config: None,
    };
    record.try_to_vec().unwrap()
}

/// The registry records of `mint`, at their derived addresses.
pub fn registry_accounts(mint: Address, creators: Option<Vec<(Address, bool, u8)>>) -> (AccountInput, AccountInput) {
    let metadata = AccountInput {
        key: metadata_address(&mint).unwrap().address,
        data: metadata_bytes(mint, creators),
    };
    let edition = AccountInput { key: master_edition_address(&mint).unwrap().address, data: vec![6u8; 8] };
    (metadata, edition)
}

#[test]
fn read_creators_decodes_registry_bytes() {
    let bytes = metadata_bytes(addr(9), Some(vec![(addr(1), true, 0), (addr(2), false, 100)]));
    let decoded = read_creators(&bytes).unwrap();
    assert_eq!(decoded, Some(vec![creator(addr(1), true, 0), creator(addr(2), false, 100)]));
}

#[test]
fn read_creators_without_list() {
    let bytes = metadata_bytes(addr(9), None);
    assert_eq!(read_creators(&bytes).unwrap(), None);
}

#[test]
fn read_creators_refuses_garbage() {
    assert_eq!(read_creators(&vec![4u8, 1, 2]), Err(voucher_nft::VoucherNftError::InvalidAccountArgument));
    assert_eq!(read_creators(&Vec::new()), Err(voucher_nft::VoucherNftError::InvalidAccountArgument));
}

use voucher_nft::address::{
    authorator_address, check_derived_account, config_address, repay_voucher_address, token_metadata_program_id,
    vault_address,
};
use voucher_nft::creators::{find_creator, is_signed_by, verify_creators, REQUIRE_VAULT_VERIFIED};
use voucher_nft::errors::ErrorKind;
use voucher_nft::state::{Authorator, Config, RepayVoucher, Vault};
use voucher_nft::VoucherNftError;

fn pda(seeds: &[&[u8]], program: &Address) -> (Address, u8) {
    let (k, b) = Pubkey::find_program_address(seeds, &Pubkey::new_from_array(program.bytes));
    (Address::new(k.to_bytes()), b)
}

#[test]
fn error_codes_kinds_and_messages() {
    assert_eq!(VoucherNftError::OnlyAdmin.code(), 6000);
    assert_eq!(VoucherNftError::StartTimeBeforeCurrentTime.code(), 6009);
    assert_eq!(VoucherNftError::AccountAlreadyInUse.code(), 6013);
    assert_eq!(VoucherNftError::OnlyOperator.kind(), ErrorKind::Authorization);
    assert_eq!(VoucherNftError::VaultNotSigned.kind(), ErrorKind::Integrity);
    assert_eq!(VoucherNftError::SeedTooLong.kind(), ErrorKind::Validation);
    assert_eq!(VoucherNftError::AlreadyInitialized.kind(), ErrorKind::Existence);
    assert_eq!(VoucherNftError::OnlyAdmin.message(), "Only Admin");
    assert_eq!(VoucherNftError::StartTimeAfterEndTime.message(), "StartTime After EndTime");
}

#[test]
fn derivations_match_the_ledger() {
    let program = addr(7);
    let vault = vault_address(&program, &"promo-2024".to_string()).unwrap();
    assert_eq!((vault.address, vault.bump), pda(&[b"VAULT", b"promo-2024"], &program));
    let config = config_address(&program).unwrap();
    assert_eq!((config.address, config.bump), pda(&[b"CONFIG"], &program));
    let authorator = authorator_address(&program).unwrap();
    assert_eq!((authorator.address, authorator.bump), pda(&[b"AUTHORATOR"], &program));
    let mint = addr(3);
    let repay = repay_voucher_address(&program, &mint).unwrap();
    assert_eq!((repay.address, repay.bump), pda(&[b"REPAY_VOUCHER", &mint.bytes], &program));
    let registry = token_metadata_program_id();
    let metadata = metadata_address(&mint).unwrap();
    assert_eq!((metadata.address, metadata.bump), pda(&[b"metadata", &registry.bytes, &mint.bytes], &registry));
    let edition = master_edition_address(&mint).unwrap();
    assert_eq!(
        (edition.address, edition.bump),
        pda(&[b"metadata", &registry.bytes, &mint.bytes, b"edition"], &registry)
    );
    assert_ne!(vault.address, program);
}

#[test]
fn metadata_program_identity() {
    let id = token_metadata_program_id();
    let expected: Pubkey = "metaXfaoQatFJP9xiuYRsKkHYgS5NqqcfxFbLGS5LdN".parse().unwrap();
    assert_eq!(id.bytes, expected.to_bytes());
}

#[test]
fn distinct_seeds_give_distinct_vault_addresses() {
    let program = addr(7);
    let a = vault_address(&program, &"alpha".to_string()).unwrap();
    let b = vault_address(&program, &"beta".to_string()).unwrap();
    assert_ne!(a.address, b.address);
    let again = vault_address(&program, &"alpha".to_string()).unwrap();
    assert_eq!(a.address, again.address);
    assert_eq!(a.bump, again.bump);
}

#[test]
fn over_long_seed_has_no_derivation() {
    let program = addr(7);
    assert!(vault_address(&program, &"x".repeat(33)).is_none());
    assert!(vault_address(&program, &"x".repeat(32)).is_some());
}

#[test]
fn derived_account_check_outcomes() {
    let mint = addr(3);
    let expected = metadata_address(&mint);
    let right = expected.unwrap().address;
    assert_eq!(check_derived_account(&right, false, expected), Ok(()));
    assert_eq!(check_derived_account(&right, true, expected), Err(VoucherNftError::AccountNotInitialized));
    assert_eq!(check_derived_account(&addr(4), false, expected), Err(VoucherNftError::InvalidAccountArgument));
    assert_eq!(check_derived_account(&addr(4), true, expected), Err(VoucherNftError::InvalidAccountArgument));
    assert_eq!(check_derived_account(&right, false, None), Err(VoucherNftError::InvalidAccountArgument));
}

#[test]
fn vault_seed_length_is_counted_in_bytes() {
    let mut vault = Vault { operator: addr(0), seed: String::new(), bump: 0 };
    assert_eq!(vault.initialize(addr(5), "a".repeat(32), 254), Ok(()));
    assert_eq!(vault.operator, addr(5));
    assert_eq!(vault.seed, "a".repeat(32));
    assert_eq!(vault.bump, 254);
    let mut other = Vault { operator: addr(0), seed: String::new(), bump: 0 };
    assert_eq!(other.initialize(addr(5), "a".repeat(33), 1), Err(VoucherNftError::SeedTooLong));
    assert_eq!(other.seed, "");
    assert_eq!(other.operator, addr(0));
    let mut wide = Vault { operator: addr(0), seed: String::new(), bump: 0 };
    assert_eq!(wide.initialize(addr(5), "é".repeat(17), 1), Err(VoucherNftError::SeedTooLong));
    assert_eq!(wide.initialize(addr(5), "é".repeat(16), 1), Ok(()));
}

#[test]
fn config_and_authorator_initialize() {
    let mut config = Config { admin: addr(0), collection: addr(0) };
    assert_eq!(config.initialize(addr(1), addr(2)), Ok(()));
    assert_eq!(config, Config { admin: addr(1), collection: addr(2) });
    let mut authorator = Authorator { bump: 0 };
    assert_eq!(authorator.initialize(253), Ok(()));
    assert_eq!(authorator.bump, 253);
}

#[test]
fn terms_rules_each_name_their_error() {
    let now = 1_000;
    assert_eq!(RepayVoucher::assert_data_is_valid(500, 100, now + 10, now + 100, now), Ok(()));
    assert_eq!(RepayVoucher::assert_data_is_valid(10_000, 1, now, now + 1, now), Ok(()));
    assert_eq!(
        RepayVoucher::assert_data_is_valid(10_001, 100, now + 10, now + 100, now),
        Err(VoucherNftError::InvalidDiscountPercentage)
    );
    assert_eq!(
        RepayVoucher::assert_data_is_valid(500, 0, now + 10, now + 100, now),
        Err(VoucherNftError::InvalidMaximumAmount)
    );
    assert_eq!(
        RepayVoucher::assert_data_is_valid(500, 100, now + 100, now + 100, now),
        Err(VoucherNftError::StartTimeAfterEndTime)
    );
    assert_eq!(
        RepayVoucher::assert_data_is_valid(500, 100, now + 101, now + 100, now),
        Err(VoucherNftError::StartTimeAfterEndTime)
    );
    assert_eq!(
        RepayVoucher::assert_data_is_valid(500, 100, now - 1, now + 100, now),
        Err(VoucherNftError::StartTimeBeforeCurrentTime)
    );
    assert_eq!(
        RepayVoucher::assert_data_is_valid(10_001, 0, now - 1, now - 2, now),
        Err(VoucherNftError::InvalidDiscountPercentage)
    );
}

#[test]
fn repay_voucher_initialize_stores_or_keeps() {
    let blank = RepayVoucher {
        discount_percentage: 0,
        maximum_amount: 0,
        start_time: 0,
        end_time: 0,
        nft_mint: addr(0),
        authorator: addr(0),
    };
    let mut terms = blank;
    assert_eq!(terms.initialize(500, 100, 10, 100, addr(3), addr(4), 0), Ok(()));
    assert_eq!(
        terms,
        RepayVoucher {
            discount_percentage: 500,
            maximum_amount: 100,
            start_time: 10,
            end_time: 100,
            nft_mint: addr(3),
            authorator: addr(4),
        }
    );
    let mut refused = blank;
    assert_eq!(
        refused.initialize(500, 100, 10, 100, addr(3), addr(4), 11),
        Err(VoucherNftError::StartTimeBeforeCurrentTime)
    );
    assert_eq!(refused, blank);
}

#[test]
fn creator_lookup_takes_the_first_entry() {
    let list = vec![creator(addr(1), false, 0), creator(addr(2), true, 50), creator(addr(1), true, 50)];
    assert_eq!(find_creator(&list, &addr(1)), Some(0));
    assert_eq!(find_creator(&list, &addr(2)), Some(1));
    assert_eq!(find_creator(&list, &addr(3)), None);
    assert!(!is_signed_by(&list, &addr(1)));
    assert!(is_signed_by(&list, &addr(2)));
    assert!(!is_signed_by(&list, &addr(3)));
}

#[test]
fn creator_check_outcomes() {
    let authorator = addr(1);
    let vault = addr(2);
    let both = Some(vec![creator(vault, true, 0), creator(authorator, true, 100)]);
    assert_eq!(verify_creators(&both, &authorator, &vault, REQUIRE_VAULT_VERIFIED), Ok(()));
    assert_eq!(verify_creators(&None, &authorator, &vault, true), Err(VoucherNftError::AuthoratorNotSigned));
    let unsigned = Some(vec![creator(vault, true, 0), creator(authorator, false, 100)]);
    assert_eq!(verify_creators(&unsigned, &authorator, &vault, true), Err(VoucherNftError::AuthoratorNotSigned));
    let missing = Some(vec![creator(vault, true, 0)]);
    assert_eq!(verify_creators(&missing, &authorator, &vault, true), Err(VoucherNftError::AuthoratorNotSigned));
    let vault_unsigned = Some(vec![creator(vault, false, 0), creator(authorator, true, 100)]);
    assert_eq!(verify_creators(&vault_unsigned, &authorator, &vault, true), Err(VoucherNftError::VaultNotSigned));
    assert_eq!(verify_creators(&vault_unsigned, &authorator, &vault, false), Ok(()));
    let no_vault = Some(vec![creator(authorator, true, 100)]);
    assert_eq!(verify_creators(&no_vault, &authorator, &vault, true), Err(VoucherNftError::VaultNotSigned));
}
