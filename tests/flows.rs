use anchor_lang::AnchorSerialize;
use mpl_token_metadata::accounts::Metadata;
use mpl_token_metadata::types::{Creator as MplCreator, Key};
use solana_program::pubkey::Pubkey;
use voucher_nft::address::{authorator_address, master_edition_address, metadata_address, repay_voucher_address, vault_address};
use voucher_nft::{
    AccountInput, AddRepayVoucherParams, Address, CallSigner, LedgerCall, MetadataParams, MintInfo, OperatorAirdrop,
    ProgramAccounts, Record, TokenHolding, VoucherNftError,
};

const PROGRAM: u8 = 7;
const ADMIN: u8 = 10;
const OP_A: u8 = 11;
const OP_B: u8 = 12;
const COLLECTION: u8 = 20;
const MINT: u8 = 30;
const T: i64 = 1_700_000_000;

fn addr(n: u8) -> Address {
    Address::new([n; 32])
}

fn params() -> MetadataParams {
    MetadataParams { name: "Voucher".to_string(), symbol: "VC".to_string(), uri: "uri".to_string() }
}

fn metadata_bytes(mint: Address, creators: Option<Vec<(Address, bool, u8)>>) -> Vec<u8> {
    let record = Metadata {
        key: Key::MetadataV1,
        update_authority: Pubkey::new_from_array(mint.bytes),
        mint: Pubkey::new_from_array(mint.bytes),
        name: "Voucher".to_string(),
        symbol: "VC".to_string(),
        uri: "uri".to_string(),
        seller_fee_basis_points: 0,
        creators: creators.map(|cs| {
            cs.into_iter()
                .map(|(a, verified, share)| MplCreator { address: Pubkey::new_from_array(a.bytes), verified, share })
                .collect()
        }),
        primary_sale_happened: false,
        is_mutable: true,
        edition_nonce: None,
        token_standard: None,
        collection: None,
        uses: None,
        collection_details: None,
        programmable_config: None,
    };
    record.try_to_vec().unwrap()
}

fn registry_accounts(mint: Address, creators: Option<Vec<(Address, bool, u8)>>) -> (AccountInput, AccountInput) {
    let metadata = AccountInput { key: metadata_address(&mint).unwrap().address, data: metadata_bytes(mint, creators) };
    let edition = AccountInput { key: master_edition_address(&mint).unwrap().address, data: vec![6u8; 8] };
    (metadata, edition)
}

fn authorator() -> Address {
    authorator_address(&addr(PROGRAM)).unwrap().address
}

/// A bootstrapped deployment with the vault "promo-2024" run by `OP_A`.
fn deployment() -> (ProgramAccounts, Address) {
    let mut accounts = ProgramAccounts::new(addr(PROGRAM));
    accounts.bootstrap(addr(ADMIN), addr(COLLECTION), addr(21), addr(22), &params()).unwrap();
    let vault = accounts.add_vault(addr(ADMIN), "promo-2024".to_string(), addr(OP_A)).unwrap();
    (accounts, vault)
}

fn signed_accounts(vault: Address) -> (AccountInput, AccountInput) {
    registry_accounts(addr(MINT), Some(vec![(vault, true, 0), (authorator(), true, 100)]))
}

fn terms(discount: u16, max: u32, start: i64, end: i64) -> AddRepayVoucherParams {
    AddRepayVoucherParams { discount_percentage: discount, maximum_amount: max, start_time: start, end_time: end }
}

#[test]
fn bootstrap_sets_up_the_collection() {
    let mut accounts = ProgramAccounts::new(addr(PROGRAM));
    let calls = accounts.bootstrap(addr(ADMIN), addr(COLLECTION), addr(21), addr(22), &params()).unwrap();
    assert_eq!(calls.len(), 5);
    match &calls[1] {
        LedgerCall::CreateHoldingAccount { mint, owner } => {
            assert_eq!(*mint, addr(COLLECTION));
            assert_eq!(*owner, authorator());
        }
        other => panic!("unexpected call {:?}", other),
    }
    match &calls[2] {
        LedgerCall::MintTo { mint, owner, amount, signer } => {
            assert_eq!(*mint, addr(COLLECTION));
            assert_eq!(*owner, authorator());
            assert_eq!(*amount, 1);
            assert_eq!(*signer, CallSigner::Authorator);
        }
        other => panic!("unexpected call {:?}", other),
    }
    match &calls[3] {
        LedgerCall::CreateMetadata { creators, collection, seller_fee_basis_points, .. } => {
            assert_eq!(*seller_fee_basis_points, 0);
            assert_eq!(creators.len(), 1);
            assert_eq!(creators[0].address, authorator());
            assert!(creators[0].verified);
            assert_eq!(creators[0].share, 100);
            assert!(collection.is_none());
        }
        other => panic!("unexpected call {:?}", other),
    }
    match &calls[4] {
        LedgerCall::CreateMasterEdition { max_supply, .. } => assert_eq!(*max_supply, Some(0)),
        other => panic!("unexpected call {:?}", other),
    }
}

#[test]
fn second_bootstrap_is_already_initialized() {
    let mut accounts = ProgramAccounts::new(addr(PROGRAM));
    accounts.bootstrap(addr(ADMIN), addr(COLLECTION), addr(21), addr(22), &params()).unwrap();
    assert_eq!(
        accounts.bootstrap(addr(OP_A), addr(23), addr(24), addr(25), &params()).unwrap_err(),
        VoucherNftError::AlreadyInitialized
    );
}

#[test]
fn add_vault_stores_operator_and_seed() {
    let (accounts, vault) = deployment();
    assert_eq!(vault, vault_address(&addr(PROGRAM), &"promo-2024".to_string()).unwrap().address);
    match accounts.get(&vault) {
        Some(Record::Vault(v)) => {
            assert_eq!(v.operator, addr(OP_A));
            assert_eq!(v.seed, "promo-2024");
            assert_eq!(v.bump, vault_address(&addr(PROGRAM), &"promo-2024".to_string()).unwrap().bump);
        }
        _ => panic!("no vault stored"),
    }
}

#[test]
fn add_vault_same_seed_twice_fails() {
    let (mut accounts, _) = deployment();
    assert_eq!(
        accounts.add_vault(addr(ADMIN), "promo-2024".to_string(), addr(OP_B)),
        Err(VoucherNftError::AccountAlreadyInUse)
    );
}

#[test]
fn add_vault_distinct_seeds_distinct_addresses() {
    let (mut accounts, first) = deployment();
    let second = accounts.add_vault(addr(ADMIN), "promo-2025".to_string(), addr(OP_B)).unwrap();
    assert_ne!(first, second);
    assert!(matches!(accounts.get(&first), Some(Record::Vault(_))));
    assert!(matches!(accounts.get(&second), Some(Record::Vault(_))));
}

#[test]
fn add_vault_only_admin() {
    let (mut accounts, _) = deployment();
    assert_eq!(accounts.add_vault(addr(OP_A), "other".to_string(), addr(OP_A)), Err(VoucherNftError::OnlyAdmin));
}

#[test]
fn add_vault_seed_too_long() {
    let (mut accounts, _) = deployment();
    assert_eq!(accounts.add_vault(addr(ADMIN), "s".repeat(33), addr(OP_A)), Err(VoucherNftError::SeedTooLong));
}

#[test]
fn add_vault_before_bootstrap() {
    let mut accounts = ProgramAccounts::new(addr(PROGRAM));
    assert_eq!(
        accounts.add_vault(addr(ADMIN), "promo".to_string(), addr(OP_A)),
        Err(VoucherNftError::AccountNotInitialized)
    );
}

#[test]
fn mint_voucher_by_operator_then_by_stranger() {
    let (accounts, vault) = deployment();
    let calls = accounts.mint_voucher(addr(OP_A), vault, addr(MINT), addr(31), addr(32), &params()).unwrap();
    assert_eq!(calls.len(), 7);
    match &calls[0] {
        LedgerCall::InitializeMint { mint, decimals, mint_authority, freeze_authority } => {
            assert_eq!(*mint, addr(MINT));
            assert_eq!(*decimals, 0);
            assert_eq!(*mint_authority, vault);
            assert_eq!(*freeze_authority, vault);
        }
        other => panic!("unexpected call {:?}", other),
    }
    match &calls[1] {
        LedgerCall::CreateHoldingAccount { mint, owner } => {
            assert_eq!(*mint, addr(MINT));
            assert_eq!(*owner, vault);
        }
        other => panic!("unexpected call {:?}", other),
    }
    match &calls[2] {
        LedgerCall::MintTo { amount, owner, .. } => {
            assert_eq!(*amount, 1);
            assert_eq!(*owner, vault);
        }
        other => panic!("unexpected call {:?}", other),
    }
    match &calls[3] {
        LedgerCall::CreateMetadata { name, symbol, uri, seller_fee_basis_points, creators, collection, .. } => {
            assert_eq!(*seller_fee_basis_points, 0);
            assert_eq!(name, "Voucher");
            assert_eq!(symbol, "VC");
            assert_eq!(uri, "uri");
            assert_eq!(creators.len(), 2);
            assert_eq!((creators[0].address, creators[0].verified, creators[0].share), (vault, true, 0));
            assert_eq!((creators[1].address, creators[1].verified, creators[1].share), (authorator(), false, 100));
            assert_eq!(*collection, Some(addr(COLLECTION)));
        }
        other => panic!("unexpected call {:?}", other),
    }
    match &calls[4] {
        LedgerCall::CreateMasterEdition { max_supply, .. } => assert_eq!(*max_supply, Some(0)),
        other => panic!("unexpected call {:?}", other),
    }
    match &calls[5] {
        LedgerCall::SignMetadata { creator, signer, .. } => {
            assert_eq!(*creator, authorator());
            assert_eq!(*signer, CallSigner::Authorator);
        }
        other => panic!("unexpected call {:?}", other),
    }
    match &calls[6] {
        LedgerCall::VerifyCollection { collection_mint, .. } => assert_eq!(*collection_mint, addr(COLLECTION)),
        other => panic!("unexpected call {:?}", other),
    }
    assert_eq!(
        accounts.mint_voucher(addr(OP_B), vault, addr(MINT), addr(31), addr(32), &params()).unwrap_err(),
        VoucherNftError::OnlyOperator
    );
    assert_eq!(
        accounts.mint_voucher(addr(ADMIN), vault, addr(MINT), addr(31), addr(32), &params()).unwrap_err(),
        VoucherNftError::OnlyOperator
    );
}

#[test]
fn repay_voucher_scenario() {
    let (mut accounts, vault) = deployment();
    let (metadata, edition) = signed_accounts(vault);
    assert_eq!(
        accounts.add_repay_voucher(addr(OP_A), vault, addr(MINT), metadata.clone(), edition.clone(), terms(10_001, 100, T + 10, T + 100), T),
        Err(VoucherNftError::InvalidDiscountPercentage)
    );
    let key = accounts
        .add_repay_voucher(addr(OP_A), vault, addr(MINT), metadata.clone(), edition.clone(), terms(500, 100, T + 10, T + 100), T)
        .unwrap();
    assert_eq!(key, repay_voucher_address(&addr(PROGRAM), &addr(MINT)).unwrap().address);
    let first = match accounts.get(&key) {
        Some(Record::RepayVoucher(r)) => *r,
        _ => panic!("no terms stored"),
    };
    assert_eq!(first.discount_percentage, 500);
    assert_eq!(first.maximum_amount, 100);
    assert_eq!(first.start_time, T + 10);
    assert_eq!(first.end_time, T + 100);
    assert_eq!(first.nft_mint, addr(MINT));
    assert_eq!(first.authorator, authorator());
    let second = match accounts.get(&key) {
        Some(Record::RepayVoucher(r)) => *r,
        _ => panic!("no terms stored"),
    };
    assert_eq!(first, second);
    assert_eq!(
        accounts.add_repay_voucher(addr(OP_A), vault, addr(MINT), metadata, edition, terms(500, 100, T + 10, T + 100), T),
        Err(VoucherNftError::AccountAlreadyInUse)
    );
}

#[test]
fn repay_voucher_term_errors() {
    let (mut accounts, vault) = deployment();
    let (metadata, edition) = signed_accounts(vault);
    let cases = [
        (terms(500, 0, T + 10, T + 100), VoucherNftError::InvalidMaximumAmount),
        (terms(500, 100, T + 100, T + 100), VoucherNftError::StartTimeAfterEndTime),
        (terms(500, 100, T - 1, T + 100), VoucherNftError::StartTimeBeforeCurrentTime),
    ];
    for (t, e) in cases {
        assert_eq!(accounts.add_repay_voucher(addr(OP_A), vault, addr(MINT), metadata.clone(), edition.clone(), t, T), Err(e));
    }
}

#[test]
fn repay_voucher_requires_authorator_signature() {
    let (mut accounts, vault) = deployment();
    let good = terms(500, 100, T + 10, T + 100);
    let lists = [
        None,
        Some(vec![(vault, true, 0)]),
        Some(vec![(vault, true, 0), (authorator(), false, 100)]),
    ];
    for list in lists {
        let (metadata, edition) = registry_accounts(addr(MINT), list);
        assert_eq!(
            accounts.add_repay_voucher(addr(OP_A), vault, addr(MINT), metadata, edition, good, T),
            Err(VoucherNftError::AuthoratorNotSigned)
        );
    }
    let (metadata, edition) = registry_accounts(addr(MINT), Some(vec![(vault, false, 0), (authorator(), true, 100)]));
    assert_eq!(
        accounts.add_repay_voucher(addr(OP_A), vault, addr(MINT), metadata, edition, good, T),
        Err(VoucherNftError::VaultNotSigned)
    );
}

#[test]
fn repay_voucher_checks_registry_addresses() {
    let (mut accounts, vault) = deployment();
    let good = terms(500, 100, T + 10, T + 100);
    let (metadata, edition) = signed_accounts(vault);
    let forged = AccountInput { key: addr(99), data: metadata.data.clone() };
    assert_eq!(
        accounts.add_repay_voucher(addr(OP_A), vault, addr(MINT), forged, edition.clone(), good, T),
        Err(VoucherNftError::InvalidAccountArgument)
    );
    let empty = AccountInput { key: metadata.key, data: Vec::new() };
    assert_eq!(
        accounts.add_repay_voucher(addr(OP_A), vault, addr(MINT), empty, edition.clone(), good, T),
        Err(VoucherNftError::AccountNotInitialized)
    );
    let empty_edition = AccountInput { key: edition.key, data: Vec::new() };
    assert_eq!(
        accounts.add_repay_voucher(addr(OP_A), vault, addr(MINT), metadata.clone(), empty_edition, good, T),
        Err(VoucherNftError::AccountNotInitialized)
    );
    assert_eq!(
        accounts.add_repay_voucher(addr(OP_B), vault, addr(MINT), metadata.clone(), edition.clone(), good, T),
        Err(VoucherNftError::OnlyOperator)
    );
    assert_eq!(
        accounts.add_repay_voucher(addr(OP_A), addr(98), addr(MINT), metadata, edition, good, T),
        Err(VoucherNftError::AccountNotInitialized)
    );
}

fn airdrop_ctx(accounts: &ProgramAccounts, vault: Address, mint_info: MintInfo, user_holding: bool) -> OperatorAirdrop {
    let stored = match accounts.get(&vault) {
        Some(Record::Vault(v)) => v.clone(),
        _ => panic!("no vault"),
    };
    let user = addr(40);
    OperatorAirdrop {
        program_id: addr(PROGRAM),
        vault_key: vault,
        vault: stored,
        operator: addr(OP_A),
        user,
        mint: addr(MINT),
        mint_info,
        master_edition: AccountInput { key: master_edition_address(&addr(MINT)).unwrap().address, data: vec![6u8; 8] },
        vault_token_account: TokenHolding { owner: vault, mint: addr(MINT), amount: 1 },
        user_token_account: if user_holding {
            Some(TokenHolding { owner: user, mint: addr(MINT), amount: 0 })
        } else {
            None
        },
    }
}

#[test]
fn airdrop_moves_one_unit() {
    let (accounts, vault) = deployment();
    let ctx = airdrop_ctx(&accounts, vault, MintInfo { decimals: 0, supply: 1 }, false);
    let calls = voucher_nft::operator_airdrop(&ctx).unwrap();
    assert_eq!(calls.len(), 2);
    match &calls[0] {
        LedgerCall::CreateHoldingAccount { mint, owner } => {
            assert_eq!(*mint, addr(MINT));
            assert_eq!(*owner, addr(40));
        }
        other => panic!("unexpected call {:?}", other),
    }
    match &calls[1] {
        LedgerCall::Transfer { mint, from_owner, to_owner, amount, signer } => {
            assert_eq!(*mint, addr(MINT));
            assert_eq!(*from_owner, vault);
            assert_eq!(*to_owner, addr(40));
            assert_eq!(*amount, 1);
            assert_eq!(*signer, CallSigner::Vault);
        }
        other => panic!("unexpected call {:?}", other),
    }
    let existing = airdrop_ctx(&accounts, vault, MintInfo { decimals: 0, supply: 1 }, true);
    assert_eq!(voucher_nft::operator_airdrop(&existing).unwrap().len(), 1);
}

#[test]
fn airdrop_refuses_non_singletons() {
    let (accounts, vault) = deployment();
    for info in [MintInfo { decimals: 0, supply: 2 }, MintInfo { decimals: 1, supply: 1 }, MintInfo { decimals: 0, supply: 0 }] {
        let ctx = airdrop_ctx(&accounts, vault, info, false);
        assert_eq!(voucher_nft::operator_airdrop(&ctx).unwrap_err(), VoucherNftError::InvalidNftMint);
    }
}

#[test]
fn airdrop_only_operator_and_checked_edition() {
    let (accounts, vault) = deployment();
    let mut ctx = airdrop_ctx(&accounts, vault, MintInfo { decimals: 0, supply: 1 }, false);
    ctx.operator = addr(OP_B);
    assert_eq!(voucher_nft::operator_airdrop(&ctx).unwrap_err(), VoucherNftError::OnlyOperator);
    let mut forged = airdrop_ctx(&accounts, vault, MintInfo { decimals: 0, supply: 1 }, false);
    forged.master_edition.key = addr(99);
    assert_eq!(voucher_nft::operator_airdrop(&forged).unwrap_err(), VoucherNftError::InvalidAccountArgument);
    let mut empty = airdrop_ctx(&accounts, vault, MintInfo { decimals: 0, supply: 1 }, false);
    empty.master_edition.data = Vec::new();
    assert_eq!(voucher_nft::operator_airdrop(&empty).unwrap_err(), VoucherNftError::AccountNotInitialized);
    let mut wrong_holding = airdrop_ctx(&accounts, vault, MintInfo { decimals: 0, supply: 1 }, false);
    wrong_holding.vault_token_account.owner = addr(OP_A);
    assert_eq!(voucher_nft::operator_airdrop(&wrong_holding).unwrap_err(), VoucherNftError::InvalidAccountArgument);
}
