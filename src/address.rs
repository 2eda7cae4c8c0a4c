use vstd::prelude::*;
use vstd::slice::slice_to_vec;
use vstd::utf8::encode_utf8;
use solana_program::pubkey::Pubkey;
use crate::errors::VoucherNftError;

verus! {

/// A 32-byte ledger address: the identity of an account, a signer or a program.
#[derive(Clone, Copy, Debug, Hash)]
pub struct Address {
    pub bytes: [u8; 32],
}

impl View for Address {
    type V = Seq<u8>;

    open spec fn view(&self) -> Seq<u8> {
        self.bytes@
    }
}

impl PartialEq for Address {
    fn eq(&self, other: &Address) -> (r: bool) {
        let mut i: usize = 0;
        while i < 32
            invariant
                i <= 32,
                self.bytes@.len() == 32,
                other.bytes@.len() == 32,
                forall|j: int| 0 <= j < i ==> self.bytes@[j] == other.bytes@[j],
            decreases 32 - i,
        {
            if self.bytes[i] != other.bytes[i] {
                return false;
            }
            i = i + 1;
        }
        assert(self.bytes@ =~= other.bytes@);
        true
    }
}

impl vstd::std_specs::cmp::PartialEqSpecImpl for Address {
    open spec fn obeys_eq_spec() -> bool {
        true
    }

    open spec fn eq_spec(&self, other: &Address) -> bool {
        self@ == other@
    }
}

impl Eq for Address {
}

impl Address {
    /// The address made of the given bytes.
    pub fn new(bytes: [u8; 32]) -> (r: Address)
        ensures
            r.bytes == bytes,
    {
        Address { bytes }
    }

    /// The all-zero address, which a fresh record holds before it is initialized.
    pub fn zeroed() -> (r: Address)
        ensures
            r@ == Seq::new(32, |i: int| 0u8),
    {
        let r = Address { bytes: [0u8; 32] };
        assert(r@ =~= Seq::new(32, |i: int| 0u8));
        r
    }

    /// The bytes of this address, as a seed for a derivation.
    pub fn to_seed(&self) -> (r: Vec<u8>)
        ensures
            r@ == self@,
    {
        slice_to_vec(self.bytes.as_slice())
    }
}

/// Namespace of the single configuration record.
pub const CONFIG_SEED: &'static str = "CONFIG";

/// Namespace of the program signer record.
pub const AUTHORATOR_SEED: &'static str = "AUTHORATOR";

/// Namespace of vault records, followed by the vault's seed string.
pub const VAULT_SEED: &'static str = "VAULT";

/// Namespace of redemption-term records, followed by the voucher's mint.
pub const REPAY_VOUCHER_SEED: &'static str = "REPAY_VOUCHER";

/// First seed of the metadata registry's records.
pub const METADATA_PREFIX: &'static str = "metadata";

/// Last seed of the metadata registry's edition records.
pub const METADATA_EDITION: &'static str = "edition";

/// The longest seed, in bytes, that a derivation accepts.
pub const MAX_SEED_LEN: usize = 32;

/// The bytes of a namespace tag, as a seed.
pub fn tag_bytes(tag: &str) -> (r: Vec<u8>)
    ensures
        r@ == encode_utf8(tag@),
{
    slice_to_vec(tag.as_bytes())
}

/// The identity of the metadata registry program that descriptive and edition
/// records belong to.
pub fn token_metadata_program_id() -> (r: Address)
    ensures
        r@ == token_metadata_program_bytes(),
{
    let r = Address {
        bytes: [
            11, 112, 101, 171, 19, 206, 89, 132, 54, 5, 167, 1, 188, 208, 25, 195, 244, 62, 33,
            62, 202, 231, 163, 236, 7, 169, 187, 133, 99, 54, 133, 57,
        ],
    };
    assert(r@ =~= token_metadata_program_bytes());
    r
}

pub open spec fn token_metadata_program_bytes() -> Seq<u8> {
    seq![
        11u8, 112, 101, 171, 19, 206, 89, 132, 54, 5, 167, 1, 188, 208, 25, 195, 244, 62, 33,
        62, 202, 231, 163, 236, 7, 169, 187, 133, 99, 54, 133, 57,
    ]
}

/// The address and nonce that the ledger derives for `seeds` under
/// `program_id`, or `None` where no nonce gives an address off the curve or
/// the seeds exceed the ledger's limits.
pub uninterp spec fn program_address(seeds: Seq<Seq<u8>>, program_id: Seq<u8>) -> Option<(Seq<u8>, u8)>;

/// Relies on solana_program's `Pubkey::try_find_program_address`, which
/// computes the derived address and its nonce from the seeds and the program
/// identity alone.
#[verifier::external_body]
fn try_find_program_address(seeds: &Vec<Vec<u8>>, program_id: &Address) -> (r: Option<(Address, u8)>)
    ensures
        match r {
            Some(found) => program_address(seeds.deep_view(), program_id@) == Some((found.0@, found.1)),
            None => program_address(seeds.deep_view(), program_id@) is None,
        },
{
    let slices: Vec<&[u8]> = seeds.iter().map(|s| s.as_slice()).collect();
    let found = Pubkey::try_find_program_address(&slices, &Pubkey::new_from_array(program_id.bytes));
    found.map(|(key, bump)| (Address { bytes: key.to_bytes() }, bump))
}

/// A derived address together with its nonce.
#[derive(Clone, Copy, Debug)]
pub struct Derived {
    pub address: Address,
    pub bump: u8,
}

/// `r` is what the derivation of `seeds` under `program_id` gives.
pub open spec fn spec_derive_matches(r: Option<Derived>, seeds: Seq<Seq<u8>>, program_id: Seq<u8>) -> bool {
    match r {
        Some(d) => program_address(seeds, program_id) == Some((d.address@, d.bump)),
        None => program_address(seeds, program_id) is None,
    }
}

/// Derives the address and nonce of `seeds` under `program_id`.
pub fn derive(seeds: &Vec<Vec<u8>>, program_id: &Address) -> (r: Option<Derived>)
    ensures
        spec_derive_matches(r, seeds.deep_view(), program_id@),
{
    match try_find_program_address(seeds, program_id) {
        Some(found) => Some(Derived { address: found.0, bump: found.1 }),
        None => None,
    }
}



/// The deep view of a list of byte strings is the list of their views.
proof fn lemma_seeds_view(seeds: &Vec<Vec<u8>>)
    ensures
        seeds.deep_view().len() == seeds@.len(),
        forall|i: int| 0 <= i < seeds@.len() ==> #[trigger] seeds.deep_view()[i] == seeds@[i]@,
{
    assert forall|i: int| 0 <= i < seeds@.len() implies #[trigger] seeds.deep_view()[i] == seeds@[i]@ by {
        assert(seeds@[i].deep_view() =~= seeds@[i]@);
    }
}

pub open spec fn config_seeds() -> Seq<Seq<u8>> {
    seq![encode_utf8(CONFIG_SEED@)]
}

pub open spec fn authorator_seeds() -> Seq<Seq<u8>> {
    seq![encode_utf8(AUTHORATOR_SEED@)]
}

pub open spec fn vault_seeds(seed: Seq<char>) -> Seq<Seq<u8>> {
    seq![encode_utf8(VAULT_SEED@), encode_utf8(seed)]
}

pub open spec fn repay_voucher_seeds(mint: Seq<u8>) -> Seq<Seq<u8>> {
    seq![encode_utf8(REPAY_VOUCHER_SEED@), mint]
}

pub open spec fn metadata_seeds(mint: Seq<u8>) -> Seq<Seq<u8>> {
    seq![encode_utf8(METADATA_PREFIX@), token_metadata_program_bytes(), mint]
}

pub open spec fn master_edition_seeds(mint: Seq<u8>) -> Seq<Seq<u8>> {
    seq![encode_utf8(METADATA_PREFIX@), token_metadata_program_bytes(), mint, encode_utf8(METADATA_EDITION@)]
}

/// Address and nonce of the configuration record of `program_id`.
pub fn config_address(program_id: &Address) -> (r: Option<Derived>)
    ensures
        spec_derive_matches(r, config_seeds(), program_id@),
{
    let mut seeds: Vec<Vec<u8>> = Vec::new();
    seeds.push(tag_bytes(CONFIG_SEED));
    proof { lemma_seeds_view(&seeds); }
    assert(seeds.deep_view() =~= config_seeds());
    derive(&seeds, program_id)
}

/// Address and nonce of the program signer of `program_id`.
pub fn authorator_address(program_id: &Address) -> (r: Option<Derived>)
    ensures
        spec_derive_matches(r, authorator_seeds(), program_id@),
{
    let mut seeds: Vec<Vec<u8>> = Vec::new();
    seeds.push(tag_bytes(AUTHORATOR_SEED));
    proof { lemma_seeds_view(&seeds); }
    assert(seeds.deep_view() =~= authorator_seeds());
    derive(&seeds, program_id)
}

/// Address and nonce of the vault named `seed` under `program_id`.
pub fn vault_address(program_id: &Address, seed: &String) -> (r: Option<Derived>)
    ensures
        spec_derive_matches(r, vault_seeds(seed@), program_id@),
{
    let mut seeds: Vec<Vec<u8>> = Vec::new();
    seeds.push(tag_bytes(VAULT_SEED));
    seeds.push(tag_bytes(seed.as_str()));
    proof { lemma_seeds_view(&seeds); }
    assert(seeds.deep_view() =~= vault_seeds(seed@));
    derive(&seeds, program_id)
}

/// Address and nonce of the redemption terms of the voucher `mint`.
pub fn repay_voucher_address(program_id: &Address, mint: &Address) -> (r: Option<Derived>)
    ensures
        spec_derive_matches(r, repay_voucher_seeds(mint@), program_id@),
{
    let mut seeds: Vec<Vec<u8>> = Vec::new();
    seeds.push(tag_bytes(REPAY_VOUCHER_SEED));
    seeds.push(mint.to_seed());
    proof { lemma_seeds_view(&seeds); }
    assert(seeds.deep_view() =~= repay_voucher_seeds(mint@));
    derive(&seeds, program_id)
}

/// Address and nonce of the descriptive record of `mint` in the metadata registry.
pub fn metadata_address(mint: &Address) -> (r: Option<Derived>)
    ensures
        spec_derive_matches(r, metadata_seeds(mint@), token_metadata_program_bytes()),
{
    let registry = token_metadata_program_id();
    let mut seeds: Vec<Vec<u8>> = Vec::new();
    seeds.push(tag_bytes(METADATA_PREFIX));
    seeds.push(registry.to_seed());
    seeds.push(mint.to_seed());
    proof { lemma_seeds_view(&seeds); }
    assert(seeds.deep_view() =~= metadata_seeds(mint@));
    derive(&seeds, &registry)
}

/// Address and nonce of the edition record of `mint` in the metadata registry.
pub fn master_edition_address(mint: &Address) -> (r: Option<Derived>)
    ensures
        spec_derive_matches(r, master_edition_seeds(mint@), token_metadata_program_bytes()),
{
    let registry = token_metadata_program_id();
    let mut seeds: Vec<Vec<u8>> = Vec::new();
    seeds.push(tag_bytes(METADATA_PREFIX));
    seeds.push(registry.to_seed());
    seeds.push(mint.to_seed());
    seeds.push(tag_bytes(METADATA_EDITION));
    proof { lemma_seeds_view(&seeds); }
    assert(seeds.deep_view() =~= master_edition_seeds(mint@));
    derive(&seeds, &registry)
}

/// The outcome of checking a caller-supplied account against the address it must have.
pub open spec fn spec_check_derived_account(supplied: Seq<u8>, is_empty: bool, expected: Option<(Seq<u8>, u8)>) -> Result<(), VoucherNftError> {
    match expected {
        Some(e) if e.0 == supplied => if is_empty {
            Err(VoucherNftError::AccountNotInitialized)
        } else {
            Ok(())
        },
        _ => Err(VoucherNftError::InvalidAccountArgument),
    }
}

pub open spec fn derived_view(d: Option<Derived>) -> Option<(Seq<u8>, u8)> {
    match d {
        Some(x) => Some((x.address@, x.bump)),
        None => None,
    }
}

/// Checks a supplied account against its re-derived address before its data
/// is trusted: a different address (or none derivable) is
/// `InvalidAccountArgument`, an empty account at the right address is
/// `AccountNotInitialized`.
pub fn check_derived_account(supplied: &Address, is_empty: bool, expected: Option<Derived>) -> (r: Result<(), VoucherNftError>)
    ensures
        r == spec_check_derived_account(supplied@, is_empty, derived_view(expected)),
{
    match expected {
        Some(d) => {
            if d.address != *supplied {
                Err(VoucherNftError::InvalidAccountArgument)
            } else if is_empty {
                Err(VoucherNftError::AccountNotInitialized)
            } else {
                Ok(())
            }
        },
        None => Err(VoucherNftError::InvalidAccountArgument),
    }
}


/// `key` is the address that the derivation gave.
pub open spec fn spec_key_is_derived(key: Seq<u8>, d: Option<(Seq<u8>, u8)>) -> bool {
    match d {
        Some(x) => x.0 == key,
        None => false,
    }
}

/// Whether `key` is the address that the derivation gave.
pub fn is_derived_key(key: &Address, d: &Option<Derived>) -> (r: bool)
    ensures
        r == spec_key_is_derived(key@, derived_view(*d)),
{
    match d {
        Some(x) => x.address == *key,
        None => false,
    }
}

/// A caller-supplied account: its address and the bytes it holds (none where
/// nothing was ever written there).
#[derive(Clone, Debug)]
pub struct AccountInput {
    pub key: Address,
    pub data: Vec<u8>,
}

} // verus!
