use vstd::prelude::*;
use mpl_token_metadata::accounts::Metadata;
use crate::address::Address;
use crate::errors::VoucherNftError;

verus! {

/// One entry of a descriptive record's creator list.
#[derive(Clone, Copy, Debug, PartialEq, Eq)]
pub struct Creator {
    pub address: Address,
    pub verified: bool,
    pub share: u8,
}

impl View for Creator {
    type V = (Seq<u8>, bool, u8);

    open spec fn view(&self) -> (Seq<u8>, bool, u8) {
        (self.address@, self.verified, self.share)
    }
}

/// Whether the creator check also asks for the issuing vault's signature. The
/// active policy asks for it.
pub const REQUIRE_VAULT_VERIFIED: bool = true;

pub open spec fn creators_view(creators: Seq<Creator>) -> Seq<(Seq<u8>, bool, u8)> {
    creators.map_values(|c: Creator| c@)
}

pub open spec fn decoded_view(r: Option<Option<Vec<Creator>>>) -> Option<Option<Seq<(Seq<u8>, bool, u8)>>> {
    match r {
        Some(Some(cs)) => Some(Some(creators_view(cs@))),
        Some(None) => Some(None),
        None => None,
    }
}

/// The creator list of the descriptive record encoded in `data`: `None` where
/// the bytes do not decode, `Some(None)` where the record lists no creators.
pub uninterp spec fn decoded_creators(data: Seq<u8>) -> Option<Option<Seq<(Seq<u8>, bool, u8)>>>;

/// Relies on mpl_token_metadata's `Metadata::from_bytes`, the registry's own
/// decoding of a descriptive record, for its creator list.
#[verifier::external_body]
fn decode_metadata_creators(data: &Vec<u8>) -> (r: Option<Option<Vec<Creator>>>)
    ensures
        decoded_view(r) == decoded_creators(data@),
{
    Metadata::from_bytes(data.as_slice()).ok().map(|m| {
        m.creators.map(|cs| {
            cs.iter().map(|c| Creator {
                address: Address { bytes: c.address.to_bytes() },
                verified: c.verified,
                share: c.share,
            }).collect()
        })
    })
}

/// The creator list of a descriptive record, read from its bytes. Bytes that
/// are no descriptive record are `InvalidAccountArgument`.
pub fn read_creators(data: &Vec<u8>) -> (r: Result<Option<Vec<Creator>>, VoucherNftError>)
    ensures
        match decoded_creators(data@) {
            None => r == Err::<Option<Vec<Creator>>, VoucherNftError>(VoucherNftError::InvalidAccountArgument),
            Some(d) => r is Ok && decoded_view(Some(r->Ok_0)) == Some(d),
        },
{
    match decode_metadata_creators(data) {
        Some(d) => Ok(d),
        None => Err(VoucherNftError::InvalidAccountArgument),
    }
}

/// The first entry of `creators` for `address` exists and is verified: only
/// the first entry for an address counts.
pub open spec fn signed_by(creators: Seq<(Seq<u8>, bool, u8)>, address: Seq<u8>) -> bool {
    exists|i: int|
        0 <= i < creators.len() && #[trigger] creators[i].0 == address && creators[i].1
            && forall|j: int| 0 <= j < i ==> creators[j].0 != address
}

/// The outcome of the creator check: the program signer must have signed,
/// and, under `require_vault_verified`, the vault too.
pub open spec fn spec_verify_creators(
    creators: Option<Seq<(Seq<u8>, bool, u8)>>,
    authorator: Seq<u8>,
    vault: Seq<u8>,
    require_vault_verified: bool,
) -> Result<(), VoucherNftError> {
    match creators {
        None => Err(VoucherNftError::AuthoratorNotSigned),
        Some(cs) => if !signed_by(cs, authorator) {
            Err(VoucherNftError::AuthoratorNotSigned)
        } else if require_vault_verified && !signed_by(cs, vault) {
            Err(VoucherNftError::VaultNotSigned)
        } else {
            Ok(())
        },
    }
}

pub open spec fn opt_view(creators: Option<Vec<Creator>>) -> Option<Seq<(Seq<u8>, bool, u8)>> {
    match creators {
        Some(cs) => Some(creators_view(cs@)),
        None => None,
    }
}

/// Position of the first entry for `address`, if any.
pub fn find_creator(creators: &Vec<Creator>, address: &Address) -> (r: Option<usize>)
    ensures
        match r {
            Some(i) => i < creators@.len() && creators@[i as int].address@ == address@
                && forall|j: int| 0 <= j < i ==> creators@[j].address@ != address@,
            None => forall|j: int| 0 <= j < creators@.len() ==> creators@[j].address@ != address@,
        },
{
    let mut i: usize = 0;
    while i < creators.len()
        invariant
            i <= creators@.len(),
            forall|j: int| 0 <= j < i ==> creators@[j].address@ != address@,
        decreases creators@.len() - i,
    {
        if creators[i].address == *address {
            return Some(i);
        }
        i = i + 1;
    }
    None
}

/// Whether the first entry for `address` is verified.
pub fn is_signed_by(creators: &Vec<Creator>, address: &Address) -> (r: bool)
    ensures
        r == signed_by(creators_view(creators@), address@),
{
    let ghost v = creators_view(creators@);
    match find_creator(creators, address) {
        Some(i) => {
            let verified = creators[i].verified;
            if !verified {
                assert forall|k: int|
                    0 <= k < v.len() && #[trigger] v[k].0 == address@ && v[k].1
                    implies exists|j: int| 0 <= j < k && v[j].0 == address@ by {
                    if k != i as int {
                        assert(0 <= i < k);
                        assert(v[i as int].0 == address@);
                    }
                }
            } else {
                assert(v[i as int].0 == address@);
            }
            verified
        },
        None => {
            assert forall|k: int| 0 <= k < v.len() implies #[trigger] v[k].0 != address@ by {
                assert(v[k].0 == creators@[k].address@);
            }
            false
        },
    }
}

/// Checks that a descriptive record was issued by this program: its creator
/// list must carry the program signer verified (else `AuthoratorNotSigned`)
/// and, under `require_vault_verified`, the vault verified (else
/// `VaultNotSigned`).
pub fn verify_creators(
    creators: &Option<Vec<Creator>>,
    authorator: &Address,
    vault: &Address,
    require_vault_verified: bool,
) -> (r: Result<(), VoucherNftError>)
    ensures
        r == spec_verify_creators(opt_view(*creators), authorator@, vault@, require_vault_verified),
{
    match creators {
        None => Err(VoucherNftError::AuthoratorNotSigned),
        Some(cs) => {
            if !is_signed_by(cs, authorator) {
                return Err(VoucherNftError::AuthoratorNotSigned);
            }
            if require_vault_verified && !is_signed_by(cs, vault) {
                return Err(VoucherNftError::VaultNotSigned);
            }
            Ok(())
        },
    }
}

} // verus!
