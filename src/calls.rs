use vstd::prelude::*;
use crate::address::Address;
use crate::creators::{Creator, creators_view};

verus! {

/// Which program-controlled identity signs a call.
#[derive(Clone, Copy, Debug, PartialEq, Eq, Structural)]
pub enum CallSigner {
    /// The program signer, from its namespace and nonce.
    Authorator,
    /// The vault, from its namespace, seed and nonce.
    Vault,
}

/// One request to the token ledger or the metadata registry, in the order an
/// operation makes them. Each is signed by `signer`.
#[derive(Clone, Debug)]
pub enum LedgerCall {
    /// Creates the unit `mint` with the given divisibility and authorities.
    InitializeMint { mint: Address, decimals: u8, mint_authority: Address, freeze_authority: Address },
    /// Mints `amount` units of `mint` into the holding account of `owner`.
    MintTo { mint: Address, owner: Address, amount: u64, signer: CallSigner },
    /// Writes the descriptive record of `mint`.
    CreateMetadata {
        metadata: Address,
        mint: Address,
        update_authority: Address,
        name: String,
        symbol: String,
        uri: String,
        seller_fee_basis_points: u16,
        creators: Vec<Creator>,
        collection: Option<Address>,
        is_mutable: bool,
        signer: CallSigner,
    },
    /// Finalizes `mint` as an edition that can print at most `max_supply` more.
    CreateMasterEdition { edition: Address, mint: Address, metadata: Address, authority: Address, max_supply: Option<u64>, signer: CallSigner },
    /// The creator `creator` countersigns the descriptive record `metadata`.
    SignMetadata { metadata: Address, creator: Address, signer: CallSigner },
    /// Verifies the membership of `metadata` in the collection `collection_mint`.
    VerifyCollection { metadata: Address, collection_authority: Address, collection_mint: Address, signer: CallSigner },
    /// Opens the holding account of `owner` for `mint`.
    CreateHoldingAccount { mint: Address, owner: Address },
    /// Moves `amount` units of `mint` from `from_owner`'s holding to `to_owner`'s.
    Transfer { mint: Address, from_owner: Address, to_owner: Address, amount: u64, signer: CallSigner },
}

/// What the ledger and the registry hold of one unit, as far as the calls of
/// this program change it.
pub ghost struct UnitState {
    /// Divisibility, once the unit exists.
    pub decimals: Option<u8>,
    pub supply: nat,
    /// The address of its descriptive record, once written.
    pub metadata: Option<Seq<u8>>,
    /// The creator list of its descriptive record, once written.
    pub creators: Option<Seq<(Seq<u8>, bool, u8)>>,
    /// The collection it claims, and whether that claim is verified.
    pub collection: Option<(Seq<u8>, bool)>,
    /// The print ceiling of its edition record, once finalized.
    pub max_supply: Option<Option<u64>>,
}

pub open spec fn empty_unit() -> UnitState {
    UnitState { decimals: None, supply: 0, metadata: None, creators: None, collection: None, max_supply: None }
}

/// The creator list with the first entry of `creator` marked verified.
pub open spec fn sign_creator(creators: Seq<(Seq<u8>, bool, u8)>, creator: Seq<u8>) -> Seq<(Seq<u8>, bool, u8)>
    decreases creators.len(),
{
    if creators.len() == 0 {
        creators
    } else if creators[0].0 == creator {
        creators.update(0, (creators[0].0, true, creators[0].2))
    } else {
        seq![creators[0]] + sign_creator(creators.drop_first(), creator)
    }
}

/// What `call` does to the unit `mint`.
pub open spec fn apply_call(u: UnitState, mint: Seq<u8>, call: LedgerCall) -> UnitState {
    match call {
        LedgerCall::InitializeMint { mint: m, decimals, .. } => if m@ == mint {
            UnitState { decimals: Some(decimals), supply: 0, ..u }
        } else {
            u
        },
        LedgerCall::MintTo { mint: m, amount, .. } => if m@ == mint {
            UnitState { supply: (u.supply + amount) as nat, ..u }
        } else {
            u
        },
        LedgerCall::CreateMetadata { metadata, mint: m, creators, collection, .. } => if m@ == mint {
            UnitState {
                metadata: Some(metadata@),
                creators: Some(creators_view(creators@)),
                collection: match collection {
                    Some(c) => Some((c@, false)),
                    None => None,
                },
                ..u
            }
        } else {
            u
        },
        LedgerCall::CreateMasterEdition { mint: m, max_supply, .. } => if m@ == mint {
            UnitState { max_supply: Some(max_supply), ..u }
        } else {
            u
        },
        LedgerCall::SignMetadata { metadata, creator, .. } => match u.creators {
            Some(cs) if u.metadata == Some(metadata@) => UnitState { creators: Some(sign_creator(cs, creator@)), ..u },
            _ => u,
        },
        LedgerCall::VerifyCollection { metadata, collection_mint, .. } => match u.collection {
            Some(c) => if c.0 == collection_mint@ && u.metadata == Some(metadata@) {
                UnitState { collection: Some((c.0, true)), ..u }
            } else {
                u
            },
            None => u,
        },
        LedgerCall::CreateHoldingAccount { .. } => u,
        LedgerCall::Transfer { .. } => u,
    }
}

/// What the calls, made in order, do to the unit `mint`.
pub open spec fn run_calls(u: UnitState, mint: Seq<u8>, calls: Seq<LedgerCall>) -> UnitState
    decreases calls.len(),
{
    if calls.len() == 0 {
        u
    } else {
        run_calls(apply_call(u, mint, calls[0]), mint, calls.drop_first())
    }
}

/// What `call` does to the balances that owners hold of the unit `mint`; a
/// transfer the ledger would refuse changes nothing.
pub open spec fn apply_holdings(h: Map<Seq<u8>, nat>, mint: Seq<u8>, call: LedgerCall) -> Map<Seq<u8>, nat> {
    match call {
        LedgerCall::CreateHoldingAccount { mint: m, owner } => if m@ == mint && !h.contains_key(owner@) {
            h.insert(owner@, 0)
        } else {
            h
        },
        LedgerCall::MintTo { mint: m, owner, amount, .. } => if m@ == mint && h.contains_key(owner@) {
            h.insert(owner@, (h[owner@] + amount) as nat)
        } else {
            h
        },
        LedgerCall::Transfer { mint: m, from_owner, to_owner, amount, .. } => if m@ == mint
            && h.contains_key(from_owner@) && h.contains_key(to_owner@) && h[from_owner@] >= amount
            && from_owner@ != to_owner@ {
            h.insert(from_owner@, (h[from_owner@] - amount) as nat).insert(to_owner@, (h[to_owner@] + amount) as nat)
        } else {
            h
        },
        _ => h,
    }
}

/// What the calls, made in order, do to the balances of the unit `mint`.
pub open spec fn run_holdings(h: Map<Seq<u8>, nat>, mint: Seq<u8>, calls: Seq<LedgerCall>) -> Map<Seq<u8>, nat>
    decreases calls.len(),
{
    if calls.len() == 0 {
        h
    } else {
        run_holdings(apply_holdings(h, mint, calls[0]), mint, calls.drop_first())
    }
}

} // verus!
