use vstd::prelude::*;
use crate::add_repay_voucher::{self as repay, AddRepayVoucher, AddRepayVoucherView};
use crate::add_vault::{self as vaults, AddVault, AddVaultView};
use crate::address::{
    AccountInput, Address, authorator_address, config_address, config_seeds, program_address,
    repay_voucher_address, repay_voucher_seeds, vault_address, vault_seeds,
};
use crate::calls::LedgerCall;
use crate::errors::VoucherNftError;
use crate::initialize::{self as boot, Initialize, is_bootstrap_plan};
use crate::mint_voucher::{self as issue, MetadataParams, MintVoucher, is_mint_plan};
use crate::state::{AddRepayVoucherParams, Authorator, Config, RepayVoucher, RepayVoucherView, Vault, VaultView};

verus! {

/// A record that the program owns.
#[derive(Clone, Debug)]
pub enum Record {
    Config(Config),
    Authorator(Authorator),
    Vault(Vault),
    RepayVoucher(RepayVoucher),
}

/// The records of one deployment of the program, each at its address. No two
/// records share an address.
#[derive(Clone, Debug)]
pub struct ProgramAccounts {
    program_id: Address,
    records: Vec<(Address, Record)>,
}

impl ProgramAccounts {
    pub closed spec fn spec_program_id(&self) -> Address {
        self.program_id
    }

    /// The identity of the program that owns these records.
    pub fn program_id(&self) -> (r: Address)
        ensures
            r == self.spec_program_id(),
    {
        self.program_id
    }

    /// No two records share an address.
    pub closed spec fn wf(&self) -> bool {
        forall|i: int, j: int|
            0 <= i < j < self.records@.len() ==> #[trigger] self.records@[i].0@ != #[trigger] self.records@[j].0@
    }

    pub closed spec fn has(&self, key: Seq<u8>) -> bool {
        exists|i: int| 0 <= i < self.records@.len() && #[trigger] self.records@[i].0@ == key
    }

    /// The records by address.
    pub closed spec fn view(&self) -> Map<Seq<u8>, Record> {
        Map::new(
            |k: Seq<u8>| self.has(k),
            |k: Seq<u8>| self.records@[choose|i: int| 0 <= i < self.records@.len() && #[trigger] self.records@[i].0@ == k].1,
        )
    }

    proof fn lemma_entry(&self, i: int)
        requires
            self.wf(),
            0 <= i < self.records@.len(),
        ensures
            self@.contains_key(self.records@[i].0@),
            self@[self.records@[i].0@] == self.records@[i].1,
    {
        let k = self.records@[i].0@;
        assert(self.has(k));
        let j = choose|j: int| 0 <= j < self.records@.len() && #[trigger] self.records@[j].0@ == k;
        if j < i {
            assert(self.records@[j].0@ != self.records@[i].0@);
        } else if i < j {
            assert(self.records@[i].0@ != self.records@[j].0@);
        }
    }

    /// A deployment that holds no record yet.
    pub fn new(program_id: Address) -> (r: ProgramAccounts)
        ensures
            r.wf(),
            r.spec_program_id() == program_id,
            r@ == Map::<Seq<u8>, Record>::empty(),
    {
        let r = ProgramAccounts { program_id, records: Vec::new() };
        assert(r@ =~= Map::<Seq<u8>, Record>::empty());
        r
    }

    /// Position of the record at `key`, if any.
    fn position(&self, key: &Address) -> (r: Option<usize>)
        requires
            self.wf(),
        ensures
            match r {
                Some(i) => i < self.records@.len() && self.records@[i as int].0@ == key@,
                None => !self@.contains_key(key@),
            },
    {
        let mut i: usize = 0;
        while i < self.records.len()
            invariant
                i <= self.records@.len(),
                forall|j: int| 0 <= j < i ==> self.records@[j].0@ != key@,
            decreases self.records@.len() - i,
        {
            if self.records[i].0 == *key {
                return Some(i);
            }
            i = i + 1;
        }
        None
    }

    /// Whether a record is stored at `key`.
    pub fn contains(&self, key: &Address) -> (r: bool)
        requires
            self.wf(),
        ensures
            r == self@.contains_key(key@),
    {
        match self.position(key) {
            Some(i) => {
                proof { self.lemma_entry(i as int); }
                true
            },
            None => false,
        }
    }

    /// The record stored at `key`, if any. Reading changes nothing, so two
    /// reads give the same record.
    pub fn get(&self, key: &Address) -> (r: Option<&Record>)
        requires
            self.wf(),
        ensures
            match r {
                Some(rec) => self@.contains_key(key@) && self@[key@] == *rec,
                None => !self@.contains_key(key@),
            },
    {
        match self.position(key) {
            Some(i) => {
                proof { self.lemma_entry(i as int); }
                Some(&self.records[i].1)
            },
            None => None,
        }
    }

    /// Stores `record` at the free address `key`.
    fn insert_new(&mut self, key: Address, record: Record)
        requires
            old(self).wf(),
            !old(self)@.contains_key(key@),
        ensures
            final(self).wf(),
            final(self).spec_program_id() == old(self).spec_program_id(),
            final(self)@ == old(self)@.insert(key@, record),
    {
        let ghost before = *self;
        self.records.push((key, record));
        proof {
            let n = before.records@.len() as int;
            assert forall|i: int| 0 <= i < n implies #[trigger] before.records@[i].0@ != key@ by {
                before.lemma_entry(i);
            }
            assert(self.records@[n] == (key, record));
            assert forall|i: int, j: int| 0 <= i < j < self.records@.len()
                implies #[trigger] self.records@[i].0@ != #[trigger] self.records@[j].0@ by {
                if j < n {
                    assert(self.records@[i] == before.records@[i]);
                    assert(self.records@[j] == before.records@[j]);
                } else {
                    assert(self.records@[i] == before.records@[i]);
                }
            }
            assert forall|k: Seq<u8>| #[trigger] self@.contains_key(k) == before@.insert(key@, record).contains_key(k) by {
                if before.has(k) {
                    let i = choose|i: int| 0 <= i < before.records@.len() && #[trigger] before.records@[i].0@ == k;
                    assert(self.records@[i] == before.records@[i]);
                    assert(self.has(k));
                }
                if k == key@ {
                    assert(self.records@[n].0@ == k);
                    assert(self.has(k));
                }
                if self.has(k) {
                    let i = choose|i: int| 0 <= i < self.records@.len() && #[trigger] self.records@[i].0@ == k;
                    if i < n {
                        assert(self.records@[i] == before.records@[i]);
                        assert(before.has(k));
                    }
                }
            }
            assert forall|k: Seq<u8>| #[trigger] self@.contains_key(k) implies self@[k] == before@.insert(key@, record)[k] by {
                let i = choose|i: int| 0 <= i < self.records@.len() && #[trigger] self.records@[i].0@ == k;
                self.lemma_entry(i);
                if i < n {
                    assert(self.records@[i] == before.records@[i]);
                    before.lemma_entry(i);
                }
            }
            assert(self@ =~= before@.insert(key@, record));
        }
    }

    /// Bootstraps the deployment: the configuration and the program signer
    /// are stored at their derived addresses, and the calls that set up the
    /// collection asset are returned. A second bootstrap is `AlreadyInitialized`.
    pub fn bootstrap(
        &mut self,
        admin: Address,
        collection_mint: Address,
        metadata_account: Address,
        master_edition: Address,
        params: &MetadataParams,
    ) -> (r: Result<Vec<LedgerCall>, VoucherNftError>)
        requires
            old(self).wf(),
        ensures
            final(self).wf(),
            final(self).spec_program_id() == old(self).spec_program_id(),
            r is Err ==> final(self)@ == old(self)@,
            spec_bootstrapped(old(self)@, old(self).spec_program_id()@) ==> r == Err::<Vec<LedgerCall>, VoucherNftError>(VoucherNftError::AlreadyInitialized),
            spec_bootstrap_owed(old(self)@, old(self).spec_program_id()@) ==> r is Ok,
            r is Ok ==> spec_bootstrapped(final(self)@, final(self).spec_program_id()@)
                && spec_config_of(final(self)@, final(self).spec_program_id()@) == Some((admin@, collection_mint@))
                && final(self)@[program_address(crate::address::authorator_seeds(), old(self).spec_program_id()@)->Some_0.0]
                    == Record::Authorator(Authorator {
                    bump: program_address(crate::address::authorator_seeds(), old(self).spec_program_id()@)->Some_0.1,
                })
                && final(self)@ == old(self)@.insert(
                    program_address(config_seeds(), old(self).spec_program_id()@)->Some_0.0,
                    final(self)@[program_address(config_seeds(), old(self).spec_program_id()@)->Some_0.0],
                ).insert(
                    program_address(crate::address::authorator_seeds(), old(self).spec_program_id()@)->Some_0.0,
                    final(self)@[program_address(crate::address::authorator_seeds(), old(self).spec_program_id()@)->Some_0.0],
                ),
            r is Ok ==> exists|ctx: Initialize|
                #[trigger] is_bootstrap_plan(r->Ok_0@, ctx, *params) && ctx.program_id == old(self).spec_program_id()
                    && ctx.admin == admin && ctx.collection_mint == collection_mint
                    && ctx.metadata_account == metadata_account && ctx.master_edition == master_edition
                    && crate::address::spec_key_is_derived(ctx.authorator_key@,
                        program_address(crate::address::authorator_seeds(), old(self).spec_program_id()@)),
    {
        let config_key = match config_address(&self.program_id) {
            Some(d) => d.address,
            None => return Err(VoucherNftError::InvalidAccountArgument),
        };
        let authorator_key = match authorator_address(&self.program_id) {
            Some(d) => d.address,
            None => return Err(VoucherNftError::InvalidAccountArgument),
        };
        let ctx = Initialize {
            program_id: self.program_id,
            config_key,
            config_exists: self.contains(&config_key),
            authorator_key,
            authorator_exists: self.contains(&authorator_key),
            admin,
            collection_mint,
            metadata_account,
            master_edition,
        };
        let done = boot::handler(&ctx, params)?;
        if config_key == authorator_key {
            return Err(VoucherNftError::AccountAlreadyInUse);
        }
        self.insert_new(config_key, Record::Config(done.config));
        self.insert_new(authorator_key, Record::Authorator(done.authorator));
        assert(ctx.program_id == old(self).spec_program_id());
        assert(crate::address::spec_key_is_derived(ctx.authorator_key@,
            program_address(crate::address::authorator_seeds(), old(self).spec_program_id()@)));
        let r: Result<Vec<LedgerCall>, VoucherNftError> = Ok(done.calls);
        assert(is_bootstrap_plan(r->Ok_0@, ctx, *params));
        r
    }

    /// Provisions the vault named `seed`, run by `operator`, on behalf of the
    /// caller `admin`; returns the vault's address.
    pub fn add_vault(&mut self, admin: Address, seed: String, operator: Address) -> (r: Result<Address, VoucherNftError>)
        requires
            old(self).wf(),
        ensures
            final(self).wf(),
            final(self).spec_program_id() == old(self).spec_program_id(),
            match spec_add_vault(old(self)@, old(self).spec_program_id()@, admin@, seed@, operator@) {
                Err(e) => r == Err::<Address, VoucherNftError>(e) && final(self)@ == old(self)@,
                Ok(v) => r is Ok && program_address(vault_seeds(seed@), old(self).spec_program_id()@) == Some((r->Ok_0@, v.2))
                    && final(self)@ == old(self)@.insert(r->Ok_0@, final(self)@[r->Ok_0@])
                    && final(self)@[r->Ok_0@] is Vault && final(self)@[r->Ok_0@]->Vault_0@ == v,
            },
    {
        let config_key = match config_address(&self.program_id) {
            Some(d) => d.address,
            None => return Err(VoucherNftError::InvalidAccountArgument),
        };
        let config = match self.get(&config_key) {
            Some(Record::Config(c)) => *c,
            _ => return Err(VoucherNftError::AccountNotInitialized),
        };
        let vault_key = match vault_address(&self.program_id, &seed) {
            Some(d) => d.address,
            None => Address::zeroed(),
        };
        let ctx = AddVault {
            program_id: self.program_id,
            config_key,
            config,
            admin,
            vault_key,
            vault_exists: self.contains(&vault_key),
        };
        let vault = vaults::handler(&ctx, seed, operator)?;
        self.insert_new(vault_key, Record::Vault(vault));
        Ok(vault_key)
    }

    /// Attaches the terms `params` to the voucher `mint` issued under the vault
    /// at `vault_key`, on behalf of the caller `operator`, with `current_time`
    /// the ledger's clock; returns the address of the stored terms.
    pub fn add_repay_voucher(
        &mut self,
        operator: Address,
        vault_key: Address,
        mint: Address,
        metadata_account: AccountInput,
        master_edition: AccountInput,
        params: AddRepayVoucherParams,
        current_time: i64,
    ) -> (r: Result<Address, VoucherNftError>)
        requires
            old(self).wf(),
        ensures
            final(self).wf(),
            final(self).spec_program_id() == old(self).spec_program_id(),
            match spec_add_repay_voucher(old(self)@, old(self).spec_program_id()@, operator@, vault_key@, mint@,
                metadata_account, master_edition, params, current_time) {
                Err(e) => r == Err::<Address, VoucherNftError>(e) && final(self)@ == old(self)@,
                Ok(v) => r is Ok && spec_key_is_derived_repay(r->Ok_0@, old(self).spec_program_id()@, mint@)
                    && final(self)@ == old(self)@.insert(r->Ok_0@, final(self)@[r->Ok_0@])
                    && final(self)@[r->Ok_0@] is RepayVoucher && final(self)@[r->Ok_0@]->RepayVoucher_0@ == v,
            },
    {
        let vault = match self.get(&vault_key) {
            Some(Record::Vault(v)) => v.duplicate(),
            _ => return Err(VoucherNftError::AccountNotInitialized),
        };
        let repay_voucher_key = match repay_voucher_address(&self.program_id, &mint) {
            Some(d) => d.address,
            None => Address::zeroed(),
        };
        let ctx = AddRepayVoucher {
            program_id: self.program_id,
            vault_key,
            vault,
            operator,
            mint,
            metadata_account,
            master_edition,
            repay_voucher_key,
            repay_voucher_exists: self.contains(&repay_voucher_key),
            current_time,
        };
        let terms = repay::handler(&ctx, params)?;
        self.insert_new(repay_voucher_key, Record::RepayVoucher(terms));
        Ok(repay_voucher_key)
    }

    /// The calls that issue the voucher `mint` under the vault at `vault_key`,
    /// on behalf of the caller `operator`.
    pub fn mint_voucher(
        &self,
        operator: Address,
        vault_key: Address,
        mint: Address,
        metadata_account: Address,
        master_edition: Address,
        params: &MetadataParams,
    ) -> (r: Result<Vec<LedgerCall>, VoucherNftError>)
        requires
            self.wf(),
        ensures
            spec_bootstrapped(self@, self.spec_program_id()@) && self@.contains_key(vault_key@) && self@[vault_key@] is Vault
                && spec_key_is_derived_vault(vault_key@, self.spec_program_id()@, self@[vault_key@]->Vault_0@.1) ==> (
                if operator@ == self@[vault_key@]->Vault_0@.0 {
                    r is Ok
                } else {
                    r == Err::<Vec<LedgerCall>, VoucherNftError>(VoucherNftError::OnlyOperator)
                }),
            r is Ok ==> exists|ctx: MintVoucher|
                #[trigger] is_mint_plan(r->Ok_0@, ctx, *params) && ctx.program_id == self.spec_program_id()
                    && ctx.vault_key == vault_key && ctx.operator == operator && ctx.mint == mint
                    && ctx.metadata_account == metadata_account && ctx.master_edition == master_edition
                    && self@.contains_key(vault_key@) && self@[vault_key@] == Record::Vault(ctx.vault)
                    && spec_config_of(self@, self.spec_program_id()@) == Some((ctx.config.admin@, ctx.collection_mint@))
                    && crate::address::spec_key_is_derived(ctx.authorator_key@,
                        program_address(crate::address::authorator_seeds(), self.spec_program_id()@)),
    {
        let config_key = match config_address(&self.program_id) {
            Some(d) => d.address,
            None => return Err(VoucherNftError::InvalidAccountArgument),
        };
        let config = match self.get(&config_key) {
            Some(Record::Config(c)) => *c,
            _ => return Err(VoucherNftError::AccountNotInitialized),
        };
        let authorator_key = match authorator_address(&self.program_id) {
            Some(d) => d.address,
            None => return Err(VoucherNftError::InvalidAccountArgument),
        };
        let vault = match self.get(&vault_key) {
            Some(Record::Vault(v)) => v.duplicate(),
            _ => return Err(VoucherNftError::AccountNotInitialized),
        };
        let ctx = MintVoucher {
            program_id: self.program_id,
            config_key,
            config,
            vault_key,
            vault,
            authorator_key,
            operator,
            mint,
            metadata_account,
            master_edition,
            collection_mint: config.collection,
        };
        let r = issue::handler(&ctx, params);
        if let Ok(calls) = &r {
            assert(is_mint_plan(calls@, ctx, *params));
        }
        r
    }
}

/// The configuration and the program signer are stored at their derived
/// addresses.
pub open spec fn spec_bootstrapped(s: Map<Seq<u8>, Record>, program_id: Seq<u8>) -> bool {
    &&& program_address(config_seeds(), program_id) is Some
    &&& s.contains_key(program_address(config_seeds(), program_id)->Some_0.0)
    &&& s[program_address(config_seeds(), program_id)->Some_0.0] is Config
    &&& program_address(crate::address::authorator_seeds(), program_id) is Some
    &&& s.contains_key(program_address(crate::address::authorator_seeds(), program_id)->Some_0.0)
    &&& s[program_address(crate::address::authorator_seeds(), program_id)->Some_0.0] is Authorator
}

/// Bootstrap succeeds: both addresses derive, differ, and hold no record yet.
pub open spec fn spec_bootstrap_owed(s: Map<Seq<u8>, Record>, program_id: Seq<u8>) -> bool {
    &&& program_address(config_seeds(), program_id) is Some
    &&& program_address(crate::address::authorator_seeds(), program_id) is Some
    &&& program_address(config_seeds(), program_id)->Some_0.0 != program_address(
        crate::address::authorator_seeds(),
        program_id,
    )->Some_0.0
    &&& !s.contains_key(program_address(config_seeds(), program_id)->Some_0.0)
    &&& !s.contains_key(program_address(crate::address::authorator_seeds(), program_id)->Some_0.0)
}

/// The administrator and collection of the stored configuration.
pub open spec fn spec_config_of(s: Map<Seq<u8>, Record>, program_id: Seq<u8>) -> Option<(Seq<u8>, Seq<u8>)> {
    match program_address(config_seeds(), program_id) {
        Some(c) => if s.contains_key(c.0) && s[c.0] is Config {
            Some((s[c.0]->Config_0.admin@, s[c.0]->Config_0.collection@))
        } else {
            None
        },
        None => None,
    }
}

pub open spec fn spec_key_is_derived_vault(key: Seq<u8>, program_id: Seq<u8>, seed: Seq<char>) -> bool {
    crate::address::spec_key_is_derived(key, program_address(vault_seeds(seed), program_id))
}

pub open spec fn spec_key_is_derived_repay(key: Seq<u8>, program_id: Seq<u8>, mint: Seq<u8>) -> bool {
    crate::address::spec_key_is_derived(key, program_address(repay_voucher_seeds(mint), program_id))
}

/// Where a derivation that may fail is used as a key: the derived address, or
/// the empty sequence, which no record has.
pub open spec fn key_or_empty(d: Option<(Seq<u8>, u8)>) -> Seq<u8> {
    match d {
        Some(x) => x.0,
        None => Seq::empty(),
    }
}

/// What provisioning the vault `seed` gives on the records `s`.
pub open spec fn spec_add_vault(
    s: Map<Seq<u8>, Record>,
    program_id: Seq<u8>,
    admin: Seq<u8>,
    seed: Seq<char>,
    operator: Seq<u8>,
) -> Result<VaultView, VoucherNftError> {
    match program_address(config_seeds(), program_id) {
        None => Err(VoucherNftError::InvalidAccountArgument),
        Some(c) => if !(s.contains_key(c.0) && s[c.0] is Config) {
            Err(VoucherNftError::AccountNotInitialized)
        } else {
            let vault_key = key_or_empty(program_address(vault_seeds(seed), program_id));
            vaults::spec_handler(
                AddVaultView {
                    program_id,
                    config_key: c.0,
                    admin_of_config: s[c.0]->Config_0.admin@,
                    admin,
                    vault_key,
                    vault_exists: s.contains_key(vault_key),
                },
                seed,
                operator,
            )
        },
    }
}

/// What attaching terms gives on the records `s`.
pub open spec fn spec_add_repay_voucher(
    s: Map<Seq<u8>, Record>,
    program_id: Seq<u8>,
    operator: Seq<u8>,
    vault_key: Seq<u8>,
    mint: Seq<u8>,
    metadata_account: AccountInput,
    master_edition: AccountInput,
    params: AddRepayVoucherParams,
    current_time: i64,
) -> Result<RepayVoucherView, VoucherNftError> {
    if !(s.contains_key(vault_key) && s[vault_key] is Vault) {
        Err(VoucherNftError::AccountNotInitialized)
    } else {
        let repay_voucher_key = key_or_empty(program_address(repay_voucher_seeds(mint), program_id));
        repay::spec_handler(
            AddRepayVoucherView {
                program_id,
                vault_key,
                vault: s[vault_key]->Vault_0@,
                operator,
                mint,
                metadata_key: metadata_account.key@,
                metadata_data: metadata_account.data@,
                edition_key: master_edition.key@,
                edition_data: master_edition.data@,
                repay_voucher_key,
                repay_voucher_exists: s.contains_key(repay_voucher_key),
                current_time,
            },
            params,
        )
    }
}

} // verus!
