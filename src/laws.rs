use vstd::prelude::*;
use crate::add_repay_voucher::{self as repay, AddRepayVoucherView};
use crate::address::{
    AccountInput, authorator_seeds, config_seeds, master_edition_seeds, metadata_seeds, program_address,
    repay_voucher_seeds, spec_check_derived_account, spec_key_is_derived, token_metadata_program_bytes,
    vault_seeds,
};
use crate::calls::{LedgerCall, UnitState, apply_call as apply_call_of, apply_holdings, empty_unit, run_calls, run_holdings, sign_creator};
use crate::creators::{decoded_creators, signed_by};
use crate::errors::VoucherNftError;
use crate::mint_voucher::{self as issue, MetadataParams, MintVoucher, is_mint_plan};
use crate::operator_airdrop::{self as airdrop, OperatorAirdrop, is_airdrop_plan};
use crate::state::{AddRepayVoucherParams, MAX_DISCOUNT_BPS, spec_validate_terms};
use crate::store::{Record, key_or_empty, spec_add_repay_voucher, spec_add_vault};

verus! {

proof fn lemma_run_calls_step(u: UnitState, mint: Seq<u8>, calls: Seq<LedgerCall>, n: int)
    requires
        0 <= n < calls.len(),
    ensures
        run_calls(u, mint, calls.take(n + 1)) == crate::calls::apply_call(run_calls(u, mint, calls.take(n)), mint, calls[n]),
    decreases n,
{
    if n == 0 {
        assert(calls.take(1).drop_first() =~= Seq::<LedgerCall>::empty());
        assert(calls.take(0) =~= Seq::<LedgerCall>::empty());
        assert(calls.take(1)[0] == calls[0]);
        assert(run_calls(u, mint, calls.take(1)) == run_calls(
            crate::calls::apply_call(u, mint, calls[0]),
            mint,
            calls.take(1).drop_first(),
        ));
    } else {
        assert(calls.take(n + 1).drop_first() =~= calls.drop_first().take(n));
        assert(calls.take(n).drop_first() =~= calls.drop_first().take(n - 1));
        assert(calls.take(n + 1)[0] == calls[0]);
        assert(calls.take(n)[0] == calls[0]);
        assert(calls.drop_first()[n - 1] == calls[n]);
        lemma_run_calls_step(crate::calls::apply_call(u, mint, calls[0]), mint, calls.drop_first(), n - 1);
    }
}

proof fn lemma_run_holdings_step(h: Map<Seq<u8>, nat>, mint: Seq<u8>, calls: Seq<LedgerCall>, n: int)
    requires
        0 <= n < calls.len(),
    ensures
        run_holdings(h, mint, calls.take(n + 1)) == apply_holdings(run_holdings(h, mint, calls.take(n)), mint, calls[n]),
    decreases n,
{
    if n == 0 {
        assert(calls.take(1).drop_first() =~= Seq::<LedgerCall>::empty());
        assert(calls.take(0) =~= Seq::<LedgerCall>::empty());
        assert(calls.take(1)[0] == calls[0]);
        assert(run_holdings(h, mint, calls.take(1)) == run_holdings(
            apply_holdings(h, mint, calls[0]),
            mint,
            calls.take(1).drop_first(),
        ));
    } else {
        assert(calls.take(n + 1).drop_first() =~= calls.drop_first().take(n));
        assert(calls.take(n).drop_first() =~= calls.drop_first().take(n - 1));
        assert(calls.take(n + 1)[0] == calls[0]);
        assert(calls.take(n)[0] == calls[0]);
        assert(calls.drop_first()[n - 1] == calls[n]);
        lemma_run_holdings_step(apply_holdings(h, mint, calls[0]), mint, calls.drop_first(), n - 1);
    }
}

/// Issuing a voucher yields a single indivisible unit held by the vault: once
/// the planned calls have run, the unit has divisibility 0, a supply of
/// exactly 1 and no further prints, and the vault, which held none of it
/// before, holds exactly 1. After the sixth call the program signer is
/// verified in the creator list with share 100, and after the seventh the
/// collection membership is verified.
pub proof fn lemma_mint_voucher_singleton(
    ctx: MintVoucher,
    params: MetadataParams,
    calls: Seq<LedgerCall>,
    holdings: Map<Seq<u8>, nat>,
)
    requires
        issue::spec_checks(ctx) is Ok,
        is_mint_plan(calls, ctx, params),
        !holdings.contains_key(ctx.vault_key@),
    ensures
        ({
            let after_sign = run_calls(empty_unit(), ctx.mint@, calls.take(6));
            &&& after_sign.creators == Some(seq![(ctx.vault_key@, true, 0u8), (ctx.authorator_key@, true, 100u8)])
            &&& signed_by(after_sign.creators->Some_0, ctx.authorator_key@)
        }),
        ({
            let done = run_calls(empty_unit(), ctx.mint@, calls);
            &&& done.decimals == Some(0u8)
            &&& done.supply == 1
            &&& done.max_supply == Some(Some(0u64))
            &&& done.creators == Some(seq![(ctx.vault_key@, true, 0u8), (ctx.authorator_key@, true, 100u8)])
            &&& signed_by(done.creators->Some_0, ctx.authorator_key@)
            &&& done.collection == Some((ctx.collection_mint@, true))
        }),
        run_holdings(holdings, ctx.mint@, calls).contains_key(ctx.vault_key@),
        run_holdings(holdings, ctx.mint@, calls)[ctx.vault_key@] == 1,
{
    let mint = ctx.mint@;
    let u0 = empty_unit();
    assert(calls.take(0) =~= Seq::<LedgerCall>::empty());
    lemma_run_calls_step(u0, mint, calls, 0);
    lemma_run_calls_step(u0, mint, calls, 1);
    lemma_run_calls_step(u0, mint, calls, 2);
    lemma_run_calls_step(u0, mint, calls, 3);
    lemma_run_calls_step(u0, mint, calls, 4);
    lemma_run_calls_step(u0, mint, calls, 5);
    lemma_run_calls_step(u0, mint, calls, 6);
    assert(calls.take(7) =~= calls);
    lemma_run_holdings_step(holdings, mint, calls, 0);
    lemma_run_holdings_step(holdings, mint, calls, 1);
    lemma_run_holdings_step(holdings, mint, calls, 2);
    lemma_run_holdings_step(holdings, mint, calls, 3);
    lemma_run_holdings_step(holdings, mint, calls, 4);
    lemma_run_holdings_step(holdings, mint, calls, 5);
    lemma_run_holdings_step(holdings, mint, calls, 6);
    let h2 = run_holdings(holdings, mint, calls.take(2));
    assert(h2 == holdings.insert(ctx.vault_key@, 0));
    let cs = seq![(ctx.vault_key@, true, 0u8), (ctx.authorator_key@, false, 100u8)];
    let signed = sign_creator(cs, ctx.authorator_key@);
    assert(cs.drop_first() =~= seq![(ctx.authorator_key@, false, 100u8)]);
    assert(cs.drop_first().drop_first() =~= Seq::<(Seq<u8>, bool, u8)>::empty());
    let rest = sign_creator(cs.drop_first(), ctx.authorator_key@);
    assert(cs.drop_first()[0].0 == ctx.authorator_key@);
    assert(rest =~= seq![(ctx.authorator_key@, true, 100u8)]);
    assert(signed == seq![cs[0]] + rest);
    assert(signed =~= seq![(ctx.vault_key@, true, 0u8), (ctx.authorator_key@, true, 100u8)]);
    assert(signed[1].0 == ctx.authorator_key@ && signed[1].1);
    assert(forall|j: int| 0 <= j < 1 ==> signed[j].0 != ctx.authorator_key@);
}

/// The address that provisioning `seed` stores its vault at.
pub open spec fn vault_key_of(program_id: Seq<u8>, seed: Seq<char>) -> Seq<u8> {
    key_or_empty(program_address(vault_seeds(seed), program_id))
}

/// A seed names one vault: once provisioning `seed` has succeeded and stored
/// its vault, provisioning `seed` again fails, whoever asks and for whichever
/// operator.
pub proof fn lemma_add_vault_twice(
    s: Map<Seq<u8>, Record>,
    program_id: Seq<u8>,
    seed: Seq<char>,
    admin1: Seq<u8>,
    operator1: Seq<u8>,
    admin2: Seq<u8>,
    operator2: Seq<u8>,
    stored: Record,
)
    requires
        spec_add_vault(s, program_id, admin1, seed, operator1) is Ok,
    ensures
        spec_add_vault(s.insert(vault_key_of(program_id, seed), stored), program_id, admin2, seed, operator2) is Err,
{
    let c = program_address(config_seeds(), program_id)->Some_0;
    let vk = vault_key_of(program_id, seed);
    assert(s.contains_key(c.0) && !s.contains_key(vk));
    assert(vk != c.0);
    let s2 = s.insert(vk, stored);
    assert(s2.contains_key(c.0) && s2[c.0] == s[c.0]);
    assert(s2.contains_key(vk));
}

/// Two vaults provisioned one after the other are stored at two different
/// addresses, and the first stays in place.
pub proof fn lemma_two_vaults_two_addresses(
    s: Map<Seq<u8>, Record>,
    program_id: Seq<u8>,
    admin: Seq<u8>,
    seed1: Seq<char>,
    operator1: Seq<u8>,
    seed2: Seq<char>,
    operator2: Seq<u8>,
    stored1: Record,
    stored2: Record,
)
    requires
        spec_add_vault(s, program_id, admin, seed1, operator1) is Ok,
        spec_add_vault(s.insert(vault_key_of(program_id, seed1), stored1), program_id, admin, seed2, operator2) is Ok,
    ensures
        vault_key_of(program_id, seed1) != vault_key_of(program_id, seed2),
        s.insert(vault_key_of(program_id, seed1), stored1).insert(vault_key_of(program_id, seed2), stored2)[vault_key_of(
            program_id,
            seed1,
        )] == stored1,
{
    let c = program_address(config_seeds(), program_id)->Some_0;
    let vk1 = vault_key_of(program_id, seed1);
    assert(s.contains_key(c.0) && !s.contains_key(vk1));
    let s1 = s.insert(vk1, stored1);
    assert(s1.contains_key(vk1));
}

/// Terms attach to a voucher once: after a first success has stored them at
/// the voucher's terms address, a second attempt for the same voucher fails,
/// whatever the vault, the caller, the records supplied, the terms or the time.
pub proof fn lemma_add_repay_voucher_twice(
    s: Map<Seq<u8>, Record>,
    program_id: Seq<u8>,
    mint: Seq<u8>,
    operator1: Seq<u8>,
    vault_key1: Seq<u8>,
    metadata1: AccountInput,
    edition1: AccountInput,
    params1: AddRepayVoucherParams,
    now1: i64,
    operator2: Seq<u8>,
    vault_key2: Seq<u8>,
    metadata2: AccountInput,
    edition2: AccountInput,
    params2: AddRepayVoucherParams,
    now2: i64,
    stored: Record,
)
    requires
        spec_add_repay_voucher(s, program_id, operator1, vault_key1, mint, metadata1, edition1, params1, now1) is Ok,
    ensures
        spec_add_repay_voucher(
            s.insert(key_or_empty(program_address(repay_voucher_seeds(mint), program_id)), stored),
            program_id,
            operator2,
            vault_key2,
            mint,
            metadata2,
            edition2,
            params2,
            now2,
        ) is Err,
{
    let rk = key_or_empty(program_address(repay_voucher_seeds(mint), program_id));
    let s2 = s.insert(rk, stored);
    assert(s2.contains_key(rk));
}

/// Operations scoped to a genuine vault are refused to anyone but its
/// operator with `OnlyOperator`, and never refused to the operator on
/// authorization grounds: attaching terms.
pub proof fn lemma_only_operator_adds_terms(ctx: AddRepayVoucherView, params: AddRepayVoucherParams)
    requires
        spec_key_is_derived(ctx.vault_key, program_address(vault_seeds(ctx.vault.1), ctx.program_id)),
    ensures
        ctx.operator != ctx.vault.0 ==> repay::spec_handler(ctx, params) == Err::<
            crate::state::RepayVoucherView,
            VoucherNftError,
        >(VoucherNftError::OnlyOperator),
        ctx.operator == ctx.vault.0 ==> repay::spec_handler(ctx, params) != Err::<
            crate::state::RepayVoucherView,
            VoucherNftError,
        >(VoucherNftError::OnlyOperator),
{
}

/// The same for issuing a voucher: with the configuration, the vault and the
/// program signer at their derived addresses, anyone but the operator gets
/// `OnlyOperator`, and the operator is never refused on authorization grounds.
pub proof fn lemma_only_operator_mints(ctx: MintVoucher)
    requires
        spec_key_is_derived(ctx.config_key@, program_address(config_seeds(), ctx.program_id@)),
        spec_key_is_derived(ctx.vault_key@, program_address(vault_seeds(ctx.vault.seed@), ctx.program_id@)),
        spec_key_is_derived(ctx.authorator_key@, program_address(authorator_seeds(), ctx.program_id@)),
    ensures
        ctx.operator@ != ctx.vault.operator@ ==> issue::spec_checks(ctx) == Err::<(), VoucherNftError>(VoucherNftError::OnlyOperator),
        ctx.operator@ == ctx.vault.operator@ ==> issue::spec_checks(ctx) != Err::<(), VoucherNftError>(VoucherNftError::OnlyOperator),
{
}

/// The same for an airdrop out of a genuine vault.
pub proof fn lemma_only_operator_airdrops(ctx: OperatorAirdrop)
    requires
        spec_key_is_derived(ctx.vault_key@, program_address(vault_seeds(ctx.vault.seed@), ctx.program_id@)),
    ensures
        ctx.operator@ != ctx.vault.operator@ ==> airdrop::spec_checks(ctx) == Err::<(), VoucherNftError>(VoucherNftError::OnlyOperator),
        ctx.operator@ == ctx.vault.operator@ ==> airdrop::spec_checks(ctx) != Err::<(), VoucherNftError>(VoucherNftError::OnlyOperator),
{
}

/// Each rule of the terms names its own error: the discount rule fails iff
/// the discount exceeds 10000; the cap rule, checked next, iff the cap is 0;
/// the window rule, next, iff start is not before end; the clock rule, last,
/// iff start is before now; and the terms pass iff all four hold. Where only
/// one rule is broken, that rule's error is the result.
pub proof fn lemma_terms_rules(d: u16, m: u32, start: i64, end: i64, now: i64)
    ensures
        (spec_validate_terms(d, m, start, end, now) == Err::<(), VoucherNftError>(VoucherNftError::InvalidDiscountPercentage))
            <==> d > MAX_DISCOUNT_BPS,
        (spec_validate_terms(d, m, start, end, now) == Err::<(), VoucherNftError>(VoucherNftError::InvalidMaximumAmount))
            <==> (d <= MAX_DISCOUNT_BPS && m == 0),
        (spec_validate_terms(d, m, start, end, now) == Err::<(), VoucherNftError>(VoucherNftError::StartTimeAfterEndTime))
            <==> (d <= MAX_DISCOUNT_BPS && m != 0 && start >= end),
        (spec_validate_terms(d, m, start, end, now) == Err::<(), VoucherNftError>(VoucherNftError::StartTimeBeforeCurrentTime))
            <==> (d <= MAX_DISCOUNT_BPS && m != 0 && start < end && start < now),
        spec_validate_terms(d, m, start, end, now) is Ok <==> (d <= MAX_DISCOUNT_BPS && m != 0 && start < end && start >= now),
{
}

/// A voucher whose descriptive record does not list the program signer as a
/// verified creator is refused with `AuthoratorNotSigned`, whatever terms
/// come with it.
pub proof fn lemma_unsigned_voucher_refused(
    ctx: AddRepayVoucherView,
    params: AddRepayVoucherParams,
    authorator: (Seq<u8>, u8),
    creators: Option<Seq<(Seq<u8>, bool, u8)>>,
)
    requires
        spec_key_is_derived(ctx.vault_key, program_address(vault_seeds(ctx.vault.1), ctx.program_id)),
        ctx.operator == ctx.vault.0,
        spec_key_is_derived(ctx.repay_voucher_key, program_address(repay_voucher_seeds(ctx.mint), ctx.program_id)),
        !ctx.repay_voucher_exists,
        spec_check_derived_account(ctx.metadata_key, ctx.metadata_data.len() == 0,
            program_address(metadata_seeds(ctx.mint), token_metadata_program_bytes())) is Ok,
        spec_check_derived_account(ctx.edition_key, ctx.edition_data.len() == 0,
            program_address(master_edition_seeds(ctx.mint), token_metadata_program_bytes())) is Ok,
        program_address(authorator_seeds(), ctx.program_id) == Some(authorator),
        decoded_creators(ctx.metadata_data) == Some(creators),
        creators is None || !signed_by(creators->Some_0, authorator.0),
    ensures
        repay::spec_handler(ctx, params) == Err::<crate::state::RepayVoucherView, VoucherNftError>(VoucherNftError::AuthoratorNotSigned),
{
}

/// An airdrop is refused with `InvalidNftMint` exactly when the unit is not a
/// singleton of divisibility 0 (the checks before it passing).
pub proof fn lemma_airdrop_needs_singleton(ctx: OperatorAirdrop)
    requires
        spec_key_is_derived(ctx.vault_key@, program_address(vault_seeds(ctx.vault.seed@), ctx.program_id@)),
        ctx.operator@ == ctx.vault.operator@,
        airdrop::holding_fits(ctx.vault_token_account, ctx.vault_key@, ctx.mint@),
        ctx.user_token_account is Some ==> airdrop::holding_fits(ctx.user_token_account->Some_0, ctx.user@, ctx.mint@),
        spec_check_derived_account(ctx.master_edition.key@, ctx.master_edition.data@.len() == 0,
            program_address(master_edition_seeds(ctx.mint@), token_metadata_program_bytes())) is Ok,
    ensures
        (airdrop::spec_checks(ctx) == Err::<(), VoucherNftError>(VoucherNftError::InvalidNftMint))
            <==> (ctx.mint_info.supply != 1 || ctx.mint_info.decimals != 0),
        airdrop::spec_checks(ctx) is Ok <==> (ctx.mint_info.supply == 1 && ctx.mint_info.decimals == 0),
{
}

/// An airdrop moves exactly one unit: where the vault holds at least one,
/// once its calls have run the vault's balance is one lower, the recipient's
/// one higher (from zero where its holding was just opened), and the unit
/// itself, supply included, is unchanged.
pub proof fn lemma_airdrop_moves_one(ctx: OperatorAirdrop, calls: Seq<LedgerCall>, h: Map<Seq<u8>, nat>, u: UnitState)
    requires
        airdrop::spec_checks(ctx) is Ok,
        is_airdrop_plan(calls, ctx),
        ctx.user@ != ctx.vault_key@,
        h.contains_key(ctx.vault_key@),
        h[ctx.vault_key@] >= 1,
        ctx.user_token_account is Some <==> h.contains_key(ctx.user@),
    ensures
        run_holdings(h, ctx.mint@, calls).contains_key(ctx.vault_key@),
        run_holdings(h, ctx.mint@, calls)[ctx.vault_key@] == h[ctx.vault_key@] - 1,
        run_holdings(h, ctx.mint@, calls).contains_key(ctx.user@),
        run_holdings(h, ctx.mint@, calls)[ctx.user@] == (if h.contains_key(ctx.user@) { h[ctx.user@] } else { 0 }) + 1,
        run_calls(u, ctx.mint@, calls) == u,
{
    let mint = ctx.mint@;
    if ctx.user_token_account is Some {
        assert(calls.drop_first() =~= Seq::<LedgerCall>::empty());
        assert(calls[0] == calls.last());
        let h1 = apply_holdings(h, mint, calls[0]);
        assert(run_holdings(h1, mint, calls.drop_first()) == h1);
        assert(run_holdings(h, mint, calls) == h1);
        assert(run_calls(apply_call_of(u, mint, calls[0]), mint, calls.drop_first()) == apply_call_of(u, mint, calls[0]));
    } else {
        let h1 = apply_holdings(h, mint, calls[0]);
        assert(h1 == h.insert(ctx.user@, 0));
        let rest = calls.drop_first();
        assert(rest.drop_first() =~= Seq::<LedgerCall>::empty());
        assert(rest[0] == calls.last());
        let h2 = apply_holdings(h1, mint, rest[0]);
        assert(run_holdings(h2, mint, rest.drop_first()) == h2);
        assert(run_holdings(h1, mint, rest) == h2);
        assert(run_holdings(h, mint, calls) == h2);
        let u1 = apply_call_of(u, mint, calls[0]);
        assert(u1 == u);
        assert(run_calls(apply_call_of(u1, mint, rest[0]), mint, rest.drop_first()) == apply_call_of(u1, mint, rest[0]));
        assert(run_calls(u1, mint, rest) == u1);
    }
}

} // verus!
