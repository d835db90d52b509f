//! Properties of the instructions over any accounts.

use crate::address::{
    authority_label, derived_address, is_canonical_bump, lemma_canonical_derivation_is,
};
use crate::ledger::{credited, minted, InstructionError, Mint, TokenAccount};
use crate::program::{
    disable_minting_result, initialize_result, mint_tokens_result, seeds_hold, CustomError,
    DisableMinting, Initialize, MintConfig, MintTokens,
};
use vstd::prelude::*;

verus! {

/// A mint is initialized at most once: where its configuration record
/// exists, `initialize` is rejected (and, being all or nothing, changes
/// nothing).
pub proof fn lemma_initialize_once(ctx: Initialize, mint: Mint, config: Option<MintConfig>)
    requires
        config is Some,
    ensures
        initialize_result(ctx, mint, config) is Err,
{
}

/// Once a mint has no authority, no instruction succeeds on it any more,
/// whoever calls it; each rejected call leaves the authority `None`.
pub proof fn lemma_disabled_is_terminal(
    init: Initialize,
    owner_call: MintTokens,
    disable: DisableMinting,
    config: Option<MintConfig>,
    mint: Mint,
    dest: TokenAccount,
    amount: u64,
)
    requires
        mint.authority is None,
    ensures
        initialize_result(init, mint, config) is Err,
        mint_tokens_result(owner_call, config, mint, dest, amount) is Err,
        disable_minting_result(disable, config, mint) is Err,
{
}

/// A caller other than the recorded owner can neither mint nor disable
/// minting; where the presented addresses are the derived ones, the
/// rejection is the authorization error.
pub proof fn lemma_non_owner_rejected(
    mint_call: MintTokens,
    disable: DisableMinting,
    cfg: MintConfig,
    mint: Mint,
    dest: TokenAccount,
    amount: u64,
)
    requires
        mint_call.owner@ != cfg.owner@,
        disable.owner@ != cfg.owner@,
    ensures
        mint_tokens_result(mint_call, Some(cfg), mint, dest, amount) is Err,
        disable_minting_result(disable, Some(cfg), mint) is Err,
        seeds_hold(mint_call.program_id, mint_call.mint_authority_pda, mint_call.config_address, mint, cfg)
            ==> mint_tokens_result(mint_call, Some(cfg), mint, dest, amount) == Err::<(), InstructionError>(
            InstructionError::Custom(CustomError::Unauthorized),
        ),
        seeds_hold(disable.program_id, disable.mint_authority_pda, disable.config_address, mint, cfg)
            ==> disable_minting_result(disable, Some(cfg), mint) == Err::<(), InstructionError>(
            InstructionError::Custom(CustomError::Unauthorized),
        ),
{
}

/// Minting is repeatable: after minting `a1`, minting `a2` with the same
/// accounts succeeds as long as the totals fit, and the supply and the
/// destination balance grow by `a1 + a2` in all.
pub proof fn lemma_mint_accumulates(
    ctx: MintTokens,
    config: Option<MintConfig>,
    mint: Mint,
    dest: TokenAccount,
    a1: u64,
    a2: u64,
)
    requires
        mint_tokens_result(ctx, config, mint, dest, a1) is Ok,
        mint.supply + a1 + a2 <= u64::MAX,
        dest.amount + a1 + a2 <= u64::MAX,
    ensures
        mint_tokens_result(ctx, config, minted(mint, a1), credited(dest, a1), a2) is Ok,
        minted(minted(mint, a1), a2).supply == mint.supply + a1 + a2,
        credited(credited(dest, a1), a2).amount == dest.amount + a1 + a2,
{
}

/// The record that a successful `initialize` writes (the canonical
/// authority bump) re-derives, at any later call on the same mint, exactly
/// the delegated authority and record address that were presented then.
pub proof fn lemma_initialized_rederives(ctx: Initialize, mint: Mint, cfg: MintConfig, later: Mint)
    requires
        initialize_result(ctx, mint, None) is Ok,
        cfg.mint == mint.key,
        is_canonical_bump(authority_label(), mint.key@, ctx.program_id@, cfg.bump),
        later.key == mint.key,
    ensures
        derived_address(authority_label(), later.key@, cfg.bump, ctx.program_id@) == Some(
            ctx.mint_authority_pda@,
        ),
        seeds_hold(ctx.program_id, ctx.mint_authority_pda, ctx.config_address, later, cfg),
{
    lemma_canonical_derivation_is(
        authority_label(),
        mint.key@,
        ctx.program_id@,
        cfg.bump,
        ctx.mint_authority_pda@,
    );
}

} // verus!
