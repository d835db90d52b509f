//! The three instructions: initialize, mint tokens, disable minting.

use crate::address::{
    authority_address, authority_label, config_label, derived_address, find_authority, find_config,
    is_canonical_bump, is_canonical_derivation, lemma_canonical_derivation_is,
    lemma_no_canonical_derivation, Address,
};
use crate::ledger::{
    credited, mint_to_result, minted, set_authority_result, InstructionError, Mint, TokenAccount,
};
use vstd::prelude::*;

verus! {

/// Errors of this program.
#[derive(Clone, Copy, Debug, PartialEq, Eq)]
pub enum CustomError {
    /// Only the configured owner may perform this action.
    Unauthorized,
}

/// The configuration record of a mint, stored at the address derived from
/// the label "config" and the mint.
#[derive(Clone, Copy, Debug)]
pub struct MintConfig {
    /// Who may mint and disable minting.
    pub owner: Address,
    /// The mint this record governs.
    pub mint: Address,
    /// The bump that derives the delegated authority of `mint`.
    pub bump: u8,
}

/// The accounts of `initialize`, other than the mint and the record.
#[derive(Clone, Copy, Debug)]
pub struct Initialize {
    pub program_id: Address,
    /// Pays for the new configuration record.
    pub payer: Address,
    /// The delegated authority that is to hold the mint authority.
    pub mint_authority_pda: Address,
    /// The signer that holds the mint authority now.
    pub current_mint_authority: Address,
    /// Where the configuration record is created.
    pub config_address: Address,
}

/// The accounts of `mint_tokens`, other than the mint, the record and the
/// destination.
#[derive(Clone, Copy, Debug)]
pub struct MintTokens {
    pub program_id: Address,
    /// The signer of the call.
    pub owner: Address,
    /// The delegated authority of the mint.
    pub mint_authority_pda: Address,
    /// Where the configuration record is stored.
    pub config_address: Address,
}

/// The accounts of `disable_minting`, other than the mint and the record.
#[derive(Clone, Copy, Debug)]
pub struct DisableMinting {
    pub program_id: Address,
    /// The signer of the call.
    pub owner: Address,
    /// The delegated authority of the mint.
    pub mint_authority_pda: Address,
    /// Where the configuration record is stored.
    pub config_address: Address,
}

/// What `initialize` gives on these accounts.
pub open spec fn initialize_result(ctx: Initialize, mint: Mint, config: Option<MintConfig>) -> Result<
    (),
    InstructionError,
> {
    if !is_canonical_derivation(authority_label(), mint.key@, ctx.program_id@, ctx.mint_authority_pda@) {
        Err(InstructionError::ConstraintSeeds)
    } else if !is_canonical_derivation(config_label(), mint.key@, ctx.program_id@, ctx.config_address@) {
        Err(InstructionError::ConstraintSeeds)
    } else if config is Some {
        Err(InstructionError::AccountAlreadyInUse)
    } else {
        set_authority_result(mint, ctx.current_mint_authority@)
    }
}

/// The presented delegated authority and record address are the ones that
/// `cfg.bump` and the canonical config bump derive from `mint`.
pub open spec fn seeds_hold(program_id: Address, pda: Address, config_address: Address, mint: Mint, cfg: MintConfig) -> bool {
    &&& derived_address(authority_label(), mint.key@, cfg.bump, program_id@) == Some(pda@)
    &&& is_canonical_derivation(config_label(), mint.key@, program_id@, config_address@)
}

/// Checks shared by `mint_tokens` and `disable_minting`, before the token
/// operation.
pub open spec fn gate_result(
    program_id: Address,
    owner: Address,
    pda: Address,
    config_address: Address,
    mint: Mint,
    config: Option<MintConfig>,
) -> Result<(), InstructionError> {
    match config {
        None => Err(InstructionError::AccountNotInitialized),
        Some(cfg) => if !seeds_hold(program_id, pda, config_address, mint, cfg) {
            Err(InstructionError::ConstraintSeeds)
        } else if owner@ != cfg.owner@ {
            Err(InstructionError::Custom(CustomError::Unauthorized))
        } else {
            Ok(())
        },
    }
}

/// What `mint_tokens` gives on these accounts.
pub open spec fn mint_tokens_result(
    ctx: MintTokens,
    config: Option<MintConfig>,
    mint: Mint,
    dest: TokenAccount,
    amount: u64,
) -> Result<(), InstructionError> {
    match gate_result(ctx.program_id, ctx.owner, ctx.mint_authority_pda, ctx.config_address, mint, config) {
        Err(e) => Err(e),
        Ok(()) => mint_to_result(mint, dest, ctx.mint_authority_pda@, amount),
    }
}

/// What `disable_minting` gives on these accounts.
pub open spec fn disable_minting_result(ctx: DisableMinting, config: Option<MintConfig>, mint: Mint) -> Result<
    (),
    InstructionError,
> {
    match gate_result(ctx.program_id, ctx.owner, ctx.mint_authority_pda, ctx.config_address, mint, config) {
        Err(e) => Err(e),
        Ok(()) => set_authority_result(mint, ctx.mint_authority_pda@),
    }
}

/// Checks that `config_address` is the canonical record address of `mint`.
fn check_config_address(mint: &Address, program_id: &Address, config_address: &Address) -> (r: bool)
    ensures
        r == is_canonical_derivation(config_label(), mint@, program_id@, config_address@),
{
    match find_config(mint, program_id) {
        None => {
            proof {
                lemma_no_canonical_derivation(config_label(), mint@, program_id@, config_address@);
            }
            false
        },
        Some((a, b)) => {
            proof {
                lemma_canonical_derivation_is(config_label(), mint@, program_id@, b, config_address@);
            }
            a.same(config_address)
        },
    }
}

/// Creates the configuration record of `mint` with `owner` and the
/// canonical authority bump, and hands the mint authority from the current
/// signer to the delegated authority. All or nothing.
pub fn initialize(ctx: &Initialize, mint: &mut Mint, config: &mut Option<MintConfig>, owner: Address) -> (r: Result<
    (),
    InstructionError,
>)
    ensures
        r == initialize_result(*ctx, *old(mint), *old(config)),
        r is Ok ==> {
            &&& *final(mint) == (Mint { authority: Some(ctx.mint_authority_pda), ..*old(mint) })
            &&& (*final(config)) is Some
            &&& (*final(config)).unwrap().owner == owner
            &&& (*final(config)).unwrap().mint == old(mint).key
            &&& is_canonical_bump(
                authority_label(),
                old(mint).key@,
                ctx.program_id@,
                (*final(config)).unwrap().bump,
            )
            &&& derived_address(
                authority_label(),
                old(mint).key@,
                (*final(config)).unwrap().bump,
                ctx.program_id@,
            ) == Some(ctx.mint_authority_pda@)
        },
        r is Err ==> *final(mint) == *old(mint) && *final(config) == *old(config),
{
    let bump: u8;
    match find_authority(&mint.key, &ctx.program_id) {
        None => {
            proof {
                lemma_no_canonical_derivation(
                    authority_label(),
                    mint.key@,
                    ctx.program_id@,
                    ctx.mint_authority_pda@,
                );
            }
            return Err(InstructionError::ConstraintSeeds);
        },
        Some((a, b)) => {
            proof {
                lemma_canonical_derivation_is(
                    authority_label(),
                    mint.key@,
                    ctx.program_id@,
                    b,
                    ctx.mint_authority_pda@,
                );
            }
            if !a.same(&ctx.mint_authority_pda) {
                return Err(InstructionError::ConstraintSeeds);
            }
            bump = b;
        },
    }
    if !check_config_address(&mint.key, &ctx.program_id, &ctx.config_address) {
        return Err(InstructionError::ConstraintSeeds);
    }
    if config.is_some() {
        return Err(InstructionError::AccountAlreadyInUse);
    }
    match mint.set_authority(&ctx.current_mint_authority, Some(ctx.mint_authority_pda)) {
        Err(e) => Err(e),
        Ok(()) => {
            *config = Some(MintConfig { owner, mint: mint.key, bump });
            Ok(())
        },
    }
}

/// The checks before a token operation: the record exists, the presented
/// addresses are derived from it, and the caller is its owner.
fn gate(
    program_id: &Address,
    owner: &Address,
    pda: &Address,
    config_address: &Address,
    mint: &Mint,
    config: &Option<MintConfig>,
) -> (r: Result<(), InstructionError>)
    ensures
        r == gate_result(*program_id, *owner, *pda, *config_address, *mint, *config),
{
    match config {
        None => Err(InstructionError::AccountNotInitialized),
        Some(cfg) => {
            let pda_ok = match authority_address(&mint.key, cfg.bump, program_id) {
                None => false,
                Some(a) => a.same(pda),
            };
            if !pda_ok {
                return Err(InstructionError::ConstraintSeeds);
            }
            if !check_config_address(&mint.key, program_id, config_address) {
                return Err(InstructionError::ConstraintSeeds);
            }
            if !owner.same(&cfg.owner) {
                return Err(InstructionError::Custom(CustomError::Unauthorized));
            }
            Ok(())
        },
    }
}

/// Creates `amount` new units into `destination`, signed by the delegated
/// authority, where the caller is the configured owner. All or nothing.
pub fn mint_tokens(
    ctx: &MintTokens,
    config: &Option<MintConfig>,
    mint: &mut Mint,
    destination: &mut TokenAccount,
    amount: u64,
) -> (r: Result<(), InstructionError>)
    ensures
        r == mint_tokens_result(*ctx, *config, *old(mint), *old(destination), amount),
        r is Ok ==> *final(mint) == minted(*old(mint), amount) && *final(destination) == credited(
            *old(destination),
            amount,
        ),
        r is Err ==> *final(mint) == *old(mint) && *final(destination) == *old(destination),
{
    match gate(&ctx.program_id, &ctx.owner, &ctx.mint_authority_pda, &ctx.config_address, mint, config) {
        Err(e) => Err(e),
        Ok(()) => mint.mint_to(destination, &ctx.mint_authority_pda, amount),
    }
}

/// Removes the mint authority for good, signed by the delegated authority,
/// where the caller is the configured owner. All or nothing.
pub fn disable_minting(ctx: &DisableMinting, config: &Option<MintConfig>, mint: &mut Mint) -> (r: Result<
    (),
    InstructionError,
>)
    ensures
        r == disable_minting_result(*ctx, *config, *old(mint)),
        r is Ok ==> *final(mint) == (Mint { authority: None, ..*old(mint) }),
        r is Err ==> *final(mint) == *old(mint),
{
    match gate(&ctx.program_id, &ctx.owner, &ctx.mint_authority_pda, &ctx.config_address, mint, config) {
        Err(e) => Err(e),
        Ok(()) => mint.set_authority(&ctx.mint_authority_pda, None),
    }
}

} // verus!
