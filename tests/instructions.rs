use anchor_lang::prelude::Pubkey;
use owner_mint_token::address::{authority_address, authority_seed, config_seed, find_authority, find_config, Address};
use owner_mint_token::ledger::{InstructionError, Mint, TokenAccount};
use owner_mint_token::program::{
    disable_minting, initialize, mint_tokens, CustomError, DisableMinting, Initialize, MintConfig, MintTokens,
};

fn key(b: u8) -> Address {
    Address::new([b; 32])
}

fn program_id() -> Address {
    key(0)
}

struct Setup {
    mint: Mint,
    config: Option<MintConfig>,
    dest: TokenAccount,
    pda: Address,
    bump: u8,
    config_address: Address,
}

fn setup(signer: Address) -> Setup {
    let mint_key = key(7);
    let (pda, bump) = find_authority(&mint_key, &program_id()).unwrap();
    let (config_address, _) = find_config(&mint_key, &program_id()).unwrap();
    Setup {
        mint: Mint { key: mint_key, authority: Some(signer), supply: 0 },
        config: None,
        dest: TokenAccount { key: key(9), mint: mint_key, amount: 0 },
        pda,
        bump,
        config_address,
    }
}

fn init_ctx(s: &Setup, signer: Address) -> Initialize {
    Initialize {
        program_id: program_id(),
        payer: key(1),
        mint_authority_pda: s.pda,
        current_mint_authority: signer,
        config_address: s.config_address,
    }
}

fn mint_ctx(s: &Setup, caller: Address) -> MintTokens {
    MintTokens { program_id: program_id(), owner: caller, mint_authority_pda: s.pda, config_address: s.config_address }
}

fn disable_ctx(s: &Setup, caller: Address) -> DisableMinting {
    DisableMinting { program_id: program_id(), owner: caller, mint_authority_pda: s.pda, config_address: s.config_address }
}

fn initialized(owner: Address) -> Setup {
    let signer = key(2);
    let mut s = setup(signer);
    let ctx = init_ctx(&s, signer);
    assert_eq!(initialize(&ctx, &mut s.mint, &mut s.config, owner), Ok(()));
    s
}

#[test]
fn derivation_matches_pubkey() {
    let mint = key(7);
    let pid = Pubkey::new_from_array([0; 32]);
    let (expected, bump) = Pubkey::find_program_address(&[b"authority", &[7u8; 32]], &pid);
    let (found, found_bump) = find_authority(&mint, &program_id()).unwrap();
    assert_eq!(found.bytes, expected.to_bytes());
    assert_eq!(found_bump, bump);
    let (cfg_expected, _) = Pubkey::find_program_address(&[b"config", &[7u8; 32]], &pid);
    let (cfg_found, _) = find_config(&mint, &program_id()).unwrap();
    assert_eq!(cfg_found.bytes, cfg_expected.to_bytes());
    assert_ne!(found, cfg_found);
    assert_ne!(found, mint);
}

#[test]
fn derivation_is_deterministic() {
    let mint = key(7);
    let (a1, b1) = find_authority(&mint, &program_id()).unwrap();
    let (a2, b2) = find_authority(&mint, &program_id()).unwrap();
    assert_eq!(a1, a2);
    assert_eq!(b1, b2);
    assert_eq!(authority_address(&mint, b1, &program_id()), Some(a1));
    let (c1, _) = find_config(&mint, &program_id()).unwrap();
    let (c2, _) = find_config(&mint, &program_id()).unwrap();
    assert_eq!(c1, c2);
}

#[test]
fn seed_labels() {
    assert_eq!(authority_seed(), b"authority".to_vec());
    assert_eq!(config_seed(), b"config".to_vec());
}

#[test]
fn full_lifecycle_scenario() {
    let owner = key(3);
    let mut s = initialized(owner);
    let cfg = s.config.unwrap();
    assert_eq!(cfg.owner, owner);
    assert_eq!(cfg.mint, key(7));
    assert_eq!(cfg.bump, s.bump);
    assert_eq!(s.mint.authority, authority_address(&key(7), cfg.bump, &program_id()));
    assert_eq!(s.mint.authority, Some(s.pda));

    let ctx = mint_ctx(&s, owner);
    let config = s.config;
    assert_eq!(mint_tokens(&ctx, &config, &mut s.mint, &mut s.dest, 100), Ok(()));
    assert_eq!(s.dest.amount, 100);
    assert_eq!(s.mint.supply, 100);

    let dctx = disable_ctx(&s, owner);
    assert_eq!(disable_minting(&dctx, &config, &mut s.mint), Ok(()));
    assert_eq!(s.mint.authority, None);

    assert_eq!(
        mint_tokens(&ctx, &config, &mut s.mint, &mut s.dest, 1),
        Err(InstructionError::FixedSupply)
    );
    assert_eq!(s.dest.amount, 100);
    assert_eq!(s.mint.supply, 100);
}

#[test]
fn second_initialize_fails() {
    let owner = key(3);
    let mut s = initialized(owner);
    let before_config = s.config.unwrap();
    let before_authority = s.mint.authority;
    let ctx = init_ctx(&s, s.pda);
    assert_eq!(
        initialize(&ctx, &mut s.mint, &mut s.config, key(4)),
        Err(InstructionError::AccountAlreadyInUse)
    );
    let after = s.config.unwrap();
    assert_eq!(after.owner, before_config.owner);
    assert_eq!(after.bump, before_config.bump);
    assert_eq!(s.mint.authority, before_authority);
}

#[test]
fn initialize_with_wrong_signer_fails() {
    let signer = key(2);
    let mut s = setup(signer);
    let ctx = init_ctx(&s, key(5));
    assert_eq!(
        initialize(&ctx, &mut s.mint, &mut s.config, key(3)),
        Err(InstructionError::OwnerMismatch)
    );
    assert!(s.config.is_none());
    assert_eq!(s.mint.authority, Some(signer));
}

#[test]
fn initialize_with_wrong_authority_address_fails() {
    let signer = key(2);
    let mut s = setup(signer);
    let mut ctx = init_ctx(&s, signer);
    ctx.mint_authority_pda = key(8);
    assert_eq!(
        initialize(&ctx, &mut s.mint, &mut s.config, key(3)),
        Err(InstructionError::ConstraintSeeds)
    );
    let mut ctx = init_ctx(&s, signer);
    ctx.config_address = s.pda;
    assert_eq!(
        initialize(&ctx, &mut s.mint, &mut s.config, key(3)),
        Err(InstructionError::ConstraintSeeds)
    );
    assert!(s.config.is_none());
    assert_eq!(s.mint.authority, Some(signer));
}

#[test]
fn non_owner_is_rejected() {
    let owner = key(3);
    let mut s = initialized(owner);
    let config = s.config;
    let ctx = mint_ctx(&s, key(4));
    assert_eq!(
        mint_tokens(&ctx, &config, &mut s.mint, &mut s.dest, 10),
        Err(InstructionError::Custom(CustomError::Unauthorized))
    );
    let dctx = disable_ctx(&s, key(4));
    assert_eq!(
        disable_minting(&dctx, &config, &mut s.mint),
        Err(InstructionError::Custom(CustomError::Unauthorized))
    );
    assert_eq!(s.mint.supply, 0);
    assert_eq!(s.dest.amount, 0);
    assert_eq!(s.mint.authority, Some(s.pda));
}

#[test]
fn minting_accumulates() {
    let owner = key(3);
    let mut s = initialized(owner);
    let config = s.config;
    let ctx = mint_ctx(&s, owner);
    assert_eq!(mint_tokens(&ctx, &config, &mut s.mint, &mut s.dest, 40), Ok(()));
    assert_eq!(mint_tokens(&ctx, &config, &mut s.mint, &mut s.dest, 2), Ok(()));
    assert_eq!(s.mint.supply, 42);
    assert_eq!(s.dest.amount, 42);
}

#[test]
fn minting_overflow_fails() {
    let owner = key(3);
    let mut s = initialized(owner);
    let config = s.config;
    let ctx = mint_ctx(&s, owner);
    assert_eq!(mint_tokens(&ctx, &config, &mut s.mint, &mut s.dest, u64::MAX), Ok(()));
    assert_eq!(
        mint_tokens(&ctx, &config, &mut s.mint, &mut s.dest, 1),
        Err(InstructionError::Overflow)
    );
    assert_eq!(s.mint.supply, u64::MAX);
    assert_eq!(s.dest.amount, u64::MAX);
}

#[test]
fn minting_to_other_mint_account_fails() {
    let owner = key(3);
    let mut s = initialized(owner);
    let config = s.config;
    let ctx = mint_ctx(&s, owner);
    let mut other = TokenAccount { key: key(10), mint: key(11), amount: 5 };
    assert_eq!(
        mint_tokens(&ctx, &config, &mut s.mint, &mut other, 1),
        Err(InstructionError::MintMismatch)
    );
    assert_eq!(other.amount, 5);
    assert_eq!(s.mint.supply, 0);
}

#[test]
fn missing_config_fails() {
    let mut s = setup(key(2));
    let ctx = mint_ctx(&s, key(3));
    let config = s.config;
    assert_eq!(
        mint_tokens(&ctx, &config, &mut s.mint, &mut s.dest, 1),
        Err(InstructionError::AccountNotInitialized)
    );
}

#[test]
fn wrong_bump_fails() {
    let owner = key(3);
    let mut s = initialized(owner);
    let mut cfg = s.config.unwrap();
    cfg.bump = cfg.bump.wrapping_sub(1);
    let config = Some(cfg);
    let ctx = mint_ctx(&s, owner);
    assert_eq!(
        mint_tokens(&ctx, &config, &mut s.mint, &mut s.dest, 1),
        Err(InstructionError::ConstraintSeeds)
    );
    assert_eq!(s.mint.supply, 0);
}

#[test]
fn disabling_is_permanent() {
    let owner = key(3);
    let mut s = initialized(owner);
    let config = s.config;
    let dctx = disable_ctx(&s, owner);
    assert_eq!(disable_minting(&dctx, &config, &mut s.mint), Ok(()));
    assert_eq!(disable_minting(&dctx, &config, &mut s.mint), Err(InstructionError::FixedSupply));
    assert_eq!(s.mint.authority, None);
    let ctx = mint_ctx(&s, owner);
    assert_eq!(
        mint_tokens(&ctx, &config, &mut s.mint, &mut s.dest, 1),
        Err(InstructionError::FixedSupply)
    );
    let mut fresh = None;
    let ictx = init_ctx(&s, owner);
    assert_eq!(
        initialize(&ictx, &mut s.mint, &mut fresh, owner),
        Err(InstructionError::FixedSupply)
    );
    assert_eq!(s.mint.authority, None);
    assert_eq!(s.mint.supply, 0);
}
