//! The token state that the instructions act on, and the two token
//! operations they request: changing a mint's authority and minting.

use crate::address::Address;
use vstd::prelude::*;

verus! {

/// Why an instruction was rejected. A rejected instruction changes nothing.
#[derive(Clone, Copy, Debug, PartialEq, Eq)]
pub enum InstructionError {
    /// An error of this program.
    Custom(crate::program::CustomError),
    /// A presented address is not the one derived from its seeds.
    ConstraintSeeds,
    /// The configuration record to be created exists already.
    AccountAlreadyInUse,
    /// The configuration record to be read does not exist.
    AccountNotInitialized,
    /// The presented authority is not the mint's authority.
    OwnerMismatch,
    /// The mint has no authority: its supply is fixed.
    FixedSupply,
    /// The destination account holds another mint's token.
    MintMismatch,
    /// The supply or a balance would overflow.
    Overflow,
}

/// A token mint: its address, its mint authority (`None` once minting is
/// disabled) and its total supply.
#[derive(Clone, Copy, Debug)]
pub struct Mint {
    pub key: Address,
    pub authority: Option<Address>,
    pub supply: u64,
}

/// An account holding `amount` units of the token of `mint`.
#[derive(Clone, Copy, Debug)]
pub struct TokenAccount {
    pub key: Address,
    pub mint: Address,
    pub amount: u64,
}

/// The authority as a byte sequence, where there is one.
pub open spec fn authority_view(a: Option<Address>) -> Option<Seq<u8>> {
    match a {
        Some(k) => Some(k@),
        None => None,
    }
}

/// What changing the authority of `mint` with the signature of `current` gives.
pub open spec fn set_authority_result(mint: Mint, current: Seq<u8>) -> Result<(), InstructionError> {
    match mint.authority {
        None => Err(InstructionError::FixedSupply),
        Some(a) => if a@ == current {
            Ok(())
        } else {
            Err(InstructionError::OwnerMismatch)
        },
    }
}

/// What minting `amount` into `dest` with the signature of `authority` gives.
pub open spec fn mint_to_result(mint: Mint, dest: TokenAccount, authority: Seq<u8>, amount: u64) -> Result<
    (),
    InstructionError,
> {
    if dest.mint@ != mint.key@ {
        Err(InstructionError::MintMismatch)
    } else if mint.authority is None {
        Err(InstructionError::FixedSupply)
    } else if mint.authority.unwrap()@ != authority {
        Err(InstructionError::OwnerMismatch)
    } else if dest.amount + amount > u64::MAX || mint.supply + amount > u64::MAX {
        Err(InstructionError::Overflow)
    } else {
        Ok(())
    }
}

/// `mint` after `amount` new units were created.
pub open spec fn minted(mint: Mint, amount: u64) -> Mint {
    Mint { supply: (mint.supply + amount) as u64, ..mint }
}

/// `dest` after `amount` units were credited to it.
pub open spec fn credited(dest: TokenAccount, amount: u64) -> TokenAccount {
    TokenAccount { amount: (dest.amount + amount) as u64, ..dest }
}

impl Mint {
    /// Replaces the mint authority by `new`, signed by `current`.
    pub fn set_authority(&mut self, current: &Address, new: Option<Address>) -> (r: Result<(), InstructionError>)
        ensures
            r == set_authority_result(*old(self), current@),
            r is Ok ==> *final(self) == (Mint { authority: new, ..*old(self) }),
            r is Err ==> *final(self) == *old(self),
    {
        match &self.authority {
            None => Err(InstructionError::FixedSupply),
            Some(a) => {
                if a.same(current) {
                    self.authority = new;
                    Ok(())
                } else {
                    Err(InstructionError::OwnerMismatch)
                }
            },
        }
    }

    /// Creates `amount` new units into `dest`, signed by `authority`.
    pub fn mint_to(&mut self, dest: &mut TokenAccount, authority: &Address, amount: u64) -> (r: Result<
        (),
        InstructionError,
    >)
        ensures
            r == mint_to_result(*old(self), *old(dest), authority@, amount),
            r is Ok ==> *final(self) == minted(*old(self), amount) && *final(dest) == credited(
                *old(dest),
                amount,
            ),
            r is Err ==> *final(self) == *old(self) && *final(dest) == *old(dest),
    {
        if !dest.mint.same(&self.key) {
            return Err(InstructionError::MintMismatch);
        }
        match &self.authority {
            None => {
                return Err(InstructionError::FixedSupply);
            },
            Some(a) => {
                if !a.same(authority) {
                    return Err(InstructionError::OwnerMismatch);
                }
            },
        }
        if dest.amount > u64::MAX - amount || self.supply > u64::MAX - amount {
            return Err(InstructionError::Overflow);
        }
        dest.amount = dest.amount + amount;
        self.supply = self.supply + amount;
        Ok(())
    }
}

} // verus!
