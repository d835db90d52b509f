//! Account addresses and their deterministic derivation from seeds.

use anchor_lang::prelude::Pubkey;
use vstd::prelude::*;

verus! {

/// A 32-byte account address.
#[derive(Clone, Copy, Debug)]
pub struct Address {
    pub bytes: [u8; 32],
}

impl View for Address {
    type V = Seq<u8>;

    open spec fn view(&self) -> Seq<u8> {
        self.bytes@
    }
}

impl Address {
    pub fn new(bytes: [u8; 32]) -> (r: Address)
        ensures
            r@ == bytes@,
    {
        Address { bytes }
    }

    /// Byte-wise equality of two addresses.
    pub fn same(&self, other: &Address) -> (r: bool)
        ensures
            r == (self@ == other@),
    {
        let mut i: usize = 0;
        while i < 32
            invariant
                i <= 32,
                self.bytes@.len() == 32,
                other.bytes@.len() == 32,
                forall|j: int| 0 <= j < i ==> self.bytes@[j] == other.bytes@[j],
            decreases 32 - i,
        {
            if self.bytes[i] != other.bytes[i] {
                return false;
            }
            i = i + 1;
        }
        assert(self.bytes@ =~= other.bytes@);
        true
    }
}

impl PartialEq for Address {
    fn eq(&self, other: &Address) -> (r: bool) {
        self.same(other)
    }
}

impl vstd::std_specs::cmp::PartialEqSpecImpl for Address {
    open spec fn obeys_eq_spec() -> bool {
        true
    }

    open spec fn eq_spec(&self, other: &Address) -> bool {
        self@ == other@
    }
}

impl Eq for Address {}

/// The address that the seed list `seeds` and the program `program_id` derive,
/// or `None` where the seeds are refused or the hash lies on the curve (so
/// that a secret key for it could exist).
pub uninterp spec fn program_address(seeds: Seq<Seq<u8>>, program_id: Seq<u8>) -> Option<Seq<u8>>;

/// The seed list `label`, `mint`, `bump`.
pub open spec fn bump_seeds(label: Seq<u8>, mint: Seq<u8>, bump: u8) -> Seq<Seq<u8>> {
    seq![label, mint, seq![bump]]
}

/// The address derived from `label`, `mint` and `bump` under `program_id`.
pub open spec fn derived_address(label: Seq<u8>, mint: Seq<u8>, bump: u8, program_id: Seq<u8>) -> Option<
    Seq<u8>,
> {
    program_address(bump_seeds(label, mint, bump), program_id)
}

/// `bump` is the canonical bump of `label` and `mint`: the largest non-zero
/// bump whose derivation succeeds.
pub open spec fn is_canonical_bump(label: Seq<u8>, mint: Seq<u8>, program_id: Seq<u8>, bump: u8) -> bool {
    &&& 1 <= bump
    &&& derived_address(label, mint, bump, program_id) is Some
    &&& forall|c: u8|
        bump < c ==> (#[trigger] derived_address(label, mint, c, program_id)) is None
}

/// No non-zero bump derives an address from `label` and `mint`.
pub open spec fn no_viable_bump(label: Seq<u8>, mint: Seq<u8>, program_id: Seq<u8>) -> bool {
    forall|c: u8| 1 <= c ==> (#[trigger] derived_address(label, mint, c, program_id)) is None
}

/// Relies on `Pubkey::create_program_address` on the seeds `label`, `mint`,
/// `[bump]`: its result depends on the seeds and the program id alone.
#[verifier::external_body]
fn create_address(label: &Vec<u8>, mint: &Address, bump: u8, program_id: &Address) -> (r: Option<
    Address,
>)
    ensures
        match r {
            Some(a) => program_address(bump_seeds(label@, mint@, bump), program_id@) == Some(a@),
            None => program_address(bump_seeds(label@, mint@, bump), program_id@) is None,
        },
{
    let program = Pubkey::new_from_array(program_id.bytes);
    Pubkey::create_program_address(&[label.as_slice(), &mint.bytes, &[bump]], &program).ok().map(
        |k| Address { bytes: k.to_bytes() },
    )
}

/// Relies on `Pubkey::try_find_program_address` on the seeds `label`, `mint`:
/// it tries the bumps from 255 down to 1 with `create_program_address` and
/// returns the first address found with its bump, or `None` where none is.
#[verifier::external_body]
fn find_address(label: &Vec<u8>, mint: &Address, program_id: &Address) -> (r: Option<(Address, u8)>)
    ensures
        match r {
            Some((a, b)) => is_canonical_bump(label@, mint@, program_id@, b) && program_address(
                bump_seeds(label@, mint@, b),
                program_id@,
            ) == Some(a@),
            None => no_viable_bump(label@, mint@, program_id@),
        },
{
    let program = Pubkey::new_from_array(program_id.bytes);
    Pubkey::try_find_program_address(&[label.as_slice(), &mint.bytes], &program).map(
        |(k, b)| (Address { bytes: k.to_bytes() }, b),
    )
}

/// The seed label of the delegated mint authority: "authority".
pub open spec fn authority_label() -> Seq<u8> {
    seq![97u8, 117u8, 116u8, 104u8, 111u8, 114u8, 105u8, 116u8, 121u8]
}

/// The seed label of the configuration record: "config".
pub open spec fn config_label() -> Seq<u8> {
    seq![99u8, 111u8, 110u8, 102u8, 105u8, 103u8]
}

/// `addr` is what the canonical bump of `label` and `mint` derives.
pub open spec fn is_canonical_derivation(label: Seq<u8>, mint: Seq<u8>, program_id: Seq<u8>, addr: Seq<u8>) -> bool {
    exists|b: u8|
        is_canonical_bump(label, mint, program_id, b) && #[trigger] derived_address(
            label,
            mint,
            b,
            program_id,
        ) == Some(addr)
}

/// A label and a mint have at most one canonical bump, so re-deriving from
/// the same inputs always settles on the same bump and the same address.
pub proof fn lemma_canonical_bump_unique(label: Seq<u8>, mint: Seq<u8>, program_id: Seq<u8>, b1: u8, b2: u8)
    requires
        is_canonical_bump(label, mint, program_id, b1),
        is_canonical_bump(label, mint, program_id, b2),
    ensures
        b1 == b2,
        derived_address(label, mint, b1, program_id) == derived_address(label, mint, b2, program_id),
{
    if b1 < b2 {
        assert(derived_address(label, mint, b2, program_id) is None);
    } else if b2 < b1 {
        assert(derived_address(label, mint, b1, program_id) is None);
    }
}

/// Where `b` is the canonical bump, the canonical derivations are exactly
/// the address that `b` derives.
pub proof fn lemma_canonical_derivation_is(label: Seq<u8>, mint: Seq<u8>, program_id: Seq<u8>, b: u8, addr: Seq<u8>)
    requires
        is_canonical_bump(label, mint, program_id, b),
    ensures
        is_canonical_derivation(label, mint, program_id, addr) <==> derived_address(
            label,
            mint,
            b,
            program_id,
        ) == Some(addr),
{
    if is_canonical_derivation(label, mint, program_id, addr) {
        let c = choose|c: u8|
            is_canonical_bump(label, mint, program_id, c) && #[trigger] derived_address(
                label,
                mint,
                c,
                program_id,
            ) == Some(addr);
        lemma_canonical_bump_unique(label, mint, program_id, b, c);
    }
    if derived_address(label, mint, b, program_id) == Some(addr) {
        assert(is_canonical_bump(label, mint, program_id, b) && derived_address(label, mint, b, program_id) == Some(addr));
    }
}

/// Where no bump is viable, nothing is a canonical derivation.
pub proof fn lemma_no_canonical_derivation(label: Seq<u8>, mint: Seq<u8>, program_id: Seq<u8>, addr: Seq<u8>)
    requires
        no_viable_bump(label, mint, program_id),
    ensures
        !is_canonical_derivation(label, mint, program_id, addr),
{
    if is_canonical_derivation(label, mint, program_id, addr) {
        let c = choose|c: u8|
            is_canonical_bump(label, mint, program_id, c) && #[trigger] derived_address(
                label,
                mint,
                c,
                program_id,
            ) == Some(addr);
        assert(derived_address(label, mint, c, program_id) is None);
    }
}

/// The bytes of the label "authority".
pub fn authority_seed() -> (r: Vec<u8>)
    ensures
        r@ == authority_label(),
{
    let r = vec![97u8, 117u8, 116u8, 104u8, 111u8, 114u8, 105u8, 116u8, 121u8];
    assert(r@ =~= authority_label());
    r
}

/// The bytes of the label "config".
pub fn config_seed() -> (r: Vec<u8>)
    ensures
        r@ == config_label(),
{
    let r = vec![99u8, 111u8, 110u8, 102u8, 105u8, 103u8];
    assert(r@ =~= config_label());
    r
}

/// The delegated authority of `mint` re-derived from a known `bump`.
pub fn authority_address(mint: &Address, bump: u8, program_id: &Address) -> (r: Option<Address>)
    ensures
        match r {
            Some(a) => derived_address(authority_label(), mint@, bump, program_id@) == Some(a@),
            None => derived_address(authority_label(), mint@, bump, program_id@) is None,
        },
{
    let label = authority_seed();
    create_address(&label, mint, bump, program_id)
}

/// The delegated authority of `mint` and its canonical bump, searched for.
pub fn find_authority(mint: &Address, program_id: &Address) -> (r: Option<(Address, u8)>)
    ensures
        match r {
            Some((a, b)) => is_canonical_bump(authority_label(), mint@, program_id@, b)
                && derived_address(authority_label(), mint@, b, program_id@) == Some(a@),
            None => no_viable_bump(authority_label(), mint@, program_id@),
        },
{
    let label = authority_seed();
    find_address(&label, mint, program_id)
}

/// The address of the configuration record of `mint` and its canonical bump.
pub fn find_config(mint: &Address, program_id: &Address) -> (r: Option<(Address, u8)>)
    ensures
        match r {
            Some((a, b)) => is_canonical_bump(config_label(), mint@, program_id@, b)
                && derived_address(config_label(), mint@, b, program_id@) == Some(a@),
            None => no_viable_bump(config_label(), mint@, program_id@),
        },
{
    let label = config_seed();
    find_address(&label, mint, program_id)
}

} // verus!
