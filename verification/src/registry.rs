//! The pool registry and the custody-solvency guard.
//!
//! The registry is per-deployment metadata, created once and immutable
//! thereafter: the pool title, the authority identity, a reference to the
//! staked asset type, a reference to the custody holding, and the derivation
//! discriminators from which the host reproduces the registry's and the
//! custody account's addresses. The solvency guard is the point check run
//! before any outbound transfer: the custody balance must cover the
//! requested payout.

use vstd::prelude::*;
use vstd::string::StringSliceAdditionalSpecFns;

use crate::title::TrimAsciiWhitespace;
use crate::title::is_ascii_space;
use crate::title::lemma_trim_end_skip;
use crate::title::lemma_trim_start_skip;
use crate::title::spec_trim_ascii_whitespace;
use crate::title::spec_trim_end;
use crate::title::spec_trim_start;

verus! {

/// The fixed capacity of the pool title, in bytes.
pub const TITLE_CAPACITY: usize = 10;

/// The derivation discriminators recorded at initialization: one for the
/// registry's own address, one for the custody account's address.
#[derive(Clone, Copy, Debug, PartialEq, Eq, Structural)]
pub struct PoolBumps {
    pub store_account: u8,
    pub pool_seeded: u8,
}

/// Per-deployment registry: the pool title (space-padded to its fixed
/// capacity), the derivation discriminators, the authority identity that
/// created the pool, a reference to the staked asset type, and a reference
/// to the custody holding that backs all outstanding principal and reward.
#[derive(Clone, Debug, PartialEq)]
pub struct StoreAccount {
    pub program_title: Vec<u8>,
    pub bumps: PoolBumps,
    pub store_authority: String,
    pub seeded_mint: String,
    pub pool_seeded: String,
}

/// The title padded with trailing ASCII spaces to the fixed capacity.
pub open spec fn spec_padded_title(bytes: Seq<u8>) -> Seq<u8>
    recommends
        bytes.len() <= TITLE_CAPACITY,
{
    bytes + Seq::new((TITLE_CAPACITY - bytes.len()) as nat, |i: int| 32u8)
}

impl StoreAccount {
    /// A well-formed registry holds a title of exactly the fixed capacity.
    pub open spec fn wf(self) -> bool {
        self.program_title@.len() == TITLE_CAPACITY
    }

    /// The seed pair from which the host derives the custody signing
    /// capability: the trimmed title and the registry's own discriminator.
    /// The derivation itself — seed bytes to address, with no private key
    /// ever materialized — belongs to the host environment.
    pub fn signing_seed(&self) -> (r: (Vec<u8>, u8))
        ensures
            r.0@ == spec_trim_ascii_whitespace(self.program_title@),
            r.1 == self.bumps.store_account,
    {
        (self.program_title.trim_ascii_whitespace(), self.bumps.store_account)
    }
}

/// Creates the pool registry. The caller-facing preconditions — the caller
/// is the pool authority, and the backing records exist — are the host's;
/// here the title is padded to its fixed capacity and recorded beside the
/// discriminators and the three identities.
pub fn initialize(
    program_title: &str,
    bumps: PoolBumps,
    store_authority: String,
    seeded_mint: String,
    pool_seeded: String,
) -> (r: StoreAccount)
    requires
        program_title.spec_bytes().len() <= TITLE_CAPACITY,
    ensures
        r.wf(),
        r.program_title@ == spec_padded_title(program_title.spec_bytes()),
        r.bumps == bumps,
        r.store_authority == store_authority,
        r.seeded_mint == seeded_mint,
        r.pool_seeded == pool_seeded,
{
    let bytes: &[u8] = program_title.as_bytes();
    let mut name_data: Vec<u8> = Vec::new();
    let mut i: usize = 0;
    while i < bytes.len()
        invariant
            0 <= i <= bytes@.len(),
            bytes@.len() <= TITLE_CAPACITY,
            name_data@.len() == i,
            forall|j: int| 0 <= j < i ==> name_data@[j] == bytes@[j],
        decreases bytes@.len() - i,
    {
        let b: u8 = bytes[i];
        name_data.push(b);
        i = i + 1;
    }
    while name_data.len() < TITLE_CAPACITY
        invariant
            bytes@.len() <= name_data@.len() <= TITLE_CAPACITY,
            forall|j: int| 0 <= j < bytes@.len() ==> name_data@[j] == bytes@[j],
            forall|j: int| bytes@.len() <= j < name_data@.len() ==> name_data@[j] == 32u8,
        decreases TITLE_CAPACITY - name_data@.len(),
    {
        name_data.push(32u8);
    }
    proof {
        assert(name_data@ =~= spec_padded_title(program_title.spec_bytes()));
    }
    StoreAccount { program_title: name_data, bumps, store_authority, seeded_mint, pool_seeded }
}

/// The signing seed recovers the bare title: for a title that neither
/// starts nor ends with ASCII whitespace, trimming the space-padded field
/// gives back exactly the bytes the pool was initialized with, so the
/// custody signing capability is derived from the same seed that addressed
/// the registry.
pub proof fn lemma_padded_title_trims_back(bytes: Seq<u8>)
    requires
        bytes.len() <= TITLE_CAPACITY,
        bytes.len() > 0 ==> !is_ascii_space(bytes[0]),
        bytes.len() > 0 ==> !is_ascii_space(bytes.last()),
    ensures
        spec_trim_ascii_whitespace(spec_padded_title(bytes)) == bytes,
{
    let padded = spec_padded_title(bytes);
    if bytes.len() == 0 {
        lemma_trim_start_skip(padded, padded.len() as int);
        assert(padded.subrange(padded.len() as int, padded.len() as int) =~= Seq::<u8>::empty());
        assert(spec_trim_start(padded) == Seq::<u8>::empty());
        assert(bytes =~= Seq::<u8>::empty());
    } else {
        assert(padded[0] == bytes[0]);
        assert(spec_trim_start(padded) == padded);
        lemma_trim_end_skip(padded, (TITLE_CAPACITY - bytes.len()) as int);
        assert(padded.subrange(0, bytes.len() as int) =~= bytes);
        assert(spec_trim_end(bytes) == bytes);
    }
}

/// The custody-solvency guard: approves a payout exactly where the custody
/// balance covers it, so no approved transfer can leave custody holding
/// less than zero.
pub fn can_pay(custody_balance: u64, payout: u64) -> (r: bool)
    ensures
        r == (payout <= custody_balance),
{
    payout <= custody_balance
}

} // verus!
