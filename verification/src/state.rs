use vstd::prelude::*;

use crate::account::Pubkey;
use crate::hashing::solution_digest;

verus! {

/// A stored answer fingerprint: the fixed-width digest of one accepted answer.
/// Raw answer text is never persisted; fingerprints are its only on-record form.
pub type Solution = [u8; 32];

/// The number of bytes one fingerprint occupies in the serialized record.
pub const SOLUTION_SIZE: usize = 32;

/// Serialized size of the record's fixed header: authority (32 bytes),
/// admit_cost (8), tries_per_admit (8), redeem (32), solving (8), and the
/// one-byte fingerprint count.
pub const HEADER_SIZE: usize = 89;

/// The capacity ceiling: the one-byte count field bounds every record to 255
/// fingerprints, at all times and immediately after any append.
pub const MAX_SUPPORTED_SOLUTIONS: usize = 255;

/// The persistent challenge record: one per authority, created once and grown
/// by appends. The fingerprint list keeps insertion order; the system never
/// reorders or deduplicates it.
#[derive(Debug)]
pub struct Challenge {
    /// The identity that owns the record; set at creation, immutable after.
    pub authority: Pubkey,
    /// Fee charged per admission attempt.
    pub admit_cost: u64,
    /// Number of guesses granted per paid admission.
    pub tries_per_admit: u64,
    /// The destination eligible for a reward upon a correct, validated guess.
    pub redeem: Pubkey,
    /// Monotonic count of solving sessions.
    pub solving: u64,
    /// The ordered fingerprints of the accepted answers.
    pub solutions: Vec<Solution>,
}

/// Compares two fingerprints byte for byte.
pub fn solutions_equal(a: &Solution, b: &Solution) -> (r: bool)
    ensures
        r == (a@ == b@),
{
    let mut i: usize = 0;
    while i < 32
        invariant
            0 <= i <= 32,
            forall|j: int| 0 <= j < i ==> a@[j] == b@[j],
        decreases 32 - i,
    {
        if a[i] != b[i] {
            return false;
        }
        i = i + 1;
    }
    proof {
        assert(a@ =~= b@);
    }
    true
}

impl Challenge {
    /// The record's standing invariant: its fingerprint count never exceeds
    /// the single-byte capacity ceiling.
    pub open spec fn well_formed(&self) -> bool {
        self.solutions@.len() <= MAX_SUPPORTED_SOLUTIONS
    }

    /// Serialized size of a record holding `n_solutions` fingerprints: the
    /// fixed header followed by one fixed-width entry per fingerprint.
    pub open spec fn spec_needed_size(n_solutions: nat) -> nat {
        (HEADER_SIZE + n_solutions * SOLUTION_SIZE) as nat
    }

    /// The storage size a record with this fingerprint list needs.
    pub fn needed_size(solutions: &[Solution]) -> (r: usize)
        requires
            solutions@.len() <= MAX_SUPPORTED_SOLUTIONS,
        ensures
            r == Self::spec_needed_size(solutions@.len()),
    {
        HEADER_SIZE + solutions.len() * SOLUTION_SIZE
    }

    /// A guess matches the record exactly when its digest stands anywhere in
    /// the stored fingerprint list: membership is what counts, so neither the
    /// order of the list nor duplicate entries affect the outcome.
    pub fn has_solution(&self, guess: &str) -> (r: bool)
        ensures
            r == exists|i: int|
                0 <= i < self.solutions@.len() && self.solutions@[i]@ == solution_digest(guess@),
    {
        let digest = crate::hashing::hash_solution(guess);
        let mut i: usize = 0;
        while i < self.solutions.len()
            invariant
                0 <= i <= self.solutions@.len(),
                digest@ == solution_digest(guess@),
                forall|j: int| 0 <= j < i ==> self.solutions@[j]@ != solution_digest(guess@),
            decreases self.solutions@.len() - i,
        {
            if solutions_equal(&self.solutions[i], &digest) {
                return true;
            }
            i = i + 1;
        }
        false
    }
}

} // verus!
