use vstd::prelude::*;

use crate::state::Solution;

verus! {

/// The fingerprint the hashing layer assigns to an answer string: a
/// deterministic function of the characters alone, so two equal strings
/// always carry equal fingerprints.
pub uninterp spec fn solution_digest(text: Seq<char>) -> Seq<u8>;

/// Relies on solana_program::hash::hash: the SHA-256 digest of the input
/// bytes, a 32-byte value determined by the input alone.
#[verifier::external_body]
fn digest_solution(text: &str) -> (r: Solution)
    ensures
        r@ == solution_digest(text@),
{
    solana_program::hash::hash(text.as_bytes()).to_bytes()
}

/// Fingerprints one answer: the fixed-width digest under which it is stored
/// and matched.
pub fn hash_solution(text: &str) -> (r: Solution)
    ensures
        r@ == solution_digest(text@),
{
    digest_solution(text)
}

/// Fingerprints a batch of answers element-wise: entry `i` of the result is
/// the digest of entry `i` of the input, so the batch's order is preserved.
pub fn hash_solutions(solutions: &Vec<String>) -> (r: Vec<Solution>)
    ensures
        r@.len() == solutions@.len(),
        forall|i: int| 0 <= i < r@.len() ==> r@[i]@ == solution_digest(solutions@[i]@),
{
    let mut out: Vec<Solution> = Vec::new();
    let mut i: usize = 0;
    while i < solutions.len()
        invariant
            0 <= i <= solutions@.len(),
            out@.len() == i,
            forall|j: int| 0 <= j < i ==> out@[j]@ == solution_digest(solutions@[j]@),
        decreases solutions@.len() - i,
    {
        let digest = hash_solution(solutions[i].as_str());
        out.push(digest);
        i = i + 1;
    }
    out
}

} // verus!
