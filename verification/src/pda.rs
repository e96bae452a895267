use vstd::prelude::*;

use crate::account::Pubkey;

verus! {

/// The record's domain-separation seed, as bytes: the ASCII word that keeps
/// record addresses apart from any other derivation under the same program.
pub open spec fn spec_record_seed() -> Seq<u8> {
    seq![99u8, 104u8, 97u8, 108u8, 108u8, 101u8, 110u8, 103u8, 101u8]
}

/// The record's domain-separation seed, for the derivation call.
pub fn record_seed() -> (r: [u8; 9])
    ensures
        r@ == spec_record_seed(),
{
    let seed: [u8; 9] = [99u8, 104u8, 97u8, 108u8, 108u8, 101u8, 110u8, 103u8, 101u8];
    proof {
        assert(seed@ =~= spec_record_seed());
    }
    seed
}

/// The address the host's deriver assigns to a seed pair under a program: a
/// pure function of those three inputs alone.
pub uninterp spec fn derived_address(program_id: Seq<u8>, seed: Seq<u8>, owner: Seq<u8>) -> Seq<u8>;

/// Whether the host's deriver finds any address at all for a seed pair under
/// a program: like the address itself, a pure function of those three inputs
/// alone, false only in the statistically improbable event that every bump
/// seed lands on the curve.
pub uninterp spec fn derivation_ok(program_id: Seq<u8>, seed: Seq<u8>, owner: Seq<u8>) -> bool;

/// The deterministic record address of an authority under a program: the
/// derived address for the record seed and the authority. There is exactly
/// one valid record address per authority.
pub open spec fn derived_record_address(program_id: Seq<u8>, authority: Seq<u8>) -> Seq<u8> {
    derived_address(program_id, spec_record_seed(), authority)
}

/// Whether the record address of an authority under a program can be derived
/// at all.
pub open spec fn derived_record_ok(program_id: Seq<u8>, authority: Seq<u8>) -> bool {
    derivation_ok(program_id, spec_record_seed(), authority)
}

/// Relies on solana_program::pubkey::Pubkey::try_find_program_address, called
/// on the two given seeds: the search is a pure computation over its inputs,
/// returns None rather than failing for seeds of this shape, and when it
/// yields an address at all, that address (with its bump) is the one the host
/// accepts for these seeds. Whether it yields one is itself determined by the
/// same inputs.
#[verifier::external_body]
fn find_derived_address(program_id: &Pubkey, seed: &[u8], owner: &Pubkey) -> (r: Option<
    (Pubkey, u8),
>)
    ensures
        (r matches Some(p) ==> p.0@ == derived_address(program_id@, seed@, owner@)),
        r is Some <==> derivation_ok(program_id@, seed@, owner@),
{
    let pid = solana_program::pubkey::Pubkey::new_from_array(program_id.bytes);
    let owner_key = solana_program::pubkey::Pubkey::new_from_array(owner.bytes);
    let derived = solana_program::pubkey::Pubkey::try_find_program_address(
        &[seed, owner_key.as_ref()],
        &pid,
    );
    match derived {
        Some((key, bump)) => Some((Pubkey { bytes: key.to_bytes() }, bump)),
        None => None,
    }
}

/// Derives the one record address an authority can own under `program_id`,
/// with its bump, or nothing in the statistically improbable event that the
/// host can derive no address for these seeds.
pub fn derive_record_address(program_id: &Pubkey, authority: &Pubkey) -> (r: Option<(Pubkey, u8)>)
    ensures
        (r matches Some(p) ==> p.0@ == derived_record_address(program_id@, authority@)),
        r is Some <==> derived_record_ok(program_id@, authority@),
{
    let seed = record_seed();
    find_derived_address(program_id, vstd::array::array_as_slice(&seed), authority)
}

} // verus!
