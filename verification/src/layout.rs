use vstd::prelude::*;

use vstd::bytes::lemma_auto_spec_u64_to_from_le_bytes;
use vstd::bytes::spec_u64_from_le_bytes;
use vstd::bytes::spec_u64_to_le_bytes;
use vstd::bytes::u64_from_le_bytes;
use vstd::bytes::u64_to_le_bytes;
use vstd::slice::slice_subrange;

use crate::account::Pubkey;
use crate::state::Challenge;
use crate::state::Solution;
use crate::state::HEADER_SIZE;
use crate::state::SOLUTION_SIZE;

verus! {

/// The serialized fingerprint array: every entry's bytes, in list order.
pub open spec fn spec_serialized_solutions(solutions: Seq<Solution>) -> Seq<u8>
    decreases solutions.len(),
{
    if solutions.len() == 0 {
        Seq::<u8>::empty()
    } else {
        spec_serialized_solutions(solutions.drop_last()) + solutions.last()@
    }
}

/// The record's fixed header, fields in their persisted order: authority,
/// admit_cost, tries_per_admit, redeem, solving, and the one-byte
/// fingerprint count. Integers are little-endian.
pub open spec fn spec_header(c: Challenge) -> Seq<u8> {
    c.authority@ + spec_u64_to_le_bytes(c.admit_cost) + spec_u64_to_le_bytes(c.tries_per_admit)
        + c.redeem@ + spec_u64_to_le_bytes(c.solving) + seq![c.solutions@.len() as u8]
}

/// The record's serialized layout: the fixed header followed by the
/// contiguous fingerprint array.
pub open spec fn spec_serialize(c: Challenge) -> Seq<u8> {
    spec_header(c) + spec_serialized_solutions(c.solutions@)
}

/// The serialized fingerprint array occupies exactly one fixed-width slot
/// per entry.
pub proof fn lemma_serialized_solutions_len(solutions: Seq<Solution>)
    ensures
        spec_serialized_solutions(solutions).len() == SOLUTION_SIZE * solutions.len(),
    decreases solutions.len(),
{
    if solutions.len() > 0 {
        lemma_serialized_solutions_len(solutions.drop_last());
    }
}

/// A byte range that holds each entry at its slot holds the whole serialized
/// fingerprint array.
proof fn lemma_serialized_solutions_from_pieces(solutions: Seq<Solution>, bytes: Seq<u8>, offset: int)
    requires
        0 <= offset,
        offset + SOLUTION_SIZE * solutions.len() <= bytes.len(),
        forall|j: int|
            0 <= j < solutions.len() ==> #[trigger] solutions[j]@ == bytes.subrange(
                offset + SOLUTION_SIZE * j,
                offset + SOLUTION_SIZE * j + SOLUTION_SIZE,
            ),
    ensures
        spec_serialized_solutions(solutions) == bytes.subrange(
            offset,
            offset + SOLUTION_SIZE * solutions.len(),
        ),
    decreases solutions.len(),
{
    if solutions.len() == 0 {
        assert(spec_serialized_solutions(solutions) =~= bytes.subrange(offset, offset));
    } else {
        let n = solutions.len() as int;
        assert(forall|j: int| 0 <= j < n - 1 ==> solutions.drop_last()[j] == solutions[j]);
        lemma_serialized_solutions_from_pieces(solutions.drop_last(), bytes, offset);
        assert(bytes.subrange(offset, offset + SOLUTION_SIZE * n) =~= bytes.subrange(
            offset,
            offset + SOLUTION_SIZE * (n - 1),
        ) + bytes.subrange(
            offset + SOLUTION_SIZE * (n - 1),
            offset + SOLUTION_SIZE * (n - 1) + SOLUTION_SIZE,
        ));
    }
}

/// Each entry of a serialized fingerprint array stands alone at its own slot.
proof fn lemma_serialized_solutions_at(solutions: Seq<Solution>, j: int)
    requires
        0 <= j < solutions.len(),
    ensures
        spec_serialized_solutions(solutions).subrange(
            SOLUTION_SIZE * j,
            SOLUTION_SIZE * j + SOLUTION_SIZE,
        ) == solutions[j]@,
    decreases solutions.len(),
{
    lemma_serialized_solutions_len(solutions);
    lemma_serialized_solutions_len(solutions.drop_last());
    let n = solutions.len() as int;
    if j == n - 1 {
        assert(spec_serialized_solutions(solutions).subrange(
            SOLUTION_SIZE * j,
            SOLUTION_SIZE * j + SOLUTION_SIZE,
        ) =~= solutions[j]@);
    } else {
        lemma_serialized_solutions_at(solutions.drop_last(), j);
        assert(spec_serialized_solutions(solutions).subrange(
            SOLUTION_SIZE * j,
            SOLUTION_SIZE * j + SOLUTION_SIZE,
        ) =~= spec_serialized_solutions(solutions.drop_last()).subrange(
            SOLUTION_SIZE * j,
            SOLUTION_SIZE * j + SOLUTION_SIZE,
        ));
        assert(solutions.drop_last()[j] == solutions[j]);
    }
}

/// One record per byte string: two well-formed records with the same
/// serialized form agree on every field and every fingerprint, so the layout
/// loses nothing and the parse's answer is the only one possible.
pub proof fn lemma_serialize_injective(a: Challenge, b: Challenge)
    requires
        a.well_formed(),
        b.well_formed(),
        spec_serialize(a) == spec_serialize(b),
    ensures
        a.authority@ == b.authority@,
        a.admit_cost == b.admit_cost,
        a.tries_per_admit == b.tries_per_admit,
        a.redeem@ == b.redeem@,
        a.solving == b.solving,
        a.solutions@.len() == b.solutions@.len(),
        forall|i: int|
            0 <= i < a.solutions@.len() ==> #[trigger] a.solutions@[i]@ == b.solutions@[i]@,
{
    lemma_auto_spec_u64_to_from_le_bytes();
    lemma_serialized_solutions_len(a.solutions@);
    lemma_serialized_solutions_len(b.solutions@);
    let bytes = spec_serialize(a);
    assert(a.authority@ =~= bytes.subrange(0, 32));
    assert(b.authority@ =~= bytes.subrange(0, 32));
    assert(spec_u64_to_le_bytes(a.admit_cost) =~= bytes.subrange(32, 40));
    assert(spec_u64_to_le_bytes(b.admit_cost) =~= bytes.subrange(32, 40));
    assert(spec_u64_from_le_bytes(spec_u64_to_le_bytes(a.admit_cost)) == a.admit_cost);
    assert(spec_u64_from_le_bytes(spec_u64_to_le_bytes(b.admit_cost)) == b.admit_cost);
    assert(spec_u64_to_le_bytes(a.tries_per_admit) =~= bytes.subrange(40, 48));
    assert(spec_u64_to_le_bytes(b.tries_per_admit) =~= bytes.subrange(40, 48));
    assert(spec_u64_from_le_bytes(spec_u64_to_le_bytes(a.tries_per_admit)) == a.tries_per_admit);
    assert(spec_u64_from_le_bytes(spec_u64_to_le_bytes(b.tries_per_admit)) == b.tries_per_admit);
    assert(a.redeem@ =~= bytes.subrange(48, 80));
    assert(b.redeem@ =~= bytes.subrange(48, 80));
    assert(spec_u64_to_le_bytes(a.solving) =~= bytes.subrange(80, 88));
    assert(spec_u64_to_le_bytes(b.solving) =~= bytes.subrange(80, 88));
    assert(spec_u64_from_le_bytes(spec_u64_to_le_bytes(a.solving)) == a.solving);
    assert(spec_u64_from_le_bytes(spec_u64_to_le_bytes(b.solving)) == b.solving);
    assert(bytes[88] == (a.solutions@.len() as u8));
    assert(bytes[88] == (b.solutions@.len() as u8));
    assert forall|i: int|
        0 <= i < a.solutions@.len() implies #[trigger] a.solutions@[i]@ == b.solutions@[i]@ by {
        lemma_serialized_solutions_at(a.solutions@, i);
        lemma_serialized_solutions_at(b.solutions@, i);
        assert(spec_serialized_solutions(a.solutions@) =~= bytes.subrange(
            89,
            bytes.len() as int,
        ));
        assert(spec_serialized_solutions(b.solutions@) =~= bytes.subrange(
            89,
            bytes.len() as int,
        ));
    }
}

/// Appends a byte slice to the output buffer.
fn push_bytes(out: &mut Vec<u8>, bytes: &[u8])
    ensures
        final(out)@ == old(out)@ + bytes@,
{
    let mut i: usize = 0;
    while i < bytes.len()
        invariant
            0 <= i <= bytes@.len(),
            out@ == old(out)@ + bytes@.subrange(0, i as int),
        decreases bytes@.len() - i,
    {
        out.push(bytes[i]);
        proof {
            assert(old(out)@ + bytes@.subrange(0, (i + 1) as int) =~= (old(out)@ + bytes@.subrange(
                0,
                i as int,
            )).push(bytes@[i as int]));
        }
        i = i + 1;
    }
    proof {
        assert(bytes@.subrange(0, bytes@.len() as int) =~= bytes@);
    }
}

/// Copies one fingerprint-sized range out of a byte slice.
fn read_array32(bytes: &[u8], offset: usize) -> (r: [u8; 32])
    requires
        offset + 32 <= bytes@.len(),
    ensures
        r@ == bytes@.subrange(offset as int, offset as int + 32),
{
    let n: usize = bytes.len();
    let mut out: [u8; 32] = [0u8; 32];
    let mut i: usize = 0;
    while i < 32
        invariant
            0 <= i <= 32,
            offset + 32 <= n,
            n == bytes@.len(),
            forall|j: int| 0 <= j < i ==> out@[j] == bytes@[offset + j],
        decreases 32 - i,
    {
        out[i] = bytes[offset + i];
        i = i + 1;
    }
    proof {
        assert(out@ =~= bytes@.subrange(offset as int, offset as int + 32));
    }
    out
}

/// Writes a record into its persisted byte form. The output's size is the
/// pure function of the fingerprint count that the record model states.
pub fn serialize(c: &Challenge) -> (r: Vec<u8>)
    requires
        c.well_formed(),
    ensures
        r@ == spec_serialize(*c),
        r@.len() == Challenge::spec_needed_size(c.solutions@.len()),
{
    proof {
        lemma_auto_spec_u64_to_from_le_bytes();
        lemma_serialized_solutions_len(c.solutions@);
    }
    let mut out: Vec<u8> = Vec::new();
    push_bytes(&mut out, vstd::array::array_as_slice(&c.authority.bytes));
    let admit_cost = u64_to_le_bytes(c.admit_cost);
    push_bytes(&mut out, admit_cost.as_slice());
    let tries_per_admit = u64_to_le_bytes(c.tries_per_admit);
    push_bytes(&mut out, tries_per_admit.as_slice());
    push_bytes(&mut out, vstd::array::array_as_slice(&c.redeem.bytes));
    let solving = u64_to_le_bytes(c.solving);
    push_bytes(&mut out, solving.as_slice());
    out.push(c.solutions.len() as u8);

    let ghost header = out@;
    let mut i: usize = 0;
    while i < c.solutions.len()
        invariant
            0 <= i <= c.solutions@.len(),
            out@ == header + spec_serialized_solutions(c.solutions@.take(i as int)),
        decreases c.solutions@.len() - i,
    {
        let entry: Solution = c.solutions[i];
        push_bytes(&mut out, vstd::array::array_as_slice(&entry));
        proof {
            assert(c.solutions@.take((i + 1) as int).drop_last() =~= c.solutions@.take(i as int));
            assert(out@ =~= header + spec_serialized_solutions(c.solutions@.take((i + 1) as int)));
        }
        i = i + 1;
    }
    proof {
        assert(c.solutions@.take(c.solutions@.len() as int) =~= c.solutions@);
        assert(out@ =~= spec_serialize(*c));
    }
    out
}

/// Reads a record back from its persisted byte form. The parse accepts
/// exactly the byte strings that some well-formed record serializes to: a
/// parsed record re-serializes to the input, and every serialized record
/// parses.
pub fn deserialize(bytes: &[u8]) -> (r: Option<Challenge>)
    ensures
        (r matches Some(c) ==> c.well_formed() && bytes@ == spec_serialize(c)),
        (forall|c: Challenge|
            c.well_formed() && bytes@ == #[trigger] spec_serialize(c) ==> r is Some),
{
    proof {
        lemma_auto_spec_u64_to_from_le_bytes();
    }
    if bytes.len() < HEADER_SIZE {
        proof {
            assert forall|c: Challenge|
                c.well_formed() && bytes@ == #[trigger] spec_serialize(c) implies false by {
                lemma_serialized_solutions_len(c.solutions@);
            }
        }
        return None;
    }
    let count: u8 = bytes[HEADER_SIZE - 1];
    let expected: usize = HEADER_SIZE + (count as usize) * SOLUTION_SIZE;
    if bytes.len() != expected {
        proof {
            assert forall|c: Challenge|
                c.well_formed() && bytes@ == #[trigger] spec_serialize(c) implies false by {
                lemma_serialized_solutions_len(c.solutions@);
                assert(bytes@[HEADER_SIZE - 1] == (c.solutions@.len() as u8));
            }
        }
        return None;
    }

    let authority = Pubkey::new(read_array32(bytes, 0));
    let admit_cost = u64_from_le_bytes(slice_subrange(bytes, 32, 40));
    let tries_per_admit = u64_from_le_bytes(slice_subrange(bytes, 40, 48));
    let redeem = Pubkey::new(read_array32(bytes, 48));
    let solving = u64_from_le_bytes(slice_subrange(bytes, 80, 88));

    let mut solutions: Vec<Solution> = Vec::new();
    let mut i: usize = 0;
    while i < count as usize
        invariant
            0 <= i <= count as usize,
            bytes@.len() == HEADER_SIZE + (count as int) * SOLUTION_SIZE,
            solutions@.len() == i,
            forall|j: int|
                0 <= j < i ==> #[trigger] solutions@[j]@ == bytes@.subrange(
                    HEADER_SIZE + SOLUTION_SIZE * j,
                    HEADER_SIZE + SOLUTION_SIZE * j + SOLUTION_SIZE,
                ),
        decreases count as int - i,
    {
        let entry = read_array32(bytes, HEADER_SIZE + i * SOLUTION_SIZE);
        solutions.push(entry);
        i = i + 1;
    }

    let c = Challenge { authority, admit_cost, tries_per_admit, redeem, solving, solutions };
    proof {
        lemma_serialized_solutions_from_pieces(c.solutions@, bytes@, HEADER_SIZE as int);
        assert(bytes@ =~= spec_serialize(c));
    }
    Some(c)
}

} // verus!
