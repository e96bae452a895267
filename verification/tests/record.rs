use challenge::layout::deserialize;
use challenge::layout::serialize;

use challenge::hash_solution;
use challenge::hash_solutions;
use challenge::pda::derive_record_address;
use challenge::state::solutions_equal;
use challenge::Challenge;
use challenge::Pubkey;
use challenge::Solution;

fn key(n: u8) -> Pubkey {
    Pubkey::new([n; 32])
}

fn record_with(solutions: Vec<Solution>) -> Challenge {
    Challenge {
        authority: key(1),
        admit_cost: 200,
        tries_per_admit: 1,
        redeem: key(2),
        solving: 0,
        solutions,
    }
}

#[test]
fn needed_size_is_header_plus_fingerprints() {
    assert_eq!(Challenge::needed_size(&vec![]), 89);
    assert_eq!(Challenge::needed_size(&vec![[0u8; 32]]), 89 + 32);
    assert_eq!(Challenge::needed_size(&vec![[0u8; 32]; 4]), 89 + 4 * 32);
    assert_eq!(Challenge::needed_size(&vec![[0u8; 32]; 255]), 89 + 255 * 32);
}

#[test]
fn hash_solution_is_the_sha256_of_the_text() {
    let expected: Solution = [
        0x2c, 0xf2, 0x4d, 0xba, 0x5f, 0xb0, 0xa3, 0x0e, 0x26, 0xe8, 0x3b, 0x2a, 0xc5, 0xb9, 0xe2,
        0x9e, 0x1b, 0x16, 0x1e, 0x5c, 0x1f, 0xa7, 0x42, 0x5e, 0x73, 0x04, 0x33, 0x62, 0x93, 0x8b,
        0x98, 0x24,
    ];
    assert_eq!(hash_solution("hello"), expected);
}

#[test]
fn hash_solution_is_deterministic_and_collision_free_on_distinct_texts() {
    assert_eq!(hash_solution("hello"), hash_solution("hello"));
    assert_ne!(hash_solution("hello"), hash_solution("world"));
}

#[test]
fn hash_solutions_hashes_element_wise_in_order() {
    let batch = vec!["hola".to_string(), "mundo".to_string()];
    let digests = hash_solutions(&batch);
    assert_eq!(digests.len(), 2);
    assert_eq!(digests[0], hash_solution("hola"));
    assert_eq!(digests[1], hash_solution("mundo"));
}

#[test]
fn solutions_equal_compares_fingerprints() {
    assert!(solutions_equal(&hash_solution("hello"), &hash_solution("hello")));
    assert!(!solutions_equal(&hash_solution("hello"), &hash_solution("world")));
}

#[test]
fn has_solution_finds_a_stored_answer() {
    let record = record_with(hash_solutions(&vec!["hola".to_string(), "mundo".to_string()]));
    assert!(record.has_solution("hola"));
    assert!(record.has_solution("mundo"));
    assert!(!record.has_solution("hello"));
}

#[test]
fn has_solution_ignores_order_and_duplicates() {
    let record = record_with(hash_solutions(&vec![
        "mundo".to_string(),
        "hola".to_string(),
        "hola".to_string(),
    ]));
    assert!(record.has_solution("hola"));
    assert!(record.has_solution("mundo"));
}

#[test]
fn has_solution_on_an_empty_record_matches_nothing() {
    let record = record_with(vec![]);
    assert!(!record.has_solution("hello"));
}

#[test]
fn pubkey_equality_compares_all_bytes() {
    assert_eq!(key(1), key(1));
    assert_ne!(key(1), key(2));
    let mut almost = [1u8; 32];
    almost[31] = 2;
    assert_ne!(key(1), Pubkey::new(almost));
}

#[test]
fn serialized_size_matches_needed_size() {
    let record = record_with(hash_solutions(&vec!["hola".to_string(), "mundo".to_string()]));
    let bytes = serialize(&record);
    assert_eq!(bytes.len(), Challenge::needed_size(&record.solutions));
    assert_eq!(bytes.len(), 89 + 2 * 32);
}

#[test]
fn serialize_then_deserialize_returns_the_record() {
    let record = record_with(hash_solutions(&vec!["hola".to_string(), "mundo".to_string()]));
    let bytes = serialize(&record);
    let parsed = deserialize(&bytes).expect("a serialized record parses");
    assert_eq!(parsed.authority, record.authority);
    assert_eq!(parsed.admit_cost, record.admit_cost);
    assert_eq!(parsed.tries_per_admit, record.tries_per_admit);
    assert_eq!(parsed.redeem, record.redeem);
    assert_eq!(parsed.solving, record.solving);
    assert_eq!(parsed.solutions, record.solutions);
}

#[test]
fn serialized_header_holds_the_fields_in_order() {
    let record = record_with(vec![]);
    let bytes = serialize(&record);
    assert_eq!(&bytes[0..32], &[1u8; 32], "authority comes first");
    assert_eq!(&bytes[32..40], &200u64.to_le_bytes(), "then admit_cost");
    assert_eq!(&bytes[40..48], &1u64.to_le_bytes(), "then tries_per_admit");
    assert_eq!(&bytes[48..80], &[2u8; 32], "then redeem");
    assert_eq!(&bytes[80..88], &0u64.to_le_bytes(), "then solving");
    assert_eq!(bytes[88], 0, "then the fingerprint count");
}

#[test]
fn deserialize_rejects_truncated_bytes() {
    let record = record_with(hash_solutions(&vec!["hola".to_string()]));
    let mut bytes = serialize(&record);
    bytes.pop();
    assert!(deserialize(&bytes).is_none());
    assert!(deserialize(&[]).is_none());
}

#[test]
fn derived_record_address_is_deterministic_per_authority() {
    let pid = key(7);
    let a = derive_record_address(&pid, &key(1)).expect("failed to derive the record address");
    let b = derive_record_address(&pid, &key(1)).expect("failed to derive the record address");
    assert_eq!(a.0, b.0);
    assert_eq!(a.1, b.1);

    let other = derive_record_address(&pid, &key(2)).expect("failed to derive the record address");
    assert_ne!(a.0, other.0);
    assert_ne!(a.0, key(1), "the derived address is not the authority itself");
}
