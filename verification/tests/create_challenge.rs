use challenge::handlers::process_add_solutions;
use challenge::handlers::process_create_challenge;
use challenge::hash_solution;
use challenge::pda::derive_record_address;
use challenge::AccountHandle;
use challenge::Challenge;
use challenge::ChallengeError;
use challenge::Pubkey;

fn key(n: u8) -> Pubkey {
    Pubkey::new([n; 32])
}

fn program_id() -> Pubkey {
    key(7)
}

fn signer(k: Pubkey) -> AccountHandle {
    AccountHandle { key: k, lamports: 10_000, data_len: 0, is_signer: true }
}

fn untouched_record_account(authority: &Pubkey) -> AccountHandle {
    let pda = derive_record_address(&program_id(), authority)
        .expect("failed to derive the record address")
        .0;
    AccountHandle { key: pda, lamports: 0, data_len: 0, is_signer: false }
}

#[test]
fn create_writes_the_record_and_funds_it() {
    let creator = key(1);
    let redeem = key(9);
    let record_account = untouched_record_account(&creator);
    let initial = vec!["hola".to_string(), "mundo".to_string()];

    let update = process_create_challenge(
        &signer(creator),
        &signer(creator),
        &record_account,
        200,
        1,
        &redeem,
        &initial,
        1000,
    )
    .expect("Failed to create challenge");

    assert_eq!(update.challenge.authority, creator);
    assert_eq!(update.challenge.admit_cost, 200);
    assert_eq!(update.challenge.tries_per_admit, 1);
    assert_eq!(update.challenge.redeem, redeem);
    assert_eq!(update.challenge.solving, 0);
    assert_eq!(update.challenge.solutions.len(), 2);
    assert_eq!(update.challenge.solutions[0], hash_solution("hola"));
    assert_eq!(update.challenge.solutions[1], hash_solution("mundo"));
    assert_eq!(update.space, Challenge::needed_size(&update.challenge.solutions));
    assert_eq!(update.space, 89 + 2 * 32);
    assert_eq!(update.payer_transfer, 1000);
}

#[test]
fn create_over_existing_data_is_rejected() {
    let creator = key(2);
    let mut record_account = untouched_record_account(&creator);
    record_account.data_len = 89;
    record_account.lamports = 1000;

    let r = process_create_challenge(
        &signer(creator),
        &signer(creator),
        &record_account,
        200,
        1,
        &key(9),
        &vec![],
        1000,
    );
    assert_eq!(r.err(), Some(ChallengeError::AlreadyInitialized));
}

#[test]
fn create_requires_both_signatures() {
    let creator = key(3);
    let record_account = untouched_record_account(&creator);
    let not_signer = AccountHandle { key: creator, lamports: 0, data_len: 0, is_signer: false };

    let r = process_create_challenge(
        &not_signer,
        &signer(creator),
        &record_account,
        200,
        1,
        &key(9),
        &vec![],
        1000,
    );
    assert_eq!(r.err(), Some(ChallengeError::MissingSignature));

    let r = process_create_challenge(
        &signer(creator),
        &not_signer,
        &record_account,
        200,
        1,
        &key(9),
        &vec![],
        1000,
    );
    assert_eq!(r.err(), Some(ChallengeError::MissingSignature));
}

#[test]
fn create_rejects_a_batch_over_the_ceiling() {
    let creator = key(4);
    let record_account = untouched_record_account(&creator);
    let mut initial: Vec<String> = Vec::new();
    for i in 0..256 {
        initial.push(format!("solution {}", i));
    }

    let r = process_create_challenge(
        &signer(creator),
        &signer(creator),
        &record_account,
        200,
        1,
        &key(9),
        &initial,
        1000,
    );
    assert_eq!(r.err(), Some(ChallengeError::CapacityExceeded));
}

#[test]
fn create_accepts_a_batch_at_the_ceiling() {
    let creator = key(5);
    let record_account = untouched_record_account(&creator);
    let mut initial: Vec<String> = Vec::new();
    for i in 0..255 {
        initial.push(format!("solution {}", i));
    }

    let update = process_create_challenge(
        &signer(creator),
        &signer(creator),
        &record_account,
        200,
        1,
        &key(9),
        &initial,
        1000,
    )
    .expect("Failed to create challenge");
    assert_eq!(update.challenge.solutions.len(), 255);
    assert_eq!(update.space, 89 + 255 * 32);
}

/// Create an empty record for an owner, append two solutions, then try an
/// empty batch: the append lands, the empty batch fails and the recorded list
/// is untouched.
#[test]
fn scenario_create_then_append_then_empty_batch() {
    let owner = key(6);
    let record_account = untouched_record_account(&owner);

    let created = process_create_challenge(
        &signer(owner),
        &signer(owner),
        &record_account,
        200,
        1,
        &key(9),
        &vec![],
        89,
    )
    .expect("Failed to create challenge");
    assert_eq!(created.challenge.solutions.len(), 0);
    assert_eq!(created.space, 89);

    let live_account = AccountHandle {
        key: record_account.key,
        lamports: record_account.lamports + created.payer_transfer,
        data_len: created.space as u64,
        is_signer: false,
    };
    let appended = process_add_solutions(
        &program_id(),
        &signer(owner),
        &signer(owner),
        &live_account,
        &created.challenge,
        &vec!["hello".to_string(), "world".to_string()],
        live_account.lamports + 64,
    )
    .expect("Failed add solutions");

    assert_eq!(appended.challenge.solutions.len(), 2);
    assert_eq!(appended.challenge.solutions[0], hash_solution("hello"));
    assert_eq!(appended.challenge.solutions[1], hash_solution("world"));
    assert!(appended.payer_transfer > 0, "storage balance increased");

    let grown_account = AccountHandle {
        key: live_account.key,
        lamports: live_account.lamports + appended.payer_transfer,
        data_len: appended.space as u64,
        is_signer: false,
    };
    let empty_again = process_add_solutions(
        &program_id(),
        &signer(owner),
        &signer(owner),
        &grown_account,
        &appended.challenge,
        &vec![],
        grown_account.lamports,
    );
    assert_eq!(empty_again.err(), Some(ChallengeError::EmptyInput));
    assert_eq!(appended.challenge.solutions.len(), 2);
}

/// Create a record with two solutions and append two more: the final order is
/// exactly the four digests, earlier entries first.
#[test]
fn scenario_append_preserves_order() {
    let owner = key(8);
    let record_account = untouched_record_account(&owner);

    let created = process_create_challenge(
        &signer(owner),
        &signer(owner),
        &record_account,
        200,
        1,
        &key(9),
        &vec!["hola".to_string(), "mundo".to_string()],
        1000,
    )
    .expect("Failed to create challenge");

    let live_account = AccountHandle {
        key: record_account.key,
        lamports: 1000,
        data_len: created.space as u64,
        is_signer: false,
    };
    let appended = process_add_solutions(
        &program_id(),
        &signer(owner),
        &signer(owner),
        &live_account,
        &created.challenge,
        &vec!["hello".to_string(), "world".to_string()],
        1100,
    )
    .expect("Failed add solutions");

    assert_eq!(appended.challenge.solutions.len(), 4);
    assert_eq!(appended.challenge.solutions[0], hash_solution("hola"));
    assert_eq!(appended.challenge.solutions[1], hash_solution("mundo"));
    assert_eq!(appended.challenge.solutions[2], hash_solution("hello"));
    assert_eq!(appended.challenge.solutions[3], hash_solution("world"));
}

/// Appending the same batch twice stores duplicate fingerprints: nothing
/// deduplicates.
#[test]
fn scenario_appending_twice_duplicates_fingerprints() {
    let owner = key(10);
    let record_account = untouched_record_account(&owner);

    let created = process_create_challenge(
        &signer(owner),
        &signer(owner),
        &record_account,
        200,
        1,
        &key(9),
        &vec![],
        89,
    )
    .expect("Failed to create challenge");

    let batch = vec!["hello".to_string(), "world".to_string()];
    let live_account = AccountHandle {
        key: record_account.key,
        lamports: 100,
        data_len: created.space as u64,
        is_signer: false,
    };
    let first = process_add_solutions(
        &program_id(),
        &signer(owner),
        &signer(owner),
        &live_account,
        &created.challenge,
        &batch,
        200,
    )
    .expect("Failed add solutions");
    let second = process_add_solutions(
        &program_id(),
        &signer(owner),
        &signer(owner),
        &AccountHandle {
            key: live_account.key,
            lamports: 200,
            data_len: first.space as u64,
            is_signer: false,
        },
        &first.challenge,
        &batch,
        300,
    )
    .expect("Failed add solutions");

    assert_eq!(second.challenge.solutions.len(), 4);
    assert_eq!(second.challenge.solutions[0], second.challenge.solutions[2]);
    assert_eq!(second.challenge.solutions[1], second.challenge.solutions[3]);
    assert_eq!(second.challenge.solutions[0], hash_solution("hello"));
    assert_eq!(second.challenge.solutions[1], hash_solution("world"));
}

/// An append that would pass the ceiling fails even when every other
/// precondition holds.
#[test]
fn scenario_append_over_the_ceiling_is_rejected() {
    let owner = key(11);
    let record_account = untouched_record_account(&owner);
    let mut initial: Vec<String> = Vec::new();
    for i in 0..255 {
        initial.push(format!("solution {}", i));
    }
    let created = process_create_challenge(
        &signer(owner),
        &signer(owner),
        &record_account,
        200,
        1,
        &key(9),
        &initial,
        1000,
    )
    .expect("Failed to create challenge");

    let live_account = AccountHandle {
        key: record_account.key,
        lamports: 1000,
        data_len: created.space as u64,
        is_signer: false,
    };
    let r = process_add_solutions(
        &program_id(),
        &signer(owner),
        &signer(owner),
        &live_account,
        &created.challenge,
        &vec!["one too many".to_string()],
        1100,
    );
    assert_eq!(r.err(), Some(ChallengeError::CapacityExceeded));
}
