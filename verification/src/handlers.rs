use vstd::prelude::*;

use crate::account::AccountHandle;
use crate::account::Pubkey;
use crate::asserts::assert_account_has_no_data;
use crate::asserts::assert_account_is_funded_and_has_data;
use crate::asserts::assert_adding_non_empty;
use crate::asserts::assert_can_add_solutions;
use crate::asserts::assert_is_signer;
use crate::asserts::assert_keys_equal;
use crate::asserts::assert_max_supported_solutions;
use crate::error::ChallengeError;
use crate::hashing::hash_solutions;
use crate::hashing::solution_digest;
use crate::pda::derive_record_address;
use crate::pda::derived_record_address;
use crate::pda::derived_record_ok;
use crate::state::Challenge;
use crate::state::Solution;
use crate::state::MAX_SUPPORTED_SOLUTIONS;

verus! {

/// What a handler asks the host to commit atomically: the record value to
/// write, the storage size it needs, and the lamports to move from the payer
/// to the record's storage account. Validation runs to completion before an
/// update is produced, so a failed precondition never yields a partial one.
pub struct RecordUpdate {
    pub challenge: Challenge,
    pub space: usize,
    pub payer_transfer: u64,
}

/// The validation chain of record creation, in check order: both signatures
/// first, then the storage must still be empty, then the capacity ceiling.
pub open spec fn spec_create_check(
    payer: AccountHandle,
    authority: AccountHandle,
    record_account: AccountHandle,
    n_initial: nat,
) -> Result<(), ChallengeError> {
    if !payer.is_signer || !authority.is_signer {
        Err(ChallengeError::MissingSignature)
    } else if record_account.data_len != 0 {
        Err(ChallengeError::AlreadyInitialized)
    } else if n_initial > MAX_SUPPORTED_SOLUTIONS {
        Err(ChallengeError::CapacityExceeded)
    } else {
        Ok(())
    }
}

/// What a successful creation commits: a record owned by `authority` whose
/// fingerprints are the digests of `initial` in input order, with a fresh
/// solving counter; storage sized for that list; and a payer transfer that
/// tops the account's balance up to `min_record_balance`.
pub open spec fn spec_create_effect(
    authority: AccountHandle,
    record_account: AccountHandle,
    admit_cost: u64,
    tries_per_admit: u64,
    redeem: Pubkey,
    initial: Seq<String>,
    min_record_balance: u64,
    u: RecordUpdate,
) -> bool {
    &&& u.challenge.authority@ == authority.key@
    &&& u.challenge.admit_cost == admit_cost
    &&& u.challenge.tries_per_admit == tries_per_admit
    &&& u.challenge.redeem@ == redeem@
    &&& u.challenge.solving == 0
    &&& u.challenge.solutions@.len() == initial.len()
    &&& (forall|i: int|
        0 <= i < initial.len() ==> u.challenge.solutions@[i]@ == solution_digest(initial[i]@))
    &&& u.challenge.well_formed()
    &&& u.space == Challenge::spec_needed_size(initial.len() as nat)
    &&& u.payer_transfer == (if min_record_balance > record_account.lamports {
        min_record_balance - record_account.lamports
    } else {
        0
    })
    &&& record_account.lamports + u.payer_transfer >= min_record_balance
}

/// Creates the record for `authority`: runs the creation validation chain,
/// then produces the update the host commits. `min_record_balance` is the
/// host's minimum viable balance for storage of the new size; the computed
/// transfer funds the account up to exactly that, never more.
pub fn process_create_challenge(
    payer: &AccountHandle,
    authority: &AccountHandle,
    record_account: &AccountHandle,
    admit_cost: u64,
    tries_per_admit: u64,
    redeem: &Pubkey,
    initial_solutions: &Vec<String>,
    min_record_balance: u64,
) -> (r: Result<RecordUpdate, ChallengeError>)
    ensures
        (r matches Err(e) ==> spec_create_check(
            *payer,
            *authority,
            *record_account,
            initial_solutions@.len(),
        ) == Err::<(), ChallengeError>(e)),
        r is Ok <==> spec_create_check(
            *payer,
            *authority,
            *record_account,
            initial_solutions@.len(),
        ) is Ok,
        (r matches Ok(u) ==> spec_create_effect(
            *authority,
            *record_account,
            admit_cost,
            tries_per_admit,
            *redeem,
            initial_solutions@,
            min_record_balance,
            u,
        )),
{
    match assert_is_signer(payer, "payer") {
        Err(e) => {
            return Err(e);
        },
        Ok(()) => {},
    }
    match assert_is_signer(authority, "creator") {
        Err(e) => {
            return Err(e);
        },
        Ok(()) => {},
    }
    match assert_account_has_no_data(record_account) {
        Err(e) => {
            return Err(e);
        },
        Ok(()) => {},
    }
    let solutions = hash_solutions(initial_solutions);
    match assert_max_supported_solutions(solutions.as_slice()) {
        Err(e) => {
            return Err(e);
        },
        Ok(()) => {},
    }
    let space = Challenge::needed_size(solutions.as_slice());
    let payer_transfer: u64 = if min_record_balance > record_account.lamports {
        min_record_balance - record_account.lamports
    } else {
        0
    };
    let challenge = Challenge {
        authority: authority.key,
        admit_cost,
        tries_per_admit,
        redeem: *redeem,
        solving: 0,
        solutions,
    };
    Ok(RecordUpdate { challenge, space, payer_transfer })
}

/// The validation chain of an append, in check order: both signatures, the
/// record address against the expected one, a non-empty batch, the record's
/// storage present and funded, and last the capacity ceiling.
pub open spec fn spec_add_solutions_check(
    payer: AccountHandle,
    authority: AccountHandle,
    record_account: AccountHandle,
    expected_record_key: Seq<u8>,
    n_existing: nat,
    n_extra: nat,
) -> Result<(), ChallengeError> {
    if !payer.is_signer || !authority.is_signer {
        Err(ChallengeError::MissingSignature)
    } else if record_account.key@ != expected_record_key {
        Err(ChallengeError::KeyMismatch)
    } else if n_extra == 0 {
        Err(ChallengeError::EmptyInput)
    } else if record_account.data_len == 0 {
        Err(ChallengeError::UninitializedAccount)
    } else if record_account.lamports < 1 {
        Err(ChallengeError::UnfundedAccount)
    } else if n_existing + n_extra > MAX_SUPPORTED_SOLUTIONS {
        Err(ChallengeError::CapacityExceeded)
    } else {
        Ok(())
    }
}

/// What a successful append commits: the record with the batch's digests
/// appended after every existing fingerprint, in input order, with every
/// other field untouched; storage sized for the grown list; and a payer
/// transfer that tops the balance up to `min_record_balance`, so the balance
/// strictly grows whenever the host demands more than the account holds.
pub open spec fn spec_append_effect(
    record: Challenge,
    record_account: AccountHandle,
    extra: Seq<String>,
    min_record_balance: u64,
    u: RecordUpdate,
) -> bool {
    &&& u.challenge.authority@ == record.authority@
    &&& u.challenge.admit_cost == record.admit_cost
    &&& u.challenge.tries_per_admit == record.tries_per_admit
    &&& u.challenge.redeem@ == record.redeem@
    &&& u.challenge.solving == record.solving
    &&& u.challenge.solutions@.len() == record.solutions@.len() + extra.len()
    &&& (forall|i: int|
        0 <= i < record.solutions@.len() ==> u.challenge.solutions@[i] == record.solutions@[i])
    &&& (forall|i: int|
        0 <= i < extra.len() ==> u.challenge.solutions@[record.solutions@.len() + i]@
            == solution_digest(extra[i]@))
    &&& u.challenge.well_formed()
    &&& u.space == Challenge::spec_needed_size(u.challenge.solutions@.len())
    &&& u.payer_transfer == (if min_record_balance > record_account.lamports {
        min_record_balance - record_account.lamports
    } else {
        0
    })
    &&& record_account.lamports + u.payer_transfer >= min_record_balance
    &&& (min_record_balance > record_account.lamports ==> u.payer_transfer >= 1)
}

/// Appends to `record` after running the full validation chain against a
/// caller-known expected record address. The stored record is read, never
/// mutated: a failed check leaves it exactly as it was, and only the returned
/// update carries the grown list.
pub fn add_solutions_checked(
    payer: &AccountHandle,
    authority: &AccountHandle,
    record_account: &AccountHandle,
    expected_record_key: &Pubkey,
    record: &Challenge,
    extra_solutions: &Vec<String>,
    min_record_balance: u64,
) -> (r: Result<RecordUpdate, ChallengeError>)
    requires
        record.well_formed(),
    ensures
        (r matches Err(e) ==> spec_add_solutions_check(
            *payer,
            *authority,
            *record_account,
            expected_record_key@,
            record.solutions@.len(),
            extra_solutions@.len(),
        ) == Err::<(), ChallengeError>(e)),
        r is Ok <==> spec_add_solutions_check(
            *payer,
            *authority,
            *record_account,
            expected_record_key@,
            record.solutions@.len(),
            extra_solutions@.len(),
        ) is Ok,
        (r matches Ok(u) ==> spec_append_effect(
            *record,
            *record_account,
            extra_solutions@,
            min_record_balance,
            u,
        )),
{
    match assert_is_signer(payer, "payer") {
        Err(e) => {
            return Err(e);
        },
        Ok(()) => {},
    }
    match assert_is_signer(authority, "creator") {
        Err(e) => {
            return Err(e);
        },
        Ok(()) => {},
    }
    match assert_keys_equal(&record_account.key, expected_record_key, "record address") {
        Err(e) => {
            return Err(e);
        },
        Ok(()) => {},
    }
    let extra = hash_solutions(extra_solutions);
    match assert_adding_non_empty(extra.as_slice()) {
        Err(e) => {
            return Err(e);
        },
        Ok(()) => {},
    }
    match assert_account_is_funded_and_has_data(record_account) {
        Err(e) => {
            return Err(e);
        },
        Ok(()) => {},
    }
    match assert_can_add_solutions(record.solutions.as_slice(), extra.as_slice()) {
        Err(e) => {
            return Err(e);
        },
        Ok(()) => {},
    }

    let mut solutions: Vec<Solution> = Vec::new();
    let mut i: usize = 0;
    while i < record.solutions.len()
        invariant
            0 <= i <= record.solutions@.len(),
            solutions@.len() == i,
            forall|j: int| 0 <= j < i ==> solutions@[j] == record.solutions@[j],
        decreases record.solutions@.len() - i,
    {
        let entry: Solution = record.solutions[i];
        solutions.push(entry);
        i = i + 1;
    }
    let mut k: usize = 0;
    while k < extra.len()
        invariant
            0 <= k <= extra@.len(),
            extra@.len() == extra_solutions@.len(),
            solutions@.len() == record.solutions@.len() + k,
            forall|j: int| 0 <= j < record.solutions@.len() ==> solutions@[j]
                == record.solutions@[j],
            forall|j: int| 0 <= j < k ==> solutions@[record.solutions@.len() + j] == extra@[j],
            forall|j: int| 0 <= j < extra@.len() ==> extra@[j]@ == solution_digest(
                extra_solutions@[j]@,
            ),
        decreases extra@.len() - k,
    {
        let entry: Solution = extra[k];
        solutions.push(entry);
        k = k + 1;
    }

    proof {
        assert forall|i: int| 0 <= i < extra_solutions@.len() implies solutions@[record.solutions@.len()
            + i]@ == solution_digest(extra_solutions@[i]@) by {
            assert(solutions@[record.solutions@.len() + i] == extra@[i]);
        }
    }
    let space = Challenge::needed_size(solutions.as_slice());
    let payer_transfer: u64 = if min_record_balance > record_account.lamports {
        min_record_balance - record_account.lamports
    } else {
        0
    };
    let challenge = Challenge {
        authority: record.authority,
        admit_cost: record.admit_cost,
        tries_per_admit: record.tries_per_admit,
        redeem: record.redeem,
        solving: record.solving,
        solutions,
    };
    Ok(RecordUpdate { challenge, space, payer_transfer })
}

/// The full validation chain of the AddSolutions handler, in check order:
/// both signatures, then the record address — no supplied account can match
/// when none can be derived for the authority — then the chain of
/// `spec_add_solutions_check` against the derived address.
pub open spec fn spec_process_add_solutions_check(
    program_id: Pubkey,
    payer: AccountHandle,
    authority: AccountHandle,
    record_account: AccountHandle,
    n_existing: nat,
    n_extra: nat,
) -> Result<(), ChallengeError> {
    if !payer.is_signer || !authority.is_signer {
        Err(ChallengeError::MissingSignature)
    } else if !derived_record_ok(program_id@, authority.key@) {
        Err(ChallengeError::KeyMismatch)
    } else {
        spec_add_solutions_check(
            payer,
            authority,
            record_account,
            derived_record_address(program_id@, authority.key@),
            n_existing,
            n_extra,
        )
    }
}

/// Appends to the record for `authority` under `program_id`: derives the
/// record's one valid address, then runs the full validation chain of
/// `add_solutions_checked` against it. The result is exactly what the chain
/// decides: success when and only when every check passes, and each failure
/// under the error of the first check that broke.
pub fn process_add_solutions(
    program_id: &Pubkey,
    payer: &AccountHandle,
    authority: &AccountHandle,
    record_account: &AccountHandle,
    record: &Challenge,
    extra_solutions: &Vec<String>,
    min_record_balance: u64,
) -> (r: Result<RecordUpdate, ChallengeError>)
    requires
        record.well_formed(),
    ensures
        (r matches Err(e) ==> spec_process_add_solutions_check(
            *program_id,
            *payer,
            *authority,
            *record_account,
            record.solutions@.len(),
            extra_solutions@.len(),
        ) == Err::<(), ChallengeError>(e)),
        r is Ok <==> spec_process_add_solutions_check(
            *program_id,
            *payer,
            *authority,
            *record_account,
            record.solutions@.len(),
            extra_solutions@.len(),
        ) is Ok,
        (r matches Ok(u) ==> {
            &&& record_account.key@ == derived_record_address(program_id@, authority.key@)
            &&& spec_append_effect(
                *record,
                *record_account,
                extra_solutions@,
                min_record_balance,
                u,
            )
        }),
{
    match assert_is_signer(payer, "payer") {
        Err(e) => {
            return Err(e);
        },
        Ok(()) => {},
    }
    match assert_is_signer(authority, "creator") {
        Err(e) => {
            return Err(e);
        },
        Ok(()) => {},
    }
    match derive_record_address(program_id, &authority.key) {
        None => Err(ChallengeError::KeyMismatch),
        Some((expected_record_key, _bump)) => add_solutions_checked(
            payer,
            authority,
            record_account,
            &expected_record_key,
            record,
            extra_solutions,
            min_record_balance,
        ),
    }
}

} // verus!
