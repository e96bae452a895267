use vstd::prelude::*;

use crate::account::AccountHandle;
use crate::account::Pubkey;
use crate::error::ChallengeError;
use crate::state::Solution;
use crate::state::MAX_SUPPORTED_SOLUTIONS;

verus! {

/// Confirms that a caller-supplied key equals the expected one, most often a
/// deterministically derived record address.
pub fn assert_keys_equal(
    provided_key: &Pubkey,
    expected_key: &Pubkey,
    _msg: &str,
) -> (r: Result<(), ChallengeError>)
    ensures
        r is Ok <==> provided_key@ == expected_key@,
        (r matches Err(e) ==> e == ChallengeError::KeyMismatch),
{
    if provided_key.eq(expected_key) {
        Ok(())
    } else {
        Err(ChallengeError::KeyMismatch)
    }
}

/// Confirms that a fingerprint list stays at or under the capacity ceiling.
pub fn assert_max_supported_solutions(solutions: &[Solution]) -> (r: Result<(), ChallengeError>)
    ensures
        r is Ok <==> solutions@.len() <= MAX_SUPPORTED_SOLUTIONS,
        (r matches Err(e) ==> e == ChallengeError::CapacityExceeded),
{
    let len: usize = solutions.len();
    if len > MAX_SUPPORTED_SOLUTIONS {
        Err(ChallengeError::CapacityExceeded)
    } else {
        Ok(())
    }
}

/// Confirms that appending a batch keeps the total at or under the capacity
/// ceiling. The length sum saturates: a sum that would overflow the counting
/// type clamps high and fails the bound check, never wraps past it.
pub fn assert_can_add_solutions(
    solutions: &[Solution],
    extra_solutions: &[Solution],
) -> (r: Result<(), ChallengeError>)
    ensures
        r is Ok <==> solutions@.len() + extra_solutions@.len() <= MAX_SUPPORTED_SOLUTIONS,
        (r matches Err(e) ==> e == ChallengeError::CapacityExceeded),
{
    let solutions_len: usize = solutions.len();
    let extra_solutions_len: usize = extra_solutions.len();

    let final_len: usize = solutions_len.saturating_add(extra_solutions_len);
    if final_len > MAX_SUPPORTED_SOLUTIONS {
        Err(ChallengeError::CapacityExceeded)
    } else {
        Ok(())
    }
}

/// Confirms that an append carries at least one new solution.
pub fn assert_adding_non_empty(extra_solutions: &[Solution]) -> (r: Result<(), ChallengeError>)
    ensures
        r is Ok <==> extra_solutions@.len() > 0,
        (r matches Err(e) ==> e == ChallengeError::EmptyInput),
{
    if extra_solutions.len() == 0 {
        Err(ChallengeError::EmptyInput)
    } else {
        Ok(())
    }
}

/// Confirms that an existing record's storage holds data and at least one
/// unit of balance. Data-emptiness is checked first and short-circuits, so an
/// account that is both empty and unfunded reports the missing data.
pub fn assert_account_is_funded_and_has_data(
    account: &AccountHandle,
) -> (r: Result<(), ChallengeError>)
    ensures
        r is Ok <==> account.data_len != 0 && account.lamports >= 1,
        r == Err::<(), ChallengeError>(ChallengeError::UninitializedAccount) <==> account.data_len
            == 0,
        r == Err::<(), ChallengeError>(ChallengeError::UnfundedAccount) <==> account.data_len != 0
            && account.lamports < 1,
{
    if account.data_len == 0 {
        Err(ChallengeError::UninitializedAccount)
    } else if account.lamports < 1 {
        Err(ChallengeError::UnfundedAccount)
    } else {
        Ok(())
    }
}

/// Confirms that a record's storage holds no data yet: the creation-time
/// inverse of the funded-and-has-data check.
pub fn assert_account_has_no_data(account: &AccountHandle) -> (r: Result<(), ChallengeError>)
    ensures
        r is Ok <==> account.data_len == 0,
        (r matches Err(e) ==> e == ChallengeError::AlreadyInitialized),
{
    if account.data_len != 0 {
        Err(ChallengeError::AlreadyInitialized)
    } else {
        Ok(())
    }
}

/// Confirms that an account has authorized the current operation.
pub fn assert_is_signer(
    account: &AccountHandle,
    _account_label: &str,
) -> (r: Result<(), ChallengeError>)
    ensures
        r is Ok <==> account.is_signer,
        (r matches Err(e) ==> e == ChallengeError::MissingSignature),
{
    if !account.is_signer {
        Err(ChallengeError::MissingSignature)
    } else {
        Ok(())
    }
}

} // verus!
