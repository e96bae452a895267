use vstd::prelude::*;

use crate::account::AccountHandle;
use crate::account::Pubkey;
use crate::handlers::spec_append_effect;
use crate::handlers::spec_create_effect;
use crate::handlers::RecordUpdate;
use crate::hashing::solution_digest;
use crate::state::Challenge;
use crate::state::Solution;

verus! {

/// For every valid creation, the record's fingerprint list is exactly the
/// element-wise digest of the initial answers, and the storage it asks for is
/// the size a list of that length needs.
pub proof fn lemma_create_is_digest_list(
    authority: AccountHandle,
    record_account: AccountHandle,
    admit_cost: u64,
    tries_per_admit: u64,
    redeem: Pubkey,
    initial: Seq<String>,
    min_record_balance: u64,
    u: RecordUpdate,
)
    requires
        spec_create_effect(
            authority,
            record_account,
            admit_cost,
            tries_per_admit,
            redeem,
            initial,
            min_record_balance,
            u,
        ),
    ensures
        u.challenge.solutions@.map_values(|s: Solution| s@) == initial.map_values(
            |t: String| solution_digest(t@),
        ),
        u.space == Challenge::spec_needed_size(initial.len() as nat),
{
    assert(u.challenge.solutions@.map_values(|s: Solution| s@) =~= initial.map_values(
        |t: String| solution_digest(t@),
    ));
}

/// For every valid append, the resulting fingerprint list is exactly the old
/// list followed by the batch's digests: an order-preserving concatenation
/// that touches no existing entry.
pub proof fn lemma_append_is_concatenation(
    record: Challenge,
    record_account: AccountHandle,
    extra: Seq<String>,
    min_record_balance: u64,
    u: RecordUpdate,
)
    requires
        spec_append_effect(record, record_account, extra, min_record_balance, u),
    ensures
        u.challenge.solutions@.map_values(|s: Solution| s@) == record.solutions@.map_values(
            |s: Solution| s@,
        ) + extra.map_values(|t: String| solution_digest(t@)),
{
    assert(u.challenge.solutions@.map_values(|s: Solution| s@) =~= record.solutions@.map_values(
        |s: Solution| s@,
    ) + extra.map_values(|t: String| solution_digest(t@)));
}

/// A valid append's funding strictly raises the record's balance whenever the
/// host's minimum balance for the grown record exceeds what the account holds;
/// an account already holding more than that minimum keeps its balance.
pub proof fn lemma_append_raises_balance(
    record: Challenge,
    record_account: AccountHandle,
    extra: Seq<String>,
    min_record_balance: u64,
    u: RecordUpdate,
)
    requires
        spec_append_effect(record, record_account, extra, min_record_balance, u),
        min_record_balance > record_account.lamports,
    ensures
        record_account.lamports + u.payer_transfer > record_account.lamports,
{
}

/// Nothing deduplicates: appending a batch and then the same batch again
/// stores every one of its digests twice, the second copy standing one batch
/// length after the first.
pub proof fn lemma_append_no_dedup(
    record: Challenge,
    first_account: AccountHandle,
    second_account: AccountHandle,
    extra: Seq<String>,
    first_min: u64,
    second_min: u64,
    first: RecordUpdate,
    second: RecordUpdate,
)
    requires
        spec_append_effect(record, first_account, extra, first_min, first),
        spec_append_effect(first.challenge, second_account, extra, second_min, second),
    ensures
        forall|i: int|
            0 <= i < extra.len() ==> #[trigger] second.challenge.solutions@[record.solutions@.len()
                + i]@ == second.challenge.solutions@[record.solutions@.len() + extra.len() + i]@,
{
    assert forall|i: int|
        0 <= i < extra.len() implies #[trigger] second.challenge.solutions@[record.solutions@.len()
        + i]@ == second.challenge.solutions@[record.solutions@.len() + extra.len() + i]@ by {
        assert(second.challenge.solutions@[record.solutions@.len() + i]
            == first.challenge.solutions@[record.solutions@.len() + i]);
        assert(first.challenge.solutions@[record.solutions@.len() + i]@ == solution_digest(
            extra[i]@,
        ));
        assert(second.challenge.solutions@[first.challenge.solutions@.len() + i]@
            == solution_digest(extra[i]@));
    }
}

} // verus!
