use vstd::prelude::*;

use crate::counterparty_contract::{
    counterparty_abort_outcome, counterparty_complete_outcome, counterparty_ids,
    counterparty_record, counterparty_with_state, CounterpartyRecord,
    SmartContractCounterpartyError,
};
use crate::initiator_contract::{
    credited, initiator_complete_outcome, initiator_ids, initiator_record,
    initiator_refund_outcome, initiator_with_state, InitiatorRecord, SmartContractInitiator,
    SmartContractInitiatorError,
};
use crate::ledger::Accounts;
use crate::retry::{
    retry_step, RetryDecision, RetryState, SendTransactionError, SendTransactionErrorRule,
    SubmissionFailure, first_verdict_from,
};
use crate::types::{expired, ids_unique, lemma_index_of, TransferState};

verus! {

/// Every transfer identifier that a well-formed initiator contract holds is
/// distinct from every other, and the `i`-th carries sequence number `i`.
/// `initiate_bridge_transfer` keeps the contract well formed and, short of
/// `u64::MAX` records, always adds exactly one record under an identifier the
/// contract did not hold.
pub proof fn lemma_transfer_ids_distinct(c: SmartContractInitiator, i: int, j: int)
    requires
        c.wf(),
        0 <= i < c.initiated_transfers@.len(),
        0 <= j < c.initiated_transfers@.len(),
        i != j,
    ensures
        c.initiated_transfers@[i].details.bridge_transfer_id.0@
            != c.initiated_transfers@[j].details.bridge_transfer_id.0@,
        crate::types::id_sequence(c.initiated_transfers@[i].details.bridge_transfer_id.0@) == i,
{
    let ids = initiator_ids(c.initiated_transfers@);
    assert(ids[i] != ids[j]);
}

/// Completing an initiated transfer succeeds only where its record exists and
/// the digest of the presented secret equals its hash lock; any other digest
/// fails with `InvalidHashLockPreImage`. A pending transfer whose time lock has
/// not elapsed, and whose credit fits, completes exactly when the digest matches.
pub proof fn lemma_preimage_correctness(
    s: Seq<InitiatorRecord>,
    clock: u64,
    id: Seq<u8>,
    digest: Seq<u8>,
    ledger: Accounts,
)
    requires
        ids_unique(initiator_ids(s)),
    ensures
        initiator_complete_outcome(s, clock, id, digest, ledger) is Ok ==> initiator_ids(
            s,
        ).contains(id) && initiator_record(s, id).details.hash_lock.0@ == digest,
        initiator_ids(s).contains(id) && initiator_record(s, id).details.hash_lock.0@ != digest
            ==> initiator_complete_outcome(s, clock, id, digest, ledger) == Err::<
            (),
            SmartContractInitiatorError,
        >(SmartContractInitiatorError::InvalidHashLockPreImage),
        ({
            let r = initiator_record(s, id);
            initiator_ids(s).contains(id) && r.state == TransferState::Pending && !expired(
                r.created_at,
                r.details.time_lock.0,
                clock,
            ) && ledger.balance_of(r.details.recipient_address.0@) + r.details.amount.0
                <= u64::MAX ==> (initiator_complete_outcome(s, clock, id, digest, ledger) is Ok
                <==> r.details.hash_lock.0@ == digest)
        }),
{
}

/// After a transfer of amount `A` for recipient `R` is initiated, the credit that
/// a successful completion of it makes raises the balance of `R` by exactly `A`
/// and leaves every other balance as it was.
pub proof fn lemma_amount_conservation(
    s: Seq<InitiatorRecord>,
    rec: InitiatorRecord,
    before: Accounts,
    after: Accounts,
)
    requires
        ids_unique(initiator_ids(s)),
        !initiator_ids(s).contains(rec.details.bridge_transfer_id.0@),
        credited(
            before,
            after,
            initiator_record(
                s.push(rec),
                rec.details.bridge_transfer_id.0@,
            ).details.recipient_address.0@,
            initiator_record(s.push(rec), rec.details.bridge_transfer_id.0@).details.amount.0 as nat,
        ),
    ensures
        after.balance_of(rec.details.recipient_address.0@) == before.balance_of(
            rec.details.recipient_address.0@,
        ) + rec.details.amount.0,
        forall|b: Seq<u8>|
            b != rec.details.recipient_address.0@ ==> #[trigger] after.balance_of(b)
                == before.balance_of(b),
{
    let s1 = s.push(rec);
    let ids = initiator_ids(s1);
    assert(ids =~= initiator_ids(s).push(rec.details.bridge_transfer_id.0@));
    assert(ids_unique(ids));
    lemma_index_of(ids, s.len() as int);
}

/// Refunding a pending transfer fails with `TimeLockNotExpired` before its time
/// lock has elapsed and, where the initiator's credit fits, succeeds after; once
/// refunded, a second refund fails and so does a completion, whatever the clock
/// reads and whatever the ledger holds.
pub proof fn lemma_refund_expiry_gating(
    s: Seq<InitiatorRecord>,
    clock: u64,
    id: Seq<u8>,
    later: u64,
    digest: Seq<u8>,
    ledger: Accounts,
    later_ledger: Accounts,
)
    requires
        ids_unique(initiator_ids(s)),
        initiator_ids(s).contains(id),
        initiator_record(s, id).state == TransferState::Pending,
    ensures
        !expired(
            initiator_record(s, id).created_at,
            initiator_record(s, id).details.time_lock.0,
            clock,
        ) ==> initiator_refund_outcome(s, clock, id, ledger) == Err::<
            (),
            SmartContractInitiatorError,
        >(SmartContractInitiatorError::TimeLockNotExpired),
        expired(
            initiator_record(s, id).created_at,
            initiator_record(s, id).details.time_lock.0,
            clock,
        ) && ledger.balance_of(initiator_record(s, id).details.initiator_address.0@)
            + initiator_record(s, id).details.amount.0 <= u64::MAX ==> initiator_refund_outcome(
            s,
            clock,
            id,
            ledger,
        ) is Ok,
        initiator_refund_outcome(
            initiator_with_state(s, id, TransferState::Cancelled),
            later,
            id,
            later_ledger,
        ) == Err::<(), SmartContractInitiatorError>(
            SmartContractInitiatorError::TransferAlreadyFinalized,
        ),
        initiator_complete_outcome(
            initiator_with_state(s, id, TransferState::Cancelled),
            later,
            id,
            digest,
            later_ledger,
        ) is Err,
{
    let ids = initiator_ids(s);
    let k = crate::types::index_of(ids, id);
    let s1 = initiator_with_state(s, id, TransferState::Cancelled);
    assert(initiator_ids(s1) =~= ids);
    assert(initiator_record(s1, id) == s1[k]);
}

/// Aborting a pending lock fails with `TimeLockNotExpired` before its time lock
/// has elapsed and succeeds after; once aborted, a second abort fails, and so
/// does a completion, even with the right secret.
pub proof fn lemma_abort_expiry_gating(
    s: Seq<CounterpartyRecord>,
    clock: u64,
    id: Seq<u8>,
    later: u64,
    digest: Seq<u8>,
)
    requires
        ids_unique(counterparty_ids(s)),
        counterparty_ids(s).contains(id),
        counterparty_record(s, id).state == TransferState::Pending,
    ensures
        !expired(
            counterparty_record(s, id).created_at,
            counterparty_record(s, id).details.time_lock.0,
            clock,
        ) ==> counterparty_abort_outcome(s, clock, id) == Err::<(), SmartContractCounterpartyError>(
            SmartContractCounterpartyError::TimeLockNotExpired,
        ),
        expired(
            counterparty_record(s, id).created_at,
            counterparty_record(s, id).details.time_lock.0,
            clock,
        ) ==> counterparty_abort_outcome(s, clock, id) is Ok,
        counterparty_abort_outcome(
            counterparty_with_state(s, id, TransferState::Cancelled),
            later,
            id,
        ) == Err::<(), SmartContractCounterpartyError>(
            SmartContractCounterpartyError::TransferAlreadyFinalized,
        ),
        counterparty_complete_outcome(
            counterparty_with_state(s, id, TransferState::Cancelled),
            later,
            id,
            digest,
        ) is Err,
{
    let ids = counterparty_ids(s);
    let k = crate::types::index_of(ids, id);
    let s1 = counterparty_with_state(s, id, TransferState::Cancelled);
    assert(counterparty_ids(s1) =~= ids);
    assert(counterparty_record(s1, id) == s1[k]);
}

/// A transfer releases its locked amount at most once: once completed it can
/// no longer be refunded, and once refunded it can no longer be completed.
pub proof fn lemma_released_at_most_once(
    s: Seq<InitiatorRecord>,
    id: Seq<u8>,
    clock: u64,
    digest: Seq<u8>,
    ledger: Accounts,
)
    requires
        ids_unique(initiator_ids(s)),
        initiator_ids(s).contains(id),
    ensures
        initiator_refund_outcome(
            initiator_with_state(s, id, TransferState::Completed),
            clock,
            id,
            ledger,
        ) == Err::<(), SmartContractInitiatorError>(
            SmartContractInitiatorError::TransferAlreadyFinalized,
        ),
        initiator_complete_outcome(
            initiator_with_state(s, id, TransferState::Cancelled),
            clock,
            id,
            digest,
            ledger,
        ) is Err,
        initiator_complete_outcome(
            initiator_with_state(s, id, TransferState::Completed),
            clock,
            id,
            digest,
            ledger,
        ) is Err,
{
    let ids = initiator_ids(s);
    let k = crate::types::index_of(ids, id);
    let s1 = initiator_with_state(s, id, TransferState::Completed);
    let s2 = initiator_with_state(s, id, TransferState::Cancelled);
    assert(initiator_ids(s1) =~= ids);
    assert(initiator_ids(s2) =~= ids);
    assert(initiator_record(s1, id) == s1[k]);
    assert(initiator_record(s2, id) == s2[k]);
}

/// Under the rules `[UnderPriced, InsufficientFunds]`, a submission with a
/// budget of at least two retries that is refused twice as underpriced and
/// then accepted succeeds after exactly two retries; one refused for
/// insufficient funds fails at once, with no retry.
pub proof fn lemma_retry_classification(s: RetryState)
    requires
        s.wf(),
        s.retries_done == 0,
        s.max_retries >= 2,
    ensures
        ({
            let rules = seq![
                SendTransactionErrorRule::UnderPriced,
                SendTransactionErrorRule::InsufficientFunds,
            ];
            let (s1, d1) = retry_step(s, rules, Err(SubmissionFailure::UnderPriced));
            let (s2, d2) = retry_step(s1, rules, Err(SubmissionFailure::UnderPriced));
            let (s3, d3) = retry_step(s2, rules, Ok(()));
            &&& d1 is Resubmit
            &&& d2 is Resubmit
            &&& d3 == RetryDecision::Succeeded
            &&& s3.retries_done == 2
            &&& retry_step(s, rules, Err(SubmissionFailure::InsufficientFunds)) == (
                s,
                RetryDecision::Failed(
                    SendTransactionError::FatalSubmissionError(
                        SubmissionFailure::InsufficientFunds,
                    ),
                ),
            )
        }),
{
    let rules = seq![
        SendTransactionErrorRule::UnderPriced,
        SendTransactionErrorRule::InsufficientFunds,
    ];
    reveal_with_fuel(first_verdict_from, 3);
    assert(first_verdict_from(rules, 0, SubmissionFailure::UnderPriced) == crate::retry::Verdict::Retryable(
        crate::retry::UNDERPRICED_GAS_BUMP_PERCENT,
    ));
    assert(first_verdict_from(rules, 1, SubmissionFailure::InsufficientFunds)
        == crate::retry::Verdict::Fatal);
    assert(first_verdict_from(rules, 0, SubmissionFailure::InsufficientFunds)
        == crate::retry::Verdict::Fatal);
}

} // verus!
