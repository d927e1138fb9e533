use vstd::prelude::*;
use crate::error::ErrorKind;
use crate::pipeline::{Outcome, OutcomeStatus};

verus! {

/// Largest number of deletions the queue accepts in one request.
pub const MAX_ACK_BATCH: usize = 10;

/// One message to delete from the queue.
#[derive(Clone, Debug, PartialEq, Eq)]
pub struct DeleteEntry {
    pub message_id: String,
    pub receipt_handle: String,
}

impl DeleteEntry {
    pub open spec fn model(&self) -> (Seq<char>, Seq<char>) {
        (self.message_id@, self.receipt_handle@)
    }
}

/// The deletion owed for an outcome's message: its identity and token.
pub open spec fn entry_of<O>(o: Outcome<O>) -> (Seq<char>, Seq<char>) {
    (o.message_id@, o.receipt_handle@)
}

/// The deletions a batch of outcomes calls for: one per success, in batch
/// order, and none for a failure of any kind.
pub open spec fn deletions_of<O>(batch: Seq<Outcome<O>>) -> Seq<(Seq<char>, Seq<char>)>
    decreases batch.len(),
{
    if batch.len() == 0 {
        Seq::empty()
    } else {
        let rest = deletions_of(batch.drop_last());
        if batch.last().is_success() {
            rest.push(entry_of(batch.last()))
        } else {
            rest
        }
    }
}

/// The entries of a sequence of requests, one request after another.
pub open spec fn concat_requests(requests: Seq<Seq<(Seq<char>, Seq<char>)>>) -> Seq<
    (Seq<char>, Seq<char>),
>
    decreases requests.len(),
{
    if requests.len() == 0 {
        Seq::empty()
    } else {
        concat_requests(requests.drop_last()) + requests.last()
    }
}

pub open spec fn requests_model(requests: Seq<Vec<DeleteEntry>>) -> Seq<
    Seq<(Seq<char>, Seq<char>)>,
> {
    requests.map_values(|req: Vec<DeleteEntry>| req@.map_values(|e: DeleteEntry| e.model()))
}

/// The request size used for a configured acknowledgement batch size: the
/// configured size when it lies between one and the queue's maximum, else the
/// queue's maximum.
pub open spec fn ack_batch_limit(max_batch: usize) -> usize {
    if 0 < max_batch <= MAX_ACK_BATCH {
        max_batch
    } else {
        MAX_ACK_BATCH
    }
}

/// Splits the successes of a batch into deletion requests of at most
/// `ack_batch_limit(max_batch)` entries each. Every success is scheduled
/// exactly once, in batch order; failures schedule nothing and hold up nothing.
pub fn plan_acknowledgements<O>(batch: &Vec<Outcome<O>>, max_batch: usize) -> (r: Vec<
    Vec<DeleteEntry>,
>)
    ensures
        concat_requests(requests_model(r@)) == deletions_of(batch@),
        forall|i: int|
            0 <= i < r@.len() ==> 0 < #[trigger] r@[i]@.len() <= ack_batch_limit(max_batch),
{
    let max_batch: usize = if 0 < max_batch && max_batch <= MAX_ACK_BATCH {
        max_batch
    } else {
        MAX_ACK_BATCH
    };
    let mut requests: Vec<Vec<DeleteEntry>> = Vec::new();
    let mut current: Vec<DeleteEntry> = Vec::new();
    let mut i: usize = 0;
    while i < batch.len()
        invariant
            max_batch > 0,
            i <= batch@.len(),
            current@.len() < max_batch,
            concat_requests(requests_model(requests@)) + current@.map_values(
                |e: DeleteEntry| e.model(),
            ) == deletions_of(batch@.subrange(0, i as int)),
            forall|j: int| 0 <= j < requests@.len() ==> 0 < #[trigger] requests@[j]@.len() <= max_batch,
        decreases batch@.len() - i,
    {
        let ghost before = current@.map_values(|e: DeleteEntry| e.model());
        let ghost prefix = batch@.subrange(0, i as int);
        assert(batch@.subrange(0, i + 1).drop_last() =~= prefix);
        assert(batch@.subrange(0, i + 1).last() == batch@[i as int]);
        let o = &batch[i];
        match &o.status {
            OutcomeStatus::Success(_) => {
                let entry = DeleteEntry {
                    message_id: o.message_id.clone(),
                    receipt_handle: o.receipt_handle.clone(),
                };
                current.push(entry);
                assert(current@.map_values(|e: DeleteEntry| e.model()) =~= before.push(
                    entry_of(batch@[i as int]),
                ));
                if current.len() == max_batch {
                    let ghost done = requests_model(requests@);
                    let full = current;
                    current = Vec::new();
                    requests.push(full);
                    assert(requests_model(requests@).drop_last() =~= done);
                    assert(current@.map_values(|e: DeleteEntry| e.model()) =~= Seq::empty());
                }
            },
            OutcomeStatus::Failure { .. } => {},
        }
        i = i + 1;
    }
    assert(batch@.subrange(0, batch@.len() as int) =~= batch@);
    if current.len() > 0 {
        let ghost done = requests_model(requests@);
        requests.push(current);
        assert(requests_model(requests@).drop_last() =~= done);
    } else {
        assert(current@.map_values(|e: DeleteEntry| e.model()) =~= Seq::empty());
        assert(concat_requests(requests_model(requests@)) + Seq::empty() =~= concat_requests(
            requests_model(requests@),
        ));
    }
    requests
}

/// A deletion still owed, with how many times the queue has rejected it.
#[derive(Clone, Debug, PartialEq, Eq)]
pub struct PendingDeletion {
    pub entry: DeleteEntry,
    pub attempts: u32,
}

impl PendingDeletion {
    pub open spec fn model(&self) -> (Seq<char>, Seq<char>, int) {
        (self.entry.message_id@, self.entry.receipt_handle@, self.attempts as int)
    }
}

pub open spec fn pending_model(p: Seq<PendingDeletion>) -> Seq<(Seq<char>, Seq<char>, int)> {
    p.map_values(|d: PendingDeletion| d.model())
}

pub open spec fn entries_model(e: Seq<DeleteEntry>) -> Seq<(Seq<char>, Seq<char>)> {
    e.map_values(|d: DeleteEntry| d.model())
}

/// Whether the queue named this message among the deletions it rejected.
pub open spec fn was_rejected(id: Seq<char>, rejected: Seq<String>) -> bool {
    exists|j: int| 0 <= j < rejected.len() && (#[trigger] rejected[j])@ == id
}

/// The deletions to send again after a response: each rejected one whose
/// rejection count, this one included, is still below `max_attempts`.
pub open spec fn retries_of(
    sent: Seq<(Seq<char>, Seq<char>, int)>,
    rejected: Seq<String>,
    max_attempts: int,
) -> Seq<(Seq<char>, Seq<char>, int)>
    decreases sent.len(),
{
    if sent.len() == 0 {
        Seq::empty()
    } else {
        let rest = retries_of(sent.drop_last(), rejected, max_attempts);
        let d = sent.last();
        if was_rejected(d.0, rejected) && d.2 + 1 < max_attempts {
            rest.push((d.0, d.1, d.2 + 1))
        } else {
            rest
        }
    }
}

/// The deletions given up after a response: each rejected one that has now
/// been rejected `max_attempts` times. Its message falls back to redelivery.
pub open spec fn abandoned_of(
    sent: Seq<(Seq<char>, Seq<char>, int)>,
    rejected: Seq<String>,
    max_attempts: int,
) -> Seq<(Seq<char>, Seq<char>)>
    decreases sent.len(),
{
    if sent.len() == 0 {
        Seq::empty()
    } else {
        let rest = abandoned_of(sent.drop_last(), rejected, max_attempts);
        let d = sent.last();
        if was_rejected(d.0, rejected) && d.2 + 1 >= max_attempts {
            rest.push((d.0, d.1))
        } else {
            rest
        }
    }
}

/// Deletions not yet tried: each entry with no rejection so far.
pub fn first_attempts(entries: Vec<DeleteEntry>) -> (r: Vec<PendingDeletion>)
    ensures
        r@.len() == entries@.len(),
        forall|i: int|
            0 <= i < r@.len() ==> (#[trigger] r@[i]).entry == entries@[i] && r@[i].attempts == 0,
{
    let mut entries = entries;
    let mut r: Vec<PendingDeletion> = Vec::new();
    let ghost original = entries@;
    while entries.len() > 0
        invariant
            r@.len() + entries@.len() == original.len(),
            forall|i: int| 0 <= i < entries@.len() ==> #[trigger] entries@[i] == original[
                r@.len() + i],
            forall|i: int|
                0 <= i < r@.len() ==> (#[trigger] r@[i]).entry == original[i] && r@[i].attempts
                    == 0,
        decreases entries@.len(),
    {
        let e = entries.remove(0);
        r.push(PendingDeletion { entry: e, attempts: 0 });
    }
    r
}

fn is_listed(id: &String, rejected: &Vec<String>) -> (r: bool)
    ensures
        r == was_rejected(id@, rejected@),
{
    let mut j: usize = 0;
    while j < rejected.len()
        invariant
            j <= rejected@.len(),
            forall|k: int| 0 <= k < j ==> (#[trigger] rejected@[k])@ != id@,
        decreases rejected@.len() - j,
    {
        if rejected[j] == *id {
            return true;
        }
        j = j + 1;
    }
    false
}

/// Sorts the deletions of one request by the queue's per-message answer.
/// Accepted deletions are done; a rejected one is sent again until it has been
/// rejected `max_attempts` times, and is then given up. The first result holds
/// the retries, the second the deletions given up, each in request order.
pub fn settle_response(
    sent: Vec<PendingDeletion>,
    rejected: &Vec<String>,
    max_attempts: u32,
) -> (r: (Vec<PendingDeletion>, Vec<DeleteEntry>))
    ensures
        pending_model(r.0@) == retries_of(pending_model(sent@), rejected@, max_attempts as int),
        entries_model(r.1@) == abandoned_of(pending_model(sent@), rejected@, max_attempts as int),
{
    let mut sent = sent;
    let ghost original = sent@;
    let n: usize = sent.len();
    let mut retry: Vec<PendingDeletion> = Vec::new();
    let mut abandoned: Vec<DeleteEntry> = Vec::new();
    let mut i: usize = 0;
    while sent.len() > 0
        invariant
            original.len() == n,
            i + sent@.len() == original.len(),
            sent@ == original.subrange(i as int, original.len() as int),
            pending_model(retry@) == retries_of(
                pending_model(original.subrange(0, i as int)),
                rejected@,
                max_attempts as int,
            ),
            entries_model(abandoned@) == abandoned_of(
                pending_model(original.subrange(0, i as int)),
                rejected@,
                max_attempts as int,
            ),
        decreases sent@.len(),
    {
        let ghost done = pending_model(original.subrange(0, i as int));
        let ghost next = pending_model(original.subrange(0, i + 1));
        assert(next.drop_last() =~= done);
        assert(next.last() == original[i as int].model());
        let ghost r0 = pending_model(retry@);
        let ghost a0 = entries_model(abandoned@);
        let d = sent.remove(0);
        assert(sent@ =~= original.subrange(i + 1, original.len() as int));
        if is_listed(&d.entry.message_id, rejected) {
            if (d.attempts as u64) + 1 < max_attempts as u64 {
                let again = PendingDeletion { entry: d.entry, attempts: d.attempts + 1 };
                retry.push(again);
                assert(pending_model(retry@) =~= r0.push(again.model()));
            } else {
                let e = d.entry;
                abandoned.push(e);
                assert(entries_model(abandoned@) =~= a0.push(e.model()));
            }
        }
        i = i + 1;
    }
    assert(original.subrange(0, i as int) =~= original);
    (retry, abandoned)
}

/// One line of the completion audit trail: the message and how it ended.
/// `failure` is `None` for a success; for a failure it holds the kind and
/// whether redelivery may help.
#[derive(Clone, Debug, PartialEq, Eq)]
pub struct AuditEntry {
    pub message_id: String,
    pub failure: Option<(ErrorKind, bool)>,
}

/// The audit line owed for an outcome.
pub open spec fn audit_of<O>(o: Outcome<O>) -> (Seq<char>, Option<(ErrorKind, bool)>) {
    (
        o.message_id@,
        match o.status {
            OutcomeStatus::Success(_) => None,
            OutcomeStatus::Failure { kind, retryable } => Some((kind, retryable)),
        },
    )
}

/// Turns a completion record into bytes for the completion sink.
pub trait CompletionEventSerializer {
    fn serialize(&self, record: &Vec<AuditEntry>) -> Result<Vec<u8>, String>;
}

/// The audit trail of a batch: one line per outcome, failures included, in
/// batch order, whatever becomes of the acknowledgements.
pub fn audit_trail<O>(batch: &Vec<Outcome<O>>) -> (r: Vec<AuditEntry>)
    ensures
        r@.len() == batch@.len(),
        forall|i: int|
            0 <= i < r@.len() ==> ((#[trigger] r@[i]).message_id@, r@[i].failure) == audit_of(
                batch@[i],
            ),
{
    let mut r: Vec<AuditEntry> = Vec::new();
    let mut i: usize = 0;
    while i < batch.len()
        invariant
            i <= batch@.len(),
            r@.len() == i,
            forall|k: int|
                0 <= k < i ==> ((#[trigger] r@[k]).message_id@, r@[k].failure) == audit_of(
                    batch@[k],
                ),
        decreases batch@.len() - i,
    {
        let o = &batch[i];
        let failure = match &o.status {
            OutcomeStatus::Success(_) => None,
            OutcomeStatus::Failure { kind, retryable } => Some((kind.duplicate(), *retryable)),
        };
        r.push(AuditEntry { message_id: o.message_id.clone(), failure });
        i = i + 1;
    }
    r
}

/// The deletions of two batches side by side are those of each, in order.
pub proof fn lemma_deletions_append<O>(a: Seq<Outcome<O>>, b: Seq<Outcome<O>>)
    ensures
        deletions_of(a + b) == deletions_of(a) + deletions_of(b),
    decreases b.len(),
{
    if b.len() == 0 {
        assert(a + b =~= a);
        assert(deletions_of(a) + deletions_of(b) =~= deletions_of(a));
    } else {
        assert((a + b).drop_last() =~= a + b.drop_last());
        assert((a + b).last() == b.last());
        lemma_deletions_append(a, b.drop_last());
        if b.last().is_success() {
            assert(deletions_of(a) + deletions_of(b.drop_last()).push(entry_of(b.last()))
                =~= (deletions_of(a) + deletions_of(b.drop_last())).push(entry_of(b.last())));
        }
    }
}

/// In a batch of successes only, every message is scheduled for deletion
/// exactly once: the deletions are the batch's own entries, one per outcome,
/// in batch order.
pub proof fn all_successes_acknowledged<O>(batch: Seq<Outcome<O>>)
    requires
        forall|i: int| 0 <= i < batch.len() ==> (#[trigger] batch[i]).is_success(),
    ensures
        deletions_of(batch) == batch.map_values(|o: Outcome<O>| entry_of(o)),
    decreases batch.len(),
{
    if batch.len() > 0 {
        let rest = batch.drop_last();
        assert forall|i: int| 0 <= i < rest.len() implies (#[trigger] rest[i]).is_success() by {
            assert(rest[i] == batch[i]);
        }
        all_successes_acknowledged(rest);
        assert(batch[batch.len() - 1].is_success());
        assert(batch.map_values(|o: Outcome<O>| entry_of(o)) =~= rest.map_values(
            |o: Outcome<O>| entry_of(o),
        ).push(entry_of(batch.last())));
    }
}

/// The outcomes of a batch that succeeded, in batch order.
pub open spec fn successes_of<O>(batch: Seq<Outcome<O>>) -> Seq<Outcome<O>> {
    batch.filter(|o: Outcome<O>| o.is_success())
}

/// Failures neither block nor revert the acknowledgement of successes: the
/// deletions of a mixed batch are exactly those of its successes alone, so
/// every success of the batch is among them.
pub proof fn failures_never_block_successes<O>(batch: Seq<Outcome<O>>)
    ensures
        deletions_of(batch) == deletions_of(successes_of(batch)),
        forall|i: int|
            0 <= i < batch.len() && (#[trigger] batch[i]).is_success() ==> deletions_of(
                batch,
            ).contains(entry_of(batch[i])),
    decreases batch.len(),
{
    if batch.len() > 0 {
        let rest = batch.drop_last();
        failures_never_block_successes(rest);
        let f = successes_of(rest);
        reveal(Seq::filter);
        assert(successes_of(batch) == if batch.last().is_success() {
            f.push(batch.last())
        } else {
            f
        });
        if batch.last().is_success() {
            assert(f.push(batch.last()).drop_last() =~= f);
            assert(f.push(batch.last()).last() == batch.last());
        }
        assert forall|i: int|
            0 <= i < batch.len() && (#[trigger] batch[i]).is_success() implies deletions_of(
                batch,
            ).contains(entry_of(batch[i])) by {
            if i < batch.len() - 1 {
                assert(rest[i] == batch[i]);
                let k = choose|k: int|
                    0 <= k < deletions_of(rest).len() && deletions_of(rest)[k] == entry_of(
                        rest[i],
                    );
                if batch.last().is_success() {
                    assert(deletions_of(batch)[k] == entry_of(batch[i]));
                }
            } else {
                assert(deletions_of(batch).last() == entry_of(batch[i]));
            }
        }
    } else {
        reveal(Seq::filter);
        assert(successes_of(batch) =~= batch);
    }
}

/// A failure in one message's pipeline changes nothing for the others: with
/// the outcome at `i` replaced by any failure, the other messages' deletions
/// are those they had before, and the failed message gets none.
pub proof fn failure_is_isolated<O>(batch: Seq<Outcome<O>>, i: int, failed: Outcome<O>)
    requires
        0 <= i < batch.len(),
        !failed.is_success(),
    ensures
        deletions_of(batch.update(i, failed)) == deletions_of(batch.subrange(0, i))
            + deletions_of(batch.subrange(i + 1, batch.len() as int)),
        deletions_of(batch) == deletions_of(batch.subrange(0, i)) + deletions_of(
            seq![batch[i]],
        ) + deletions_of(batch.subrange(i + 1, batch.len() as int)),
{
    let pre = batch.subrange(0, i);
    let post = batch.subrange(i + 1, batch.len() as int);
    assert(batch =~= pre + seq![batch[i]] + post);
    assert(batch.update(i, failed) =~= pre + seq![failed] + post);
    lemma_deletions_append(pre + seq![batch[i]], post);
    lemma_deletions_append(pre, seq![batch[i]]);
    lemma_deletions_append(pre + seq![failed], post);
    lemma_deletions_append(pre, seq![failed]);
    assert(seq![failed].drop_last() =~= Seq::<Outcome<O>>::empty());
    assert(seq![failed].last() == failed);
    assert(deletions_of(Seq::<Outcome<O>>::empty()) =~= Seq::empty());
    assert(deletions_of(seq![failed]) =~= Seq::empty());
    assert(deletions_of(pre) + Seq::empty() =~= deletions_of(pre));
}

/// Completion keeps no state from one cycle to the next: when a message's
/// earlier delivery failed and a later delivery of it succeeds, the later
/// batch schedules its deletion, whatever else either batch holds.
pub proof fn redelivered_success_acknowledged<O>(
    earlier: Seq<Outcome<O>>,
    j: int,
    later: Seq<Outcome<O>>,
    i: int,
)
    requires
        0 <= j < earlier.len(),
        !earlier[j].is_success(),
        0 <= i < later.len(),
        later[i].is_success(),
        later[i].message_id@ == earlier[j].message_id@,
    ensures
        deletions_of(later).contains(entry_of(later[i])),
{
    failures_never_block_successes(later);
}

} // verus!
