//! The streaming session as a whole.
//!
//! A session is a sequence of reads, each yielding one chunk, processed by
//! [`crate::dispatch::stream_step`] until the first zero-byte read. The
//! spec functions here fold the per-chunk decision over a whole session:
//! which chunks are forwarded, what each target receives, and which bytes
//! reach the backup file and standard output. The proof functions state
//! the laws of the loop: fan-out duplicates, lone-newline chunks are
//! invisible, a zero-byte read is final, and backup and tee reproduce the
//! forwarded chunks byte for byte and in order.
use vstd::prelude::*;

use crate::dispatch::StepKind;
use crate::dispatch::spec_is_skip_chunk;
use crate::dispatch::spec_step_kind;

verus! {

/// The chunks the session forwards, in order: the reads before the first
/// zero-byte read, lone-newline chunks left out.
pub open spec fn session_forwarded(reads: Seq<Seq<u8>>) -> Seq<Seq<u8>>
    decreases reads.len(),
{
    if reads.len() == 0 {
        Seq::empty()
    } else {
        match spec_step_kind(reads[0]) {
            StepKind::Stop => Seq::empty(),
            StepKind::Skip => session_forwarded(reads.drop_first()),
            StepKind::Forward => seq![reads[0]] + session_forwarded(reads.drop_first()),
        }
    }
}

/// The chunks target `i` receives when `n` targets are registered: each
/// forwarded chunk is sent once to every target index below `n`.
pub open spec fn session_delivered(reads: Seq<Seq<u8>>, i: int, n: int) -> Seq<Seq<u8>>
    decreases reads.len(),
{
    if reads.len() == 0 {
        Seq::empty()
    } else {
        match spec_step_kind(reads[0]) {
            StepKind::Stop => Seq::empty(),
            StepKind::Skip => session_delivered(reads.drop_first(), i, n),
            StepKind::Forward => (if 0 <= i < n {
                seq![reads[0]]
            } else {
                Seq::empty()
            }) + session_delivered(reads.drop_first(), i, n),
        }
    }
}

/// The bytes of every forwarded chunk, concatenated in forwarding order:
/// what one pass of the loop appends to the backup file and writes to
/// standard output when those are enabled.
pub open spec fn session_processed_bytes(reads: Seq<Seq<u8>>) -> Seq<u8>
    decreases reads.len(),
{
    if reads.len() == 0 {
        Seq::empty()
    } else {
        match spec_step_kind(reads[0]) {
            StepKind::Stop => Seq::empty(),
            StepKind::Skip => session_processed_bytes(reads.drop_first()),
            StepKind::Forward => reads[0] + session_processed_bytes(reads.drop_first()),
        }
    }
}

/// What reaches standard output over the session.
pub open spec fn session_teed(reads: Seq<Seq<u8>>, tee: bool) -> Seq<u8> {
    if tee {
        session_processed_bytes(reads)
    } else {
        Seq::empty()
    }
}

/// What the session appends to the day's backup file.
pub open spec fn session_backed_up(reads: Seq<Seq<u8>>, backup: bool) -> Seq<u8> {
    if backup {
        session_processed_bytes(reads)
    } else {
        Seq::empty()
    }
}

/// Law: fan-out duplicates rather than partitions. With `n` registered
/// targets, every target receives exactly the forwarded chunks,
/// byte-identical and in the order they were read.
pub proof fn lemma_fanout_delivers_all(reads: Seq<Seq<u8>>, i: int, n: int)
    requires
        0 <= i < n,
    ensures
        session_delivered(reads, i, n) == session_forwarded(reads),
    decreases reads.len(),
{
    if reads.len() > 0 {
        lemma_fanout_delivers_all(reads.drop_first(), i, n);
    }
}

/// Law: any two registered targets receive identical chunk sequences.
pub proof fn lemma_fanout_targets_agree(reads: Seq<Seq<u8>>, i: int, j: int, n: int)
    requires
        0 <= i < n,
        0 <= j < n,
    ensures
        session_delivered(reads, i, n) == session_delivered(reads, j, n),
{
    lemma_fanout_delivers_all(reads, i, n);
    lemma_fanout_delivers_all(reads, j, n);
}

/// Law: the processed bytes are exactly the forwarded chunks, flattened in
/// order.
pub proof fn lemma_processed_bytes_flatten_forwarded(reads: Seq<Seq<u8>>)
    ensures
        session_processed_bytes(reads) == session_forwarded(reads).flatten(),
    decreases reads.len(),
{
    if reads.len() == 0 {
        assert(session_forwarded(reads).flatten() =~= Seq::<u8>::empty());
    } else {
        lemma_processed_bytes_flatten_forwarded(reads.drop_first());
        match spec_step_kind(reads[0]) {
            StepKind::Stop => {
                assert(session_forwarded(reads).flatten() =~= Seq::<u8>::empty());
            },
            StepKind::Skip => {},
            StepKind::Forward => {
                let rest = session_forwarded(reads.drop_first());
                let whole = seq![reads[0]] + rest;
                assert(whole.drop_first() =~= rest);
                assert(whole.first() == reads[0]);
                assert(whole.flatten() == reads[0] + rest.flatten());
            },
        }
    }
}

/// Law: with tee enabled, standard output reproduces, byte for byte and in
/// order, exactly the chunks that were forwarded; with tee disabled,
/// nothing reaches it.
pub proof fn lemma_tee_reproduces_forwarded(reads: Seq<Seq<u8>>)
    ensures
        session_teed(reads, true) == session_forwarded(reads).flatten(),
        session_teed(reads, false) == Seq::<u8>::empty(),
{
    lemma_processed_bytes_flatten_forwarded(reads);
}

/// Law: with backup enabled, every forwarded chunk appears, in order,
/// concatenated in the day's backup file; with backup disabled, nothing is
/// persisted.
pub proof fn lemma_backup_holds_forwarded_in_order(reads: Seq<Seq<u8>>)
    ensures
        session_backed_up(reads, true) == session_forwarded(reads).flatten(),
        session_backed_up(reads, false) == Seq::<u8>::empty(),
{
    lemma_processed_bytes_flatten_forwarded(reads);
}

/// Law: no forwarded chunk is the lone newline, and none is empty.
pub proof fn lemma_forwarded_chunk_never_blank(reads: Seq<Seq<u8>>, j: int)
    requires
        0 <= j < session_forwarded(reads).len(),
    ensures
        !spec_is_skip_chunk(session_forwarded(reads)[j]),
        session_forwarded(reads)[j].len() != 0,
    decreases reads.len(),
{
    if reads.len() > 0 {
        match spec_step_kind(reads[0]) {
            StepKind::Stop => {},
            StepKind::Skip => {
                lemma_forwarded_chunk_never_blank(reads.drop_first(), j);
            },
            StepKind::Forward => {
                if j > 0 {
                    lemma_forwarded_chunk_never_blank(reads.drop_first(), j - 1);
                }
            },
        }
    }
}

/// Law: a chunk of exactly the single byte `\n` is invisible: inserting
/// one anywhere into a session changes nothing that is forwarded,
/// delivered, or processed.
pub proof fn lemma_blank_chunk_ignored(reads: Seq<Seq<u8>>, k: int, i: int, n: int)
    requires
        0 <= k <= reads.len(),
    ensures
        session_forwarded(reads.insert(k, seq![10u8])) == session_forwarded(reads),
        session_delivered(reads.insert(k, seq![10u8]), i, n) == session_delivered(reads, i, n),
        session_processed_bytes(reads.insert(k, seq![10u8])) == session_processed_bytes(reads),
    decreases reads.len(),
{
    let blank: Seq<u8> = seq![10u8];
    let grown = reads.insert(k, blank);
    if k == 0 {
        assert(grown[0] =~= blank);
        assert(grown.drop_first() =~= reads);
    } else {
        assert(grown[0] =~= reads[0]);
        assert(grown.drop_first() =~= reads.drop_first().insert(k - 1, blank));
        lemma_blank_chunk_ignored(reads.drop_first(), k - 1, i, n);
    }
}

/// Law: a zero-byte read terminates the session. Whatever reads follow it,
/// nothing more is forwarded, delivered to any target, or processed.
pub proof fn lemma_zero_read_terminates(
    before: Seq<Seq<u8>>,
    after: Seq<Seq<u8>>,
    i: int,
    n: int,
)
    ensures
        session_forwarded(before.push(Seq::<u8>::empty()) + after) == session_forwarded(
            before.push(Seq::<u8>::empty()),
        ),
        session_delivered(before.push(Seq::<u8>::empty()) + after, i, n) == session_delivered(
            before.push(Seq::<u8>::empty()),
            i,
            n,
        ),
        session_processed_bytes(before.push(Seq::<u8>::empty()) + after)
            == session_processed_bytes(before.push(Seq::<u8>::empty())),
    decreases before.len(),
{
    let stopped = before.push(Seq::<u8>::empty());
    let grown = stopped + after;
    if before.len() == 0 {
        assert(grown[0] =~= Seq::<u8>::empty());
        assert(stopped[0] =~= Seq::<u8>::empty());
    } else {
        assert(grown[0] =~= before[0]);
        assert(stopped[0] =~= before[0]);
        assert(grown.drop_first() =~= before.drop_first().push(Seq::<u8>::empty()) + after);
        assert(stopped.drop_first() =~= before.drop_first().push(Seq::<u8>::empty()));
        lemma_zero_read_terminates(before.drop_first(), after, i, n);
    }
}

} // verus!
