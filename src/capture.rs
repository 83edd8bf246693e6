//! What the real-time input callback does with one hardware buffer: while the
//! recording flag is up, cut the canonical samples into bounded chunks and hand
//! each to the coordinator's channel, in order.
use crate::sample::{canonical_u16_seq, canonicalize_u16};
use crossbeam_channel::{Sender, TrySendError};
use vstd::prelude::*;
use vstd::slice::{slice_subrange, slice_to_vec};

verus! {

/// Largest number of samples handed over in one chunk.
pub const AUDIO_CHUNK_SIZE_SAMPLES: usize = 1024;

#[verifier::external_type_specification]
#[verifier::external_body]
#[verifier::reject_recursive_types(T)]
pub struct ExSender<T>(Sender<T>);

/// Number of chunks that `n` samples are cut into.
pub open spec fn chunk_count(n: int) -> int {
    (n + AUDIO_CHUNK_SIZE_SAMPLES - 1) / AUDIO_CHUNK_SIZE_SAMPLES as int
}

/// The `k`-th chunk of `data`: `AUDIO_CHUNK_SIZE_SAMPLES` samples, fewer for the last.
pub open spec fn chunk_of(data: Seq<i16>, k: int) -> Seq<i16> {
    let start = k * AUDIO_CHUNK_SIZE_SAMPLES;
    let end = if start + AUDIO_CHUNK_SIZE_SAMPLES <= data.len() {
        start + AUDIO_CHUNK_SIZE_SAMPLES
    } else {
        data.len() as int
    };
    data.subrange(start, end)
}

/// Cuts a buffer into consecutive chunks of at most `AUDIO_CHUNK_SIZE_SAMPLES`
/// samples; only the last may be shorter, and none is empty.
pub fn split_chunks(data: &[i16]) -> (r: Vec<Vec<i16>>)
    ensures
        r@.len() == chunk_count(data@.len() as int),
        forall|k: int| 0 <= k < r@.len() ==> (#[trigger] r@[k])@ == chunk_of(data@, k),
{
    let mut out: Vec<Vec<i16>> = Vec::new();
    let n = data.len();
    let mut start: usize = 0;
    while start < n
        invariant
            n == data@.len(),
            start <= n,
            start == out@.len() * AUDIO_CHUNK_SIZE_SAMPLES || start == n,
            start < n ==> start == out@.len() * AUDIO_CHUNK_SIZE_SAMPLES,
            start == n ==> out@.len() == chunk_count(n as int),
            start < n ==> out@.len() < chunk_count(n as int),
            forall|k: int| 0 <= k < out@.len() ==> (#[trigger] out@[k])@ == chunk_of(data@, k),
        decreases n - start,
    {
        let end: usize = if n - start > AUDIO_CHUNK_SIZE_SAMPLES {
            start + AUDIO_CHUNK_SIZE_SAMPLES
        } else {
            n
        };
        let chunk = slice_to_vec(slice_subrange(data, start, end));
        let ghost k = out@.len() as int;
        out.push(chunk);
        assert(out@[k]@ == chunk_of(data@, k));
        start = end;
    }
    out
}

/// What one buffer delivery did.
/// What the channel did with one chunk.
#[derive(Clone, Copy, Debug, PartialEq, Eq, Structural)]
pub enum SendOutcome {
    /// The chunk was queued.
    Sent,
    /// The channel had no room; the chunk was dropped.
    Full,
    /// Every receiver is gone.
    Disconnected,
}

/// How many of `outcomes` equal `o`.
pub open spec fn count_outcome(outcomes: Seq<SendOutcome>, o: SendOutcome) -> nat
    decreases outcomes.len(),
{
    if outcomes.len() == 0 {
        0
    } else {
        count_outcome(outcomes.drop_last(), o) + if outcomes.last() == o {
            1nat
        } else {
            0nat
        }
    }
}

/// What one buffer delivery did.
#[derive(Clone, Copy, Debug, PartialEq, Eq, Structural)]
pub struct Delivery {
    /// Chunks that the channel queued.
    pub chunks_sent: usize,
    /// Chunks dropped because the channel had no room.
    pub chunks_dropped: usize,
    /// The channel is disconnected: its receiver is gone, and the callback
    /// must lower the recording flag itself.
    pub stop_recording: bool,
}

/// Relies on crossbeam_channel::Sender::try_send: it queues the message without
/// blocking, or fails with `Full` when a bounded channel has no room (or no
/// receiver is waiting on a zero-capacity one) and with `Disconnected` when every
/// receiver has been dropped. Which of the three happens is up to the other side.
#[verifier::external_body]
fn try_send_chunk(sender: &Sender<Vec<i16>>, chunk: Vec<i16>) -> (r: SendOutcome) {
    match sender.try_send(chunk) {
        Ok(()) => SendOutcome::Sent,
        Err(TrySendError::Full(_)) => SendOutcome::Full,
        Err(TrySendError::Disconnected(_)) => SendOutcome::Disconnected,
    }
}

/// Handles one hardware buffer of canonical samples, never blocking. While
/// `recording` is false the buffer is dropped and nothing is sent. Otherwise the
/// chunks of `split_chunks(data)` are handed to the channel one by one, in order:
/// a chunk the channel has no room for is dropped and the next one is tried; a
/// disconnected channel ends the delivery, and asks the caller to stop recording.
///
/// Besides the tally, the result carries the chunks handed to the channel, in
/// the order they were handed, and what the channel answered to each.
pub fn forward_buffer(recording: bool, data: &[i16], sender: &Sender<Vec<i16>>) -> (r: (
    Delivery,
    Ghost<Seq<Seq<i16>>>,
    Ghost<Seq<SendOutcome>>,
))
    ensures
        r.1@.len() == r.2@.len(),
        forall|k: int| 0 <= k < r.1@.len() ==> #[trigger] r.1@[k] == chunk_of(data@, k),
        !recording ==> r.1@.len() == 0,
        !recording ==> r.0 == (Delivery { chunks_sent: 0, chunks_dropped: 0, stop_recording: false }),
        r.1@.len() <= chunk_count(data@.len() as int),
        forall|k: int| 0 <= k < r.2@.len() - 1 ==> #[trigger] r.2@[k] != SendOutcome::Disconnected,
        r.0.stop_recording == (r.2@.len() > 0 && r.2@.last() == SendOutcome::Disconnected),
        recording && !r.0.stop_recording ==> r.1@.len() == chunk_count(data@.len() as int),
        r.0.chunks_sent == count_outcome(r.2@, SendOutcome::Sent),
        r.0.chunks_dropped == count_outcome(r.2@, SendOutcome::Full),
{
    if !recording {
        return (
            Delivery { chunks_sent: 0, chunks_dropped: 0, stop_recording: false },
            Ghost(Seq::empty()),
            Ghost(Seq::empty()),
        );
    }
    let mut chunks = split_chunks(data);
    let total = chunks.len();
    let ghost all = chunks@;
    let ghost mut handed: Seq<Seq<i16>> = Seq::empty();
    let ghost mut outcomes: Seq<SendOutcome> = Seq::empty();
    let mut sent: usize = 0;
    let mut dropped: usize = 0;
    let mut k: usize = 0;
    while k < total
        invariant
            recording,
            total == all.len(),
            total == chunk_count(data@.len() as int),
            forall|j: int| 0 <= j < all.len() ==> (#[trigger] all[j])@ == chunk_of(data@, j),
            k <= total,
            chunks@ == all.subrange(k as int, total as int),
            handed.len() == k,
            outcomes.len() == k,
            forall|j: int| 0 <= j < k ==> #[trigger] handed[j] == chunk_of(data@, j),
            forall|j: int| 0 <= j < k ==> #[trigger] outcomes[j] != SendOutcome::Disconnected,
            sent == count_outcome(outcomes, SendOutcome::Sent),
            dropped == count_outcome(outcomes, SendOutcome::Full),
            sent + dropped == k,
        decreases total - k,
    {
        let chunk = chunks.remove(0);
        assert(chunk@ == chunk_of(data@, k as int));
        proof {
            handed = handed.push(chunk@);
        }
        let outcome = try_send_chunk(sender, chunk);
        proof {
            assert(outcomes.push(outcome).drop_last() == outcomes);
            outcomes = outcomes.push(outcome);
        }
        match outcome {
            SendOutcome::Sent => {
                sent = sent + 1;
            },
            SendOutcome::Full => {
                dropped = dropped + 1;
            },
            SendOutcome::Disconnected => {
                return (
                    Delivery { chunks_sent: sent, chunks_dropped: dropped, stop_recording: true },
                    Ghost(handed),
                    Ghost(outcomes),
                );
            },
        }
        k = k + 1;
        assert(chunks@ =~= all.subrange(k as int, total as int));
    }
    (
        Delivery { chunks_sent: sent, chunks_dropped: dropped, stop_recording: false },
        Ghost(handed),
        Ghost(outcomes),
    )
}

/// Handles one hardware buffer of native unsigned samples: while recording, the
/// buffer is converted to canonical form and its chunks are delivered exactly as
/// `forward_buffer` delivers them; otherwise nothing is converted or sent.
pub fn forward_u16_buffer(recording: bool, data: &[u16], sender: &Sender<Vec<i16>>) -> (r: (
    Delivery,
    Ghost<Seq<Seq<i16>>>,
    Ghost<Seq<SendOutcome>>,
))
    ensures
        r.1@.len() == r.2@.len(),
        forall|k: int|
            0 <= k < r.1@.len() ==> #[trigger] r.1@[k] == chunk_of(canonical_u16_seq(data@), k),
        !recording ==> r.1@.len() == 0,
        !recording ==> r.0 == (Delivery { chunks_sent: 0, chunks_dropped: 0, stop_recording: false }),
        r.1@.len() <= chunk_count(data@.len() as int),
        forall|k: int| 0 <= k < r.2@.len() - 1 ==> #[trigger] r.2@[k] != SendOutcome::Disconnected,
        r.0.stop_recording == (r.2@.len() > 0 && r.2@.last() == SendOutcome::Disconnected),
        recording && !r.0.stop_recording ==> r.1@.len() == chunk_count(data@.len() as int),
        r.0.chunks_sent == count_outcome(r.2@, SendOutcome::Sent),
        r.0.chunks_dropped == count_outcome(r.2@, SendOutcome::Full),
{
    if !recording {
        return (
            Delivery { chunks_sent: 0, chunks_dropped: 0, stop_recording: false },
            Ghost(Seq::empty()),
            Ghost(Seq::empty()),
        );
    }
    let converted = canonicalize_u16(data);
    forward_buffer(true, converted.as_slice(), sender)
}

} // verus!
