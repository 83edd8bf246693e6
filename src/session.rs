//! One capture attempt: the negotiated format and the samples drained so far.
use crate::state::AudioConfig;
use vstd::prelude::*;

verus! {

/// The samples of one capture, in the order the chunks arrived, with the
/// format they were recorded in.
pub struct RecordingSession {
    pub config: AudioConfig,
    pub pcm: Vec<i16>,
}

impl RecordingSession {
    /// All samples received so far.
    pub open spec fn samples(&self) -> Seq<i16> {
        self.pcm@
    }

    /// A session with no samples yet.
    pub fn new(config: AudioConfig) -> (r: RecordingSession)
        ensures
            r.config == config,
            r.samples() == Seq::<i16>::empty(),
    {
        RecordingSession { config, pcm: Vec::new() }
    }

    /// Appends one drained chunk after the samples already held.
    pub fn append_chunk(&mut self, chunk: &[i16])
        ensures
            final(self).config == old(self).config,
            final(self).samples() == old(self).samples() + chunk@,
    {
        let mut i: usize = 0;
        while i < chunk.len()
            invariant
                i <= chunk@.len(),
                self.config == old(self).config,
                self.pcm@ == old(self).pcm@ + chunk@.subrange(0, i as int),
            decreases chunk@.len() - i,
        {
            self.pcm.push(chunk[i]);
            i = i + 1;
            assert(chunk@.subrange(0, i as int) =~= chunk@.subrange(0, i - 1).push(chunk@[i - 1]));
        }
        assert(chunk@.subrange(0, chunk@.len() as int) =~= chunk@);
    }

    /// The samples, interleaved by channel.
    pub fn pcm(&self) -> (r: &[i16])
        ensures
            r@ == self.samples(),
    {
        self.pcm.as_slice()
    }

    /// Number of samples held.
    pub fn len(&self) -> (r: usize)
        ensures
            r == self.samples().len(),
    {
        self.pcm.len()
    }

    /// Whether no sample has arrived.
    pub fn is_empty(&self) -> (r: bool)
        ensures
            r == (self.samples().len() == 0),
    {
        self.pcm.len() == 0
    }
}

} // verus!
