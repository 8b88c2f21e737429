//! The bounded audio hand-off between the plugin's synchronous audio
//! callback and the playback thread.
//!
//! The callback must never block, so the hand-off holds at most one batch
//! of interleaved 16-bit samples: a new batch is dropped, not queued, while
//! the previous one has not been drained.  The playback thread drains the
//! slot and lets the audio device's own backpressure pace it.

use vstd::prelude::*;

verus! {

/// The single-slot hand-off buffer.
pub struct AudioHandoff {
    slot: Option<Vec<i16>>,
}

impl AudioHandoff {
    pub closed spec fn spec_slot(self) -> Option<Seq<i16>> {
        match self.slot {
            Some(v) => Some(v@),
            None => None,
        }
    }

    /// An empty hand-off.
    pub fn new() -> (r: AudioHandoff)
        ensures
            r.spec_slot() is None,
    {
        AudioHandoff { slot: None }
    }

    /// Offers one sample batch from the audio callback.  It is stored only
    /// when the slot is free; otherwise the batch is dropped and the stored
    /// batch is untouched, favouring real-time continuity over
    /// completeness.
    pub fn offer(&mut self, batch: Vec<i16>) -> (accepted: bool)
        ensures
            accepted == (old(self).spec_slot() is None),
            accepted ==> final(self).spec_slot() == Some(batch@),
            !accepted ==> final(self).spec_slot() == old(self).spec_slot(),
    {
        match self.slot {
            None => {
                self.slot = Some(batch);
                true
            },
            Some(_) => false,
        }
    }

    /// Drains the slot for the playback thread.
    pub fn take(&mut self) -> (r: Option<Vec<i16>>)
        ensures
            final(self).spec_slot() is None,
            match (r, old(self).spec_slot()) {
                (Some(v), Some(s)) => v@ == s,
                (None, None) => true,
                _ => false,
            },
    {
        self.slot.take()
    }
}

} // verus!
