//! Per-guild media-plane state: the assigned SSRC, the negotiated mode
//! name, the AEAD cipher, and the packet counter used as the AEAD nonce.
//! The counter hands out 1, 2, 3, … — each value exactly once per
//! connection lifetime — and a ghost history records every value used.

use vstd::prelude::*;

use crate::crypto::CipherMode;

verus! {

/// The media-plane state of one voice connection. The socket that carries
/// the packets lives with the caller; everything the packet path computes
/// from is here.
pub struct VoiceConnection {
    /// SSRC assigned by the voice server.
    pub ssrc: u32,
    /// The mode string the server chose.
    pub mode: String,
    /// The negotiated AEAD cipher.
    pub cipher: CipherMode,
    /// The last counter value handed out; mutate it only through
    /// [`VoiceConnection::next_counter`] to keep the history faithful.
    pub counter: u32,
    /// Ghost record of every counter value handed out, in order of use.
    pub history: Ghost<Seq<u32>>,
}

impl VoiceConnection {
    /// The last counter value handed out (0 before the first packet).
    pub open spec fn counter_view(&self) -> u32 {
        self.counter
    }

    /// Every counter value handed out so far, in order of use.
    pub open spec fn history_view(&self) -> Seq<u32> {
        self.history@
    }

    /// Well-formed connection: a 32-byte key, and a history that is
    /// exactly 1, 2, …, counter.
    pub open spec fn wf(&self) -> bool {
        &&& self.cipher.wf()
        &&& self.history_view().len() == self.counter_view()
        &&& forall|i: int|
            0 <= i < self.history_view().len() ==> #[trigger] self.history_view()[i] == i + 1
    }

    /// Creates the state of a fresh connection: no counter value used yet.
    pub fn new(ssrc: u32, mode: String, cipher: CipherMode) -> (c: VoiceConnection)
        requires
            cipher.wf(),
        ensures
            c.wf(),
            c.ssrc == ssrc,
            c.mode@ == mode@,
            c.cipher == cipher,
            c.counter_view() == 0,
            c.history_view() == Seq::<u32>::empty(),
    {
        VoiceConnection { ssrc, mode, cipher, counter: 0, history: Ghost(Seq::empty()) }
    }

    /// Hands out the next counter value: 1 on the first call, then 2, 3, …
    /// The value is recorded in the history and never handed out again.
    pub fn next_counter(&mut self) -> (c: u32)
        requires
            old(self).wf(),
            old(self).counter_view() < u32::MAX,
        ensures
            final(self).wf(),
            c == old(self).counter_view() + 1,
            final(self).counter_view() == c,
            final(self).history_view() == old(self).history_view().push(c),
            final(self).ssrc == old(self).ssrc,
            final(self).mode == old(self).mode,
            final(self).cipher == old(self).cipher,
    {
        self.counter = self.counter + 1;
        let c = self.counter;
        proof {
            self.history@ = self.history@.push(c);
        }
        c
    }
}

/// The counter values used on the wire form the sequence 1, 2, 3, … with
/// no repeats: any well-formed history is strictly increasing, starts at
/// 1, and steps by exactly 1.
pub proof fn lemma_counter_history(h: Seq<u32>)
    requires
        forall|i: int| 0 <= i < h.len() ==> #[trigger] h[i] == i + 1,
    ensures
        forall|i: int, j: int| 0 <= i < j < h.len() ==> h[i] < h[j],
        h.len() > 0 ==> h[0] == 1,
        forall|i: int| 0 <= i < h.len() - 1 ==> #[trigger] h[i + 1] == h[i] + 1,
{
}

} // verus!
