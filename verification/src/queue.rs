//! Tracks and the playback queue: a FIFO of pending tracks plus a single
//! "current track" slot. Callers that need concurrent access wrap the
//! queue in their own lock; every operation here is a plain state change
//! with an exact contract.

use std::collections::VecDeque;
use vstd::prelude::*;

verus! {

/// One media item: a stable id, a display title, and optional duration,
/// thumbnail and direct media URL. The duration is carried in whole
/// milliseconds. A track without a media URL cannot be played.
pub struct Track {
    pub id: String,
    pub title: String,
    pub duration_ms: Option<u64>,
    pub thumbnail: Option<String>,
    pub url: Option<String>,
}

/// The mathematical model of a [`Track`]: each text field as a sequence
/// of characters.
pub struct TrackView {
    pub id: Seq<char>,
    pub title: Seq<char>,
    pub duration_ms: Option<u64>,
    pub thumbnail: Option<Seq<char>>,
    pub url: Option<Seq<char>>,
}

/// The view of an optional string.
pub open spec fn opt_str_view(s: Option<String>) -> Option<Seq<char>> {
    match s {
        Option::None => Option::None,
        Option::Some(v) => Option::Some(v@),
    }
}

impl View for Track {
    type V = TrackView;

    open spec fn view(&self) -> TrackView {
        TrackView {
            id: self.id@,
            title: self.title@,
            duration_ms: self.duration_ms,
            thumbnail: opt_str_view(self.thumbnail),
            url: opt_str_view(self.url),
        }
    }
}

impl Clone for Track {
    fn clone(&self) -> (r: Track)
        ensures
            r@ == self@,
    {
        Track {
            id: self.id.clone(),
            title: self.title.clone(),
            duration_ms: self.duration_ms,
            thumbnail: match &self.thumbnail {
                Option::None => Option::None,
                Option::Some(s) => Option::Some(s.clone()),
            },
            url: match &self.url {
                Option::None => Option::None,
                Option::Some(s) => Option::Some(s.clone()),
            },
        }
    }
}

/// The views of a sequence of tracks.
pub open spec fn track_views(s: Seq<Track>) -> Seq<TrackView> {
    s.map_values(|t: Track| t@)
}

/// The view of an optional track.
pub open spec fn opt_track_view(t: Option<Track>) -> Option<TrackView> {
    match t {
        Option::None => Option::None,
        Option::Some(v) => Option::Some(v@),
    }
}

/// A FIFO of pending tracks plus the optional current track. Pending
/// tracks leave in the order they entered; the current slot holds at
/// most one track at a time.
pub struct TrackQueue {
    pending: VecDeque<Track>,
    current: Option<Track>,
}

impl TrackQueue {
    /// The model of the pending FIFO, front first.
    pub closed spec fn pending_view(&self) -> Seq<TrackView> {
        track_views(self.pending@)
    }

    /// The model of the current-track slot.
    pub closed spec fn current_view(&self) -> Option<TrackView> {
        opt_track_view(self.current)
    }

    /// Creates an empty queue with an empty current slot.
    pub fn new() -> (q: TrackQueue)
        ensures
            q.pending_view() == Seq::<TrackView>::empty(),
            q.current_view() is None,
    {
        let q = TrackQueue { pending: VecDeque::new(), current: Option::None };
        assert(q.pending_view() =~= Seq::<TrackView>::empty());
        q
    }

    /// Appends a track at the back of the pending FIFO.
    pub fn push(&mut self, track: Track)
        ensures
            final(self).pending_view() == old(self).pending_view().push(track@),
            final(self).current_view() == old(self).current_view(),
    {
        let ghost t = track@;
        self.pending.push_back(track);
        assert(final(self).pending_view() =~= old(self).pending_view().push(t));
    }

    /// Removes and returns the front of the pending FIFO, or `None` when
    /// the FIFO is empty.
    pub fn pop(&mut self) -> (r: Option<Track>)
        ensures
            final(self).current_view() == old(self).current_view(),
            old(self).pending_view().len() == 0 ==> r is None && final(self).pending_view()
                == old(self).pending_view(),
            old(self).pending_view().len() > 0 ==> (r matches Some(t) && t@ == old(
                self,
            ).pending_view().first()) && final(self).pending_view() == old(
                self,
            ).pending_view().drop_first(),
    {
        let r = self.pending.pop_front();
        proof {
            if old(self).pending_view().len() == 0 {
                assert(final(self).pending_view() =~= old(self).pending_view());
            } else {
                assert(final(self).pending_view() =~= old(self).pending_view().drop_first());
            }
        }
        r
    }

    /// True exactly when no track is pending.
    pub fn is_empty(&self) -> (r: bool)
        ensures
            r == (self.pending_view().len() == 0),
    {
        self.pending.len() == 0
    }

    /// The number of pending tracks.
    pub fn len(&self) -> (n: usize)
        ensures
            n == self.pending_view().len(),
    {
        self.pending.len()
    }

    /// A point-in-time snapshot of the pending FIFO, front first.
    pub fn iter(&self) -> (r: Vec<Track>)
        ensures
            track_views(r@) == self.pending_view(),
    {
        let mut r: Vec<Track> = Vec::new();
        let mut i: usize = 0;
        while i < self.pending.len()
            invariant
                i <= self.pending@.len(),
                r@.len() == i,
                forall|j: int| 0 <= j < i ==> r@[j]@ == self.pending@[j]@,
            decreases self.pending@.len() - i,
        {
            r.push(self.pending[i].clone());
            i = i + 1;
        }
        assert(track_views(r@) =~= self.pending_view());
        r
    }

    /// Puts a track into the current slot, replacing whatever was there.
    pub fn set_current_track(&mut self, track: Track)
        ensures
            final(self).current_view() == Option::Some(track@),
            final(self).pending_view() == old(self).pending_view(),
    {
        self.current = Option::Some(track);
    }

    /// The current track, if any.
    pub fn get_current_track(&self) -> (r: Option<Track>)
        ensures
            opt_track_view(r) == self.current_view(),
    {
        match &self.current {
            Option::None => Option::None,
            Option::Some(t) => Option::Some(t.clone()),
        }
    }

    /// Empties the current slot.
    pub fn clear_current_track(&mut self)
        ensures
            final(self).current_view() is None,
            final(self).pending_view() == old(self).pending_view(),
    {
        self.current = Option::None;
    }
}

/// FIFO order and slot disjointness at a dequeue: when the pending tracks
/// are pairwise distinct, moving the front into the current slot leaves a
/// current track that no longer occurs among the remaining pending ones,
/// and the remaining ones keep their relative order.
pub proof fn lemma_dequeue_disjoint(pending: Seq<TrackView>)
    requires
        pending.len() > 0,
        forall|i: int, j: int|
            0 <= i < j < pending.len() ==> pending[i] != pending[j],
    ensures
        !pending.drop_first().contains(pending.first()),
        forall|i: int| 0 <= i < pending.len() - 1 ==> pending.drop_first()[i] == pending[i + 1],
{
    if pending.drop_first().contains(pending.first()) {
        let k = choose|k: int|
            0 <= k < pending.drop_first().len() && pending.drop_first()[k] == pending.first();
        assert(pending[k + 1] == pending[0]);
    }
}

} // verus!
