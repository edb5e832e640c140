//! The ordered queue of tracks awaiting playback in one guild.

use rand::seq::SliceRandom;
use vstd::prelude::*;
use vstd::seq_lib::{
    to_multiset_build, to_multiset_contains, to_multiset_insert, to_multiset_len,
    to_multiset_remove,
};

use crate::track::{queued_views, QueuedTrack, QueuedTrackModel};

verus! {

/// Why a queue operation was refused.
#[derive(Clone, Copy, Debug, PartialEq, Eq, Structural)]
pub enum QueueError {
    /// The index does not name an entry of the queue.
    IndexOutOfRange,
}

/// The first `n` entries of `s`, or all of them where it has fewer.
pub open spec fn first_entries<A>(s: Seq<A>, n: nat) -> Seq<A> {
    if n <= s.len() {
        s.take(n as int)
    } else {
        s
    }
}

/// Applying `f` to every element keeps a rearrangement a rearrangement: where
/// `a` and `b` hold the same elements equally often, so do their images.
proof fn lemma_images_of_rearrangement<A, B>(a: Seq<A>, b: Seq<A>, f: spec_fn(A) -> B)
    requires
        a.to_multiset() == b.to_multiset(),
    ensures
        a.map_values(f).to_multiset() == b.map_values(f).to_multiset(),
    decreases a.len(),
{
    to_multiset_len(a);
    to_multiset_len(b);
    if a.len() == 0 {
        assert(a.map_values(f) =~= b.map_values(f));
    } else {
        let x = a.last();
        to_multiset_contains(a, x);
        to_multiset_contains(b, x);
        let j = choose|j: int| 0 <= j < b.len() && b[j] == x;
        let a0 = a.drop_last();
        let b0 = b.remove(j);
        to_multiset_remove(a, a.len() - 1);
        to_multiset_remove(b, j);
        lemma_images_of_rearrangement(a0, b0, f);
        assert(a.map_values(f) =~= a0.map_values(f).push(f(x)));
        assert(b.map_values(f) =~= b0.map_values(f).insert(j, f(x)));
        to_multiset_build(a0.map_values(f), f(x));
        to_multiset_insert(b0.map_values(f), j, f(x));
    }
}

/// Rearranges `items` at random by `rand::seq::SliceRandom::shuffle`, drawing
/// from the thread's generator `rand::rng()`.
///
/// Which order comes out is left open. What is claimed of the call is that it
/// only moves entries: every entry is there afterwards as often as before.
#[verifier::external_body]
fn shuffle_entries(items: &mut Vec<QueuedTrack>)
    ensures
        final(items)@.to_multiset() == old(items)@.to_multiset(),
{
    items.shuffle(&mut rand::rng());
}

/// The tracks that wait to be played, in play order: the entry at index 0 is
/// the next one to start.
#[derive(Debug)]
pub struct QueueController {
    items: Vec<QueuedTrack>,
}

impl View for QueueController {
    type V = Seq<QueuedTrackModel>;

    closed spec fn view(&self) -> Seq<QueuedTrackModel> {
        queued_views(self.items@)
    }
}

impl QueueController {
    /// An empty queue.
    pub fn new() -> (q: QueueController)
        ensures
            q@ == Seq::<QueuedTrackModel>::empty(),
    {
        QueueController { items: Vec::new() }
    }

    /// The number of waiting tracks.
    pub fn len(&self) -> (n: usize)
        ensures
            n == self@.len(),
    {
        self.items.len()
    }

    /// Whether no track waits.
    pub fn is_empty(&self) -> (b: bool)
        ensures
            b == (self@.len() == 0),
    {
        self.items.len() == 0
    }

    /// Adds `tracks` to the tail, in the order given.
    pub fn append(&mut self, tracks: Vec<QueuedTrack>)
        ensures
            final(self)@ == old(self)@ + queued_views(tracks@),
    {
        let mut tracks = tracks;
        self.items.append(&mut tracks);
    }

    /// Removes and returns the entry at `index`, counted from 0.
    pub fn remove(&mut self, index: usize) -> (r: Result<QueuedTrack, QueueError>)
        ensures
            index < old(self)@.len() ==> r is Ok && r->Ok_0@ == old(self)@[index as int]
                && final(self)@ == old(self)@.remove(index as int),
            index >= old(self)@.len() ==> r == Err::<QueuedTrack, QueueError>(
                QueueError::IndexOutOfRange,
            ) && final(self)@ == old(self)@,
    {
        if index < self.items.len() {
            let removed = self.items.remove(index);
            Ok(removed)
        } else {
            Err(QueueError::IndexOutOfRange)
        }
    }

    /// Empties the queue.
    pub fn clear(&mut self)
        ensures
            final(self)@ == Seq::<QueuedTrackModel>::empty(),
    {
        self.items.clear();
    }

    /// Removes and returns the head of the queue.
    pub fn pop_front(&mut self) -> (r: Option<QueuedTrack>)
        ensures
            old(self)@.len() == 0 ==> r is None && final(self)@ == old(self)@,
            old(self)@.len() > 0 ==> r is Some && r->Some_0@ == old(self)@[0] && final(self)@
                == old(self)@.drop_first(),
    {
        if self.items.len() == 0 {
            None
        } else {
            let head = self.items.remove(0);
            Some(head)
        }
    }

    /// Puts `track` at the head of the queue, before everything that waits.
    pub fn push_to_front(&mut self, track: QueuedTrack)
        ensures
            final(self)@ == seq![track@] + old(self)@,
    {
        self.items.insert(0, track);
    }

    /// Rearranges the queue at random. Every track stays in the queue, as
    /// often as it was there; a queue of at most one track stays as it is.
    pub fn shuffle(&mut self)
        ensures
            final(self)@.to_multiset() == old(self)@.to_multiset(),
            final(self)@.len() == old(self)@.len(),
            old(self)@.len() <= 1 ==> final(self)@ == old(self)@,
    {
        if self.items.len() > 1 {
            let ghost before = self.items@;
            shuffle_entries(&mut self.items);
            proof {
                lemma_images_of_rearrangement(self.items@, before, |t: QueuedTrack| t@);
                to_multiset_len(self.items@);
                to_multiset_len(before);
            }
        }
    }

    /// A copy of the first `n` entries, or of all entries where the queue
    /// holds fewer. The queue is left as it is.
    pub fn peek(&self, n: usize) -> (snapshot: Vec<QueuedTrack>)
        ensures
            queued_views(snapshot@) == first_entries(self@, n as nat),
    {
        let count = if n <= self.items.len() {
            n
        } else {
            self.items.len()
        };
        let mut snapshot: Vec<QueuedTrack> = Vec::new();
        let mut i: usize = 0;
        while i < count
            invariant
                i <= count,
                count <= self.items.len(),
                snapshot@ == self.items@.take(i as int),
            decreases count - i,
        {
            snapshot.push(self.items[i].duplicate());
            i = i + 1;
        }
        snapshot
    }
}

} // verus!
