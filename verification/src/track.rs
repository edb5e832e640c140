//! Tracks as the audio engine describes them, and tracks as they wait in a
//! queue.

use vstd::prelude::*;

use crate::ids::UserId;

verus! {

/// What a [`Track`] is, as plain text.
pub struct TrackModel {
    pub encoded: Seq<char>,
    pub title: Seq<char>,
    pub author: Seq<char>,
    pub uri: Option<Seq<char>>,
}

/// What a [`QueuedTrack`] is: the track and the user who asked for it.
pub struct QueuedTrackModel {
    pub track: TrackModel,
    pub requester_id: u64,
}

/// A playable track: the handle that the engine assigned, and the metadata
/// that is shown to users.
#[derive(Clone, Debug, PartialEq, Eq)]
pub struct Track {
    /// The engine's opaque handle for the track.
    pub encoded: String,
    pub title: String,
    pub author: String,
    /// Where the track was loaded from; needed to load it again.
    pub uri: Option<String>,
}

/// A track waiting in a queue, stamped with the user who queued it.
#[derive(Clone, Debug, PartialEq, Eq)]
pub struct QueuedTrack {
    pub track: Track,
    pub requester_id: UserId,
}

/// What the audio engine answers when it is asked to load a query.
#[derive(Clone, Debug, PartialEq, Eq)]
pub enum TrackLoadResult {
    /// The query named one track.
    Track(Track),
    /// The query was a search; the matches come best first.
    Search(Vec<Track>),
    /// The query named a playlist.
    Playlist { name: String, tracks: Vec<Track> },
    /// Nothing matched.
    Empty,
    /// The engine could not load the query.
    Failed,
}

/// The view of an optional text.
pub open spec fn text_view(s: Option<String>) -> Option<Seq<char>> {
    match s {
        Some(t) => Some(t@),
        None => None,
    }
}

impl View for Track {
    type V = TrackModel;

    open spec fn view(&self) -> TrackModel {
        TrackModel {
            encoded: self.encoded@,
            title: self.title@,
            author: self.author@,
            uri: text_view(self.uri),
        }
    }
}

impl View for QueuedTrack {
    type V = QueuedTrackModel;

    open spec fn view(&self) -> QueuedTrackModel {
        QueuedTrackModel { track: self.track@, requester_id: self.requester_id.0 }
    }
}

/// The views of a sequence of tracks, in order.
pub open spec fn track_views(s: Seq<Track>) -> Seq<TrackModel> {
    s.map_values(|t: Track| t@)
}

/// The views of a sequence of queued tracks, in order.
pub open spec fn queued_views(s: Seq<QueuedTrack>) -> Seq<QueuedTrackModel> {
    s.map_values(|t: QueuedTrack| t@)
}

/// `tracks`, each stamped with `requester`.
pub open spec fn stamped(tracks: Seq<TrackModel>, requester: u64) -> Seq<QueuedTrackModel> {
    tracks.map_values(|t: TrackModel| QueuedTrackModel { track: t, requester_id: requester })
}

/// The tracks of `loaded` that `play` puts into the queue: the track itself,
/// the best match of a search, or every track of a playlist.
pub open spec fn tracks_to_enqueue(loaded: TrackLoadResult) -> Seq<TrackModel> {
    match loaded {
        TrackLoadResult::Track(t) => seq![t@],
        TrackLoadResult::Search(found) => if found@.len() > 0 {
            seq![found@[0]@]
        } else {
            Seq::empty()
        },
        TrackLoadResult::Playlist { name, tracks } => track_views(tracks@),
        TrackLoadResult::Empty => Seq::empty(),
        TrackLoadResult::Failed => Seq::empty(),
    }
}

/// The track of `loaded` that is played again after the track it was loaded
/// for has ended: the track itself, or the best match of a search. A
/// playlist is not played again.
pub open spec fn track_to_replay(loaded: TrackLoadResult) -> Option<TrackModel> {
    match loaded {
        TrackLoadResult::Track(t) => Some(t@),
        TrackLoadResult::Search(found) => if found@.len() > 0 {
            Some(found@[0]@)
        } else {
            None
        },
        _ => None,
    }
}

impl Track {
    /// A copy of the track.
    pub fn duplicate(&self) -> (r: Track)
        ensures
            r == *self,
    {
        let uri = match &self.uri {
            Some(u) => Some(u.clone()),
            None => None,
        };
        Track {
            encoded: self.encoded.clone(),
            title: self.title.clone(),
            author: self.author.clone(),
            uri,
        }
    }

    /// The track as it enters a queue on behalf of `requester`.
    pub fn queued_by(self, requester: UserId) -> (r: QueuedTrack)
        ensures
            r@ == (QueuedTrackModel { track: self@, requester_id: requester.0 }),
            r.track == self,
            r.requester_id == requester,
    {
        QueuedTrack { track: self, requester_id: requester }
    }
}

impl QueuedTrack {
    /// A copy of the queued track.
    pub fn duplicate(&self) -> (r: QueuedTrack)
        ensures
            r == *self,
    {
        QueuedTrack { track: self.track.duplicate(), requester_id: self.requester_id }
    }
}

} // verus!
