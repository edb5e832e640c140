//! What the callbacks of the audio engine decide.
//!
//! The engine reports, for a guild, that a track has started or has ended,
//! and that its connection to the bot is ready. A callback for a guild
//! without a session comes too late and is dropped without a trace.

use vstd::prelude::*;

use crate::ids::{ChannelId, GuildId, UserId};
use crate::registry::{has_head, installed, with_session, SessionRegistry};
use crate::session::SessionModel;
use crate::track::{track_to_replay, QueuedTrack, QueuedTrackModel, TrackLoadResult, TrackModel};

verus! {

/// Why a track ended.
#[derive(Clone, Copy, Debug, PartialEq, Eq, Structural)]
pub enum TrackEndReason {
    /// The track played to its end.
    Finished,
    /// The track could not be loaded.
    LoadFailed,
    /// Playback was stopped.
    Stopped,
    /// Another track was started in its place.
    Replaced,
    /// The engine cleaned the player up.
    Cleanup,
}

/// What the end of a track leaves to do.
#[derive(Clone, Debug, PartialEq, Eq)]
pub enum TrackEndStep {
    /// The guild has no session: nothing to do.
    Dropped,
    /// The track is not played again.
    NoReplay,
    /// The track is played again, and stands at the head of the queue.
    Requeued,
    /// The track is played again, but has to be loaded anew: ask the engine
    /// to load `query`, and hand what it answers to [`replay_loaded`].
    Reload { query: String },
}

/// What handing over a track to play again came to.
#[derive(Clone, Copy, Debug, PartialEq, Eq, Structural)]
pub enum ReplayOutcome {
    /// The guild has no session any more: nothing was done.
    Dropped,
    /// The engine answered with nothing that can be played again.
    NothingToReplay,
    /// The track stands at the head of the queue.
    Queued,
}

/// Tells where to announce the track that has started in `guild`: the reply
/// channel of the guild's session.
pub fn track_start(registry: &SessionRegistry, guild: GuildId) -> (r: Option<ChannelId>)
    ensures
        installed(registry@, guild.0) ==> r == Some(ChannelId(registry@[guild.0].reply_channel)),
        !installed(registry@, guild.0) ==> r is None,
{
    match registry.get(guild) {
        Some(session) => Some(session.reply_channel()),
        None => None,
    }
}

/// Whether the end of a track in `guild` for `reason` makes the track play
/// again: the guild has a session with repeat on, and the track played to
/// its end.
pub open spec fn replay_wanted(
    m: Map<u64, SessionModel>,
    guild: u64,
    reason: TrackEndReason,
) -> bool {
    installed(m, guild) && m[guild].repeat_enabled && reason == TrackEndReason::Finished
}

/// Whether `track` still carries the handle that the engine gave it.
pub open spec fn has_handle(track: TrackModel) -> bool {
    track.encoded.len() > 0
}

/// The table after the track `ended` has ended in `guild` for `reason`:
/// where the track is played again and still carries its handle, it stands
/// at the head of the queue.
pub open spec fn after_track_end(
    m: Map<u64, SessionModel>,
    guild: u64,
    ended: QueuedTrackModel,
    reason: TrackEndReason,
) -> Map<u64, SessionModel> {
    if replay_wanted(m, guild, reason) && has_handle(ended.track) {
        with_session(m, guild, SessionModel { queue: seq![ended] + m[guild].queue, ..m[guild] })
    } else {
        m
    }
}

/// Applies the repeat setting to the track `ended`, which has ended in
/// `guild` for `reason`.
///
/// The track is played again where [`replay_wanted`] holds. A track that
/// still carries the engine's handle is then put at the head of the queue as
/// it is, so that it is the next to play. One without a handle is loaded
/// anew from its address: the caller is told the query, and the queue
/// changes once the engine has answered ([`replay_loaded`]). One with
/// neither is not played again. For every other reason, and with repeat
/// off, nothing changes.
pub fn track_end(
    registry: &mut SessionRegistry,
    guild: GuildId,
    ended: &QueuedTrack,
    reason: TrackEndReason,
) -> (r: TrackEndStep)
    ensures
        final(registry)@ == after_track_end(old(registry)@, guild.0, ended@, reason),
        !installed(old(registry)@, guild.0) ==> r == TrackEndStep::Dropped,
        installed(old(registry)@, guild.0) && !replay_wanted(old(registry)@, guild.0, reason) ==> r
            == TrackEndStep::NoReplay,
        replay_wanted(old(registry)@, guild.0, reason) && has_handle(ended@.track) ==> r
            == TrackEndStep::Requeued,
        replay_wanted(old(registry)@, guild.0, reason) && !has_handle(ended@.track)
            && ended@.track.uri is Some ==> (r matches TrackEndStep::Reload { query } && query@
            == ended@.track.uri->Some_0),
        replay_wanted(old(registry)@, guild.0, reason) && !has_handle(ended@.track)
            && ended@.track.uri is None ==> r == TrackEndStep::NoReplay,
{
    let finished = match reason {
        TrackEndReason::Finished => true,
        _ => false,
    };
    let wanted = match registry.get(guild) {
        None => {
            return TrackEndStep::Dropped;
        },
        Some(session) => session.repeat_enabled() && finished,
    };
    if !wanted {
        return TrackEndStep::NoReplay;
    }
    if ended.track.encoded.as_str().is_empty() {
        match &ended.track.uri {
            Some(uri) => TrackEndStep::Reload { query: uri.clone() },
            None => TrackEndStep::NoReplay,
        }
    } else {
        match registry.remove(guild) {
            None => TrackEndStep::Dropped,
            Some(session) => {
                let mut session = session;
                session.queue_mut().push_to_front(ended.duplicate());
                registry.restore(session);
                TrackEndStep::Requeued
            },
        }
    }
}

/// The table after the engine answered `loaded` to the query of a track that
/// is played again.
pub open spec fn after_replay(
    m: Map<u64, SessionModel>,
    guild: u64,
    requester: u64,
    loaded: TrackLoadResult,
) -> Map<u64, SessionModel> {
    if installed(m, guild) && track_to_replay(loaded) is Some {
        with_session(
            m,
            guild,
            SessionModel {
                queue: seq![
                    QueuedTrackModel {
                        track: track_to_replay(loaded)->Some_0,
                        requester_id: requester,
                    },
                ] + m[guild].queue,
                ..m[guild]
            },
        )
    } else {
        m
    }
}

/// What [`replay_loaded`] answers.
pub open spec fn replay_outcome(
    m: Map<u64, SessionModel>,
    guild: u64,
    loaded: TrackLoadResult,
) -> ReplayOutcome {
    if !installed(m, guild) {
        ReplayOutcome::Dropped
    } else if track_to_replay(loaded) is Some {
        ReplayOutcome::Queued
    } else {
        ReplayOutcome::NothingToReplay
    }
}

/// Puts the track that the engine loaded for a replay at the head of the
/// queue of `guild`, so that it is the next to play, stamped with the
/// `requester` of the track that ended.
///
/// Of a search only the best match is taken. A playlist, or an answer
/// without a track, changes nothing.
pub fn replay_loaded(
    registry: &mut SessionRegistry,
    guild: GuildId,
    requester: UserId,
    loaded: TrackLoadResult,
) -> (r: ReplayOutcome)
    ensures
        r == replay_outcome(old(registry)@, guild.0, loaded),
        final(registry)@ == after_replay(old(registry)@, guild.0, requester.0, loaded),
{
    let candidate = match loaded {
        TrackLoadResult::Track(track) => Some(track),
        TrackLoadResult::Search(found) => {
            if found.len() > 0 {
                Some(found[0].duplicate())
            } else {
                None
            }
        },
        _ => None,
    };
    match candidate {
        None => {
            match registry.get(guild) {
                Some(_) => ReplayOutcome::NothingToReplay,
                None => ReplayOutcome::Dropped,
            }
        },
        Some(track) => {
            match registry.remove(guild) {
                None => ReplayOutcome::Dropped,
                Some(session) => {
                    let mut session = session;
                    session.queue_mut().push_to_front(track.queued_by(requester));
                    registry.restore(session);
                    ReplayOutcome::Queued
                },
            }
        },
    }
}

/// The table after the head of the queue of `guild` was taken.
pub open spec fn after_advance(m: Map<u64, SessionModel>, guild: u64) -> Map<u64, SessionModel> {
    if has_head(m, guild) {
        with_session(m, guild, SessionModel { queue: m[guild].queue.drop_first(), ..m[guild] })
    } else {
        m
    }
}

/// Takes the track at the head of the queue of `guild`: the one that plays
/// next.
pub fn advance(registry: &mut SessionRegistry, guild: GuildId) -> (r: Option<QueuedTrack>)
    ensures
        final(registry)@ == after_advance(old(registry)@, guild.0),
        has_head(old(registry)@, guild.0) ==> r is Some && r->Some_0@ == old(
            registry,
        )@[guild.0].queue[0],
        !has_head(old(registry)@, guild.0) ==> r is None,
{
    match registry.remove(guild) {
        None => None,
        Some(session) => {
            let mut session = session;
            let head = session.queue_mut().pop_front();
            registry.restore(session);
            head
        },
    }
}

/// The engine's connection is ready anew: what the table held belonged to
/// the connection before, and is dropped.
pub fn ready_event(registry: &mut SessionRegistry)
    ensures
        final(registry)@ == Map::<u64, SessionModel>::empty(),
{
    registry.clear();
}

} // verus!
