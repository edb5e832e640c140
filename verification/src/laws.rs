//! What holds of the table of sessions whatever commands and callbacks
//! arrive, and in whatever order.

use vstd::prelude::*;

use crate::commands::{
    after_clear, after_enqueue, after_join, after_play, after_remove, after_repeat, join_result,
    CommandError, JoinStep,
};
use crate::events::{
    after_advance, after_replay, after_track_end, has_handle, replay_wanted, TrackEndReason,
};
use crate::ids::ChannelId;
use crate::registry::{
    after_begin_connect, after_complete_connect, after_create, begin_connect_step, installed,
    state_of, well_formed, ConnectError, ConnectStep,
};
use crate::session::{fresh_session, ConnectionState, SessionModel};
use crate::track::{track_to_replay, QueuedTrackModel, TrackLoadResult};

verus! {

/// A guild has at most one session: of all that the table holds, only what
/// is filed under a guild belongs to that guild, and what callers see of it
/// is connected.
pub proof fn law_one_session_per_guild(m: Map<u64, SessionModel>, guild: u64)
    requires
        well_formed(m),
    ensures
        forall|key: u64| #[trigger]
            m.contains_key(key) && m[key].guild_id == guild ==> key == guild,
        installed(m, guild) ==> m[guild].guild_id == guild && m[guild].connection_state
            == ConnectionState::Connected,
{
}

/// Whether `after` differs from `before` in the entry of `guild` at most:
/// every other guild has in `after` what it had in `before`.
pub open spec fn same_elsewhere(
    before: Map<u64, SessionModel>,
    after: Map<u64, SessionModel>,
    guild: u64,
) -> bool {
    forall|other: u64|
        other != guild ==> (#[trigger] after.contains_key(other) == before.contains_key(other))
            && (before.contains_key(other) ==> after[other] == before[other])
}

/// Connecting a guild keeps the table well formed and touches no other
/// guild.
pub proof fn law_connect_keeps_table(
    m: Map<u64, SessionModel>,
    guild: u64,
    reply_channel: u64,
    outcome: Result<(), ConnectError>,
)
    requires
        well_formed(m),
    ensures
        well_formed(after_begin_connect(m, guild, reply_channel)),
        well_formed(after_complete_connect(m, guild, outcome)),
        well_formed(after_create(m, guild, reply_channel, outcome)),
        same_elsewhere(m, after_begin_connect(m, guild, reply_channel), guild),
        same_elsewhere(m, after_complete_connect(m, guild, outcome), guild),
        same_elsewhere(m, after_create(m, guild, reply_channel, outcome), guild),
{
}

/// A command for one guild keeps the table well formed, and leaves every
/// other guild with the session it had.
pub proof fn law_commands_keep_to_their_guild(
    m: Map<u64, SessionModel>,
    guild: u64,
    channel: u64,
    term: Option<&str>,
    requester: u64,
    loaded: TrackLoadResult,
    index: usize,
)
    requires
        well_formed(m),
    ensures
        well_formed(after_play(m, guild, channel, term)),
        well_formed(after_enqueue(m, guild, requester, loaded)),
        well_formed(after_remove(m, guild, index)),
        well_formed(after_clear(m, guild)),
        well_formed(after_repeat(m, guild)),
        well_formed(m.remove(guild)),
        same_elsewhere(m, after_play(m, guild, channel, term), guild),
        same_elsewhere(m, after_enqueue(m, guild, requester, loaded), guild),
        same_elsewhere(m, after_remove(m, guild, index), guild),
        same_elsewhere(m, after_clear(m, guild), guild),
        same_elsewhere(m, after_repeat(m, guild), guild),
        same_elsewhere(m, m.remove(guild), guild),
{
}

/// A callback of the engine for one guild keeps the table well formed, and
/// leaves every other guild with the session it had.
pub proof fn law_callbacks_keep_to_their_guild(
    m: Map<u64, SessionModel>,
    guild: u64,
    ended: QueuedTrackModel,
    reason: TrackEndReason,
    requester: u64,
    loaded: TrackLoadResult,
)
    requires
        well_formed(m),
    ensures
        well_formed(after_track_end(m, guild, ended, reason)),
        well_formed(after_replay(m, guild, requester, loaded)),
        well_formed(after_advance(m, guild)),
        same_elsewhere(m, after_track_end(m, guild, ended, reason), guild),
        same_elsewhere(m, after_replay(m, guild, requester, loaded), guild),
        same_elsewhere(m, after_advance(m, guild), guild),
{
}

/// Two callers that ask for the session of a guild which has none start one
/// connect between them.
///
/// The first is told to connect. The second, asking while the first has not
/// come back, is told to wait, and the table is not changed by its asking.
/// Once the first has reported success, the second is told that the session
/// exists, and what it finds is the session of the first.
pub proof fn law_one_connect_per_guild(
    m: Map<u64, SessionModel>,
    guild: u64,
    first_channel: u64,
    second_channel: u64,
)
    requires
        well_formed(m),
        !m.contains_key(guild),
    ensures
        begin_connect_step(m, guild) == ConnectStep::Connect,
        ({
            let asked = after_begin_connect(m, guild, first_channel);
            let connected = after_complete_connect(asked, guild, Ok(()));
            &&& begin_connect_step(asked, guild) == ConnectStep::InProgress
            &&& after_begin_connect(asked, guild, second_channel) == asked
            &&& !installed(asked, guild)
            &&& begin_connect_step(connected, guild) == ConnectStep::Existing
            &&& after_begin_connect(connected, guild, second_channel) == connected
            &&& connected == m.insert(
                guild,
                fresh_session(guild, first_channel, ConnectionState::Connected),
            )
        }),
{
}

/// However many callers ask for the session of a guild, a connect is started
/// only for one that finds the guild disconnected; and once a caller has
/// asked, the guild is not disconnected, so that whoever asks next starts
/// none and leaves the table as it is.
pub proof fn law_only_a_disconnected_guild_connects(
    m: Map<u64, SessionModel>,
    guild: u64,
    reply_channel: u64,
)
    requires
        well_formed(m),
    ensures
        begin_connect_step(m, guild) == ConnectStep::Connect <==> state_of(m, guild)
            == ConnectionState::Disconnected,
        state_of(m, guild) != ConnectionState::Disconnected ==> after_begin_connect(
            m,
            guild,
            reply_channel,
        ) == m,
        state_of(after_begin_connect(m, guild, reply_channel), guild)
            != ConnectionState::Disconnected,
{
}

/// A connect that fails leaves nothing behind: the table is what it was
/// before the guild was asked for, and the guild can be connected anew.
pub proof fn law_failed_connect_leaves_nothing(
    m: Map<u64, SessionModel>,
    guild: u64,
    reply_channel: u64,
    failure: ConnectError,
)
    requires
        well_formed(m),
        !m.contains_key(guild),
    ensures
        after_complete_connect(
            after_begin_connect(m, guild, reply_channel),
            guild,
            Err(failure),
        ) == m,
{
}

/// The same, said of `join`: of two `join`s in a guild without a session,
/// the first is told to connect and the second to wait.
pub proof fn law_second_join_waits(
    m: Map<u64, SessionModel>,
    guild: u64,
    reply_channel: u64,
    channel: ChannelId,
)
    requires
        well_formed(m),
        !m.contains_key(guild),
    ensures
        join_result(m, guild, Some(channel), None) == Ok::<JoinStep, CommandError>(
            JoinStep::Connect { channel },
        ),
        join_result(
            after_join(m, guild, reply_channel, Some(channel), None),
            guild,
            Some(channel),
            None,
        ) == Ok::<JoinStep, CommandError>(JoinStep::InProgress),
{
}

/// A track that ends is put back only where repeat is on and the track
/// played to its end; where it is put back, it stands at the head of the
/// queue, before everything that waited.
pub proof fn law_replay_only_after_natural_end(
    m: Map<u64, SessionModel>,
    guild: u64,
    ended: QueuedTrackModel,
    reason: TrackEndReason,
)
    requires
        well_formed(m),
        installed(m, guild),
    ensures
        !m[guild].repeat_enabled || reason != TrackEndReason::Finished ==> after_track_end(
            m,
            guild,
            ended,
            reason,
        ) == m,
        replay_wanted(m, guild, reason) && has_handle(ended.track) ==> after_track_end(
            m,
            guild,
            ended,
            reason,
        )[guild].queue.first() == ended && after_track_end(
            m,
            guild,
            ended,
            reason,
        )[guild].queue.drop_first() == m[guild].queue,
{
}

/// A track that was loaded to be played again stands at the head of the
/// queue, before everything that waited.
pub proof fn law_replayed_track_is_next(
    m: Map<u64, SessionModel>,
    guild: u64,
    requester: u64,
    loaded: TrackLoadResult,
)
    requires
        well_formed(m),
        installed(m, guild),
        track_to_replay(loaded) is Some,
    ensures
        after_replay(m, guild, requester, loaded)[guild].queue.first().track == track_to_replay(
            loaded,
        )->Some_0,
        after_replay(m, guild, requester, loaded)[guild].queue.drop_first() == m[guild].queue,
        after_advance(after_replay(m, guild, requester, loaded), guild) == m,
{
    assert(after_replay(m, guild, requester, loaded)[guild].queue.drop_first()
        =~= m[guild].queue);
}

/// Removing the head of the queue and putting a track back for a replay are
/// applied one after the other, in one order or the other, and either order
/// leaves as many tracks queued as the other, but for an empty queue: the
/// replay first and then the removal gives the queue as it was; the removal
/// first and then the replay gives the queue with the replayed track in the
/// place of its head.
pub proof fn law_remove_and_replay_in_either_order(
    m: Map<u64, SessionModel>,
    guild: u64,
    requester: u64,
    loaded: TrackLoadResult,
)
    requires
        well_formed(m),
        installed(m, guild),
        track_to_replay(loaded) is Some,
    ensures
        ({
            let replayed = QueuedTrackModel {
                track: track_to_replay(loaded)->Some_0,
                requester_id: requester,
            };
            let removed_first = after_replay(after_remove(m, guild, 0), guild, requester, loaded);
            let replayed_first = after_remove(after_replay(m, guild, requester, loaded), guild, 0);
            &&& replayed_first == m
            &&& m[guild].queue.len() > 0 ==> removed_first[guild].queue == m[guild].queue.update(
                0,
                replayed,
            )
            &&& m[guild].queue.len() == 0 ==> removed_first[guild].queue == seq![replayed]
            &&& removed_first[guild].queue.len() >= m[guild].queue.len()
            &&& removed_first[guild].queue.len() <= replayed_first[guild].queue.len() + 1
        }),
{
    let replayed = QueuedTrackModel {
        track: track_to_replay(loaded)->Some_0,
        requester_id: requester,
    };
    assert((seq![replayed] + m[guild].queue).remove(0) =~= m[guild].queue);
}

/// The same holds where the track that ended still carries its handle and
/// is put back as it is: of the removal of the head and the putting back,
/// one is applied after the other, and the two orders differ by no more than
/// which track stands at the head.
pub proof fn law_remove_and_requeue_in_either_order(
    m: Map<u64, SessionModel>,
    guild: u64,
    ended: QueuedTrackModel,
)
    requires
        well_formed(m),
        replay_wanted(m, guild, TrackEndReason::Finished),
        has_handle(ended.track),
    ensures
        ({
            let finished = TrackEndReason::Finished;
            let removed_first = after_track_end(after_remove(m, guild, 0), guild, ended, finished);
            let requeued_first = after_remove(after_track_end(m, guild, ended, finished), guild, 0);
            &&& requeued_first == m
            &&& m[guild].queue.len() > 0 ==> removed_first[guild].queue == m[guild].queue.update(
                0,
                ended,
            )
            &&& m[guild].queue.len() == 0 ==> removed_first[guild].queue == seq![ended]
            &&& removed_first[guild].queue.len() >= m[guild].queue.len()
            &&& removed_first[guild].queue.len() <= requeued_first[guild].queue.len() + 1
        }),
{
    assert((seq![ended] + m[guild].queue).remove(0) =~= m[guild].queue);
}

} // verus!
