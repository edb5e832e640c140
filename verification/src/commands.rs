//! What each command of the bot decides.
//!
//! A handler takes the table of sessions, the guild in which the command was
//! issued, the command's arguments and what had to be asked of the audio
//! engine beforehand. It changes the session as the command demands and
//! returns what is left to do outside: what to ask of the engine or of the
//! voice transport, or why the command was refused. A refused command leaves
//! every session as it was.

use vstd::prelude::*;

use crate::ids::{ChannelId, GuildId, UserId};
use crate::queue::{first_entries, QueueError};
use crate::registry::{
    after_begin_connect, after_complete_connect, has_head, installed, state_of, with_session,
    ConnectError, SessionRegistry,
};
use crate::search::{play_query, resolve_query, SearchProvider};
use crate::session::{ConnectionState, SessionModel};
use crate::track::{
    queued_views, stamped, track_views, tracks_to_enqueue, QueuedTrack, Track, TrackLoadResult,
};

verus! {

/// Why a command was refused.
#[derive(Clone, Copy, Debug, PartialEq, Eq, Structural)]
pub enum CommandError {
    /// `join` named no voice channel, and its author is in none.
    NotInVoiceChannel,
    /// The guild has no session.
    NotConnected,
    /// The guild has no queue, because it has no session.
    NoSession,
    /// Nothing is being played.
    NothingPlaying,
    /// `play` came without a query, and no track waits.
    QueueEmpty,
    /// The index names no entry of the queue.
    IndexOutOfRange,
    /// The guild could not be connected.
    Connect(ConnectError),
}

/// What `join` leaves to do.
#[derive(Clone, Copy, Debug, PartialEq, Eq, Structural)]
pub enum JoinStep {
    /// The guild has a session: nothing to do.
    AlreadyConnected,
    /// Connect the voice transport to `channel`, create the engine's side of
    /// the session, and report the outcome with [`complete_join`].
    Connect { channel: ChannelId },
    /// Another `join` is connecting the guild: wait for it, then ask again.
    InProgress,
}

/// What `leave` leaves to do.
#[derive(Clone, Copy, Debug, PartialEq, Eq, Structural)]
pub enum LeaveStep {
    /// The session is gone from the table: destroy the engine's side of it
    /// and disconnect the voice transport.
    Teardown,
    /// The guild had no session: nothing to do.
    NotConnected,
}

/// What `play` leaves to do.
#[derive(Clone, Debug, PartialEq, Eq)]
pub enum PlayStep {
    /// Ask the engine to load `query`, and hand what it answers to
    /// [`enqueue_loaded`].
    Load { query: String },
    /// Ask the engine to skip to the track at the head of the queue.
    SkipCurrent,
}

/// The voice channel that `join` connects to: the one that the command
/// names, else the one its author is in.
pub open spec fn join_target(
    requested: Option<ChannelId>,
    author_channel: Option<ChannelId>,
) -> Option<ChannelId> {
    match requested {
        Some(channel) => Some(channel),
        None => author_channel,
    }
}

/// What `join` answers.
pub open spec fn join_result(
    m: Map<u64, SessionModel>,
    guild: u64,
    requested: Option<ChannelId>,
    author_channel: Option<ChannelId>,
) -> Result<JoinStep, CommandError> {
    match state_of(m, guild) {
        ConnectionState::Connected => Ok(JoinStep::AlreadyConnected),
        ConnectionState::Connecting => Ok(JoinStep::InProgress),
        ConnectionState::Disconnected => match join_target(requested, author_channel) {
            Some(channel) => Ok(JoinStep::Connect { channel }),
            None => Err(CommandError::NotInVoiceChannel),
        },
    }
}

/// The table after `join`.
pub open spec fn after_join(
    m: Map<u64, SessionModel>,
    guild: u64,
    reply_channel: u64,
    requested: Option<ChannelId>,
    author_channel: Option<ChannelId>,
) -> Map<u64, SessionModel> {
    if join_target(requested, author_channel) is Some {
        after_begin_connect(m, guild, reply_channel)
    } else {
        m
    }
}

/// Connects the bot to a voice channel of `guild`.
///
/// A guild that has a session, or a connect under way, is left as it is.
/// Otherwise the channel to connect to is the one that the command names,
/// else the one its author is in; with neither the command is refused. With
/// a channel the guild is marked as connecting, with `reply_channel` as the
/// place for later messages, and the caller is told to connect.
pub fn join(
    registry: &mut SessionRegistry,
    guild: GuildId,
    reply_channel: ChannelId,
    requested: Option<ChannelId>,
    author_channel: Option<ChannelId>,
) -> (r: Result<JoinStep, CommandError>)
    ensures
        r == join_result(old(registry)@, guild.0, requested, author_channel),
        final(registry)@ == after_join(
            old(registry)@,
            guild.0,
            reply_channel.0,
            requested,
            author_channel,
        ),
{
    match registry.connection_state(guild) {
        ConnectionState::Connected => Ok(JoinStep::AlreadyConnected),
        ConnectionState::Connecting => Ok(JoinStep::InProgress),
        ConnectionState::Disconnected => {
            let target = match requested {
                Some(channel) => Some(channel),
                None => author_channel,
            };
            match target {
                Some(channel) => {
                    let _ = registry.begin_connect(guild, reply_channel);
                    Ok(JoinStep::Connect { channel })
                },
                None => Err(CommandError::NotInVoiceChannel),
            }
        },
    }
}

/// What `complete_join` answers: whether a session was created.
pub open spec fn complete_join_result(
    m: Map<u64, SessionModel>,
    guild: u64,
    outcome: Result<(), ConnectError>,
) -> Result<bool, CommandError> {
    if state_of(m, guild) == ConnectionState::Connecting {
        match outcome {
            Ok(_) => Ok(true),
            Err(e) => Err(CommandError::Connect(e)),
        }
    } else {
        Err(CommandError::Connect(ConnectError::NotPending))
    }
}

/// Reports how the connect that [`join`] asked for went.
///
/// On success the session of the guild is installed and the result is
/// `Ok(true)`. On failure nothing of the attempt is left in the table, and
/// the failure is handed back.
pub fn complete_join(
    registry: &mut SessionRegistry,
    guild: GuildId,
    outcome: Result<(), ConnectError>,
) -> (r: Result<bool, CommandError>)
    ensures
        r == complete_join_result(old(registry)@, guild.0, outcome),
        final(registry)@ == after_complete_connect(old(registry)@, guild.0, outcome),
{
    match registry.complete_connect(guild, outcome) {
        Ok(_) => Ok(true),
        Err(e) => Err(CommandError::Connect(e)),
    }
}

/// Disconnects the bot from `guild`: the session leaves the table, and the
/// caller is told to tear down what belongs to it outside. Without a session
/// nothing happens.
pub fn leave(registry: &mut SessionRegistry, guild: GuildId) -> (r: LeaveStep)
    ensures
        installed(old(registry)@, guild.0) ==> r == LeaveStep::Teardown && final(registry)@ == old(
            registry,
        )@.remove(guild.0),
        !installed(old(registry)@, guild.0) ==> r == LeaveStep::NotConnected && final(registry)@
            == old(registry)@,
{
    match registry.remove(guild) {
        Some(_) => LeaveStep::Teardown,
        None => LeaveStep::NotConnected,
    }
}

/// Whether `play` came with something to load.
pub open spec fn has_query(term: Option<&str>) -> bool {
    term is Some && term->Some_0@.len() > 0
}

/// The table after `play`: where the command is not refused, later messages
/// about playback go to the channel in which it was issued.
pub open spec fn after_play(
    m: Map<u64, SessionModel>,
    guild: u64,
    reply_channel: u64,
    term: Option<&str>,
) -> Map<u64, SessionModel> {
    if installed(m, guild) && (has_query(term) || has_head(m, guild)) {
        with_session(m, guild, SessionModel { reply_channel, ..m[guild] })
    } else {
        m
    }
}

/// Plays what `term` names, or moves on to the next track.
///
/// With a term the caller is told which query to load: the term itself where
/// it is an address, else a search with `provider`. Without a term, or with
/// an empty one, the caller is told to skip to the head of the queue; where
/// no track waits the command is refused.
pub fn play(
    registry: &mut SessionRegistry,
    guild: GuildId,
    reply_channel: ChannelId,
    term: Option<&str>,
    provider: SearchProvider,
) -> (r: Result<PlayStep, CommandError>)
    ensures
        final(registry)@ == after_play(old(registry)@, guild.0, reply_channel.0, term),
        !installed(old(registry)@, guild.0) ==> r == Err::<PlayStep, CommandError>(
            CommandError::NotConnected,
        ),
        installed(old(registry)@, guild.0) && has_query(term) ==> (r matches Ok(
            PlayStep::Load { query },
        ) && query@ == play_query(term->Some_0@, provider)),
        !has_query(term) && has_head(old(registry)@, guild.0) ==> r == Ok::<
            PlayStep,
            CommandError,
        >(PlayStep::SkipCurrent),
        installed(old(registry)@, guild.0) && !has_query(term) && !has_head(
            old(registry)@,
            guild.0,
        ) ==> r == Err::<PlayStep, CommandError>(CommandError::QueueEmpty),
{
    let step = match registry.get(guild) {
        None => {
            return Err(CommandError::NotConnected);
        },
        Some(session) => {
            let query = match term {
                Some(text) => if text.is_empty() {
                    None
                } else {
                    Some(resolve_query(text, provider))
                },
                None => None,
            };
            match query {
                Some(query) => PlayStep::Load { query },
                None => {
                    if session.queue().is_empty() {
                        return Err(CommandError::QueueEmpty);
                    }
                    PlayStep::SkipCurrent
                },
            }
        },
    };
    match registry.remove(guild) {
        Some(session) => {
            let mut session = session;
            session.set_reply_channel(reply_channel);
            registry.restore(session);
        },
        None => {},
    }
    Ok(step)
}

/// Stamps each of `tracks` with `requester`, in order.
fn stamp_all(tracks: &Vec<Track>, requester: UserId) -> (out: Vec<QueuedTrack>)
    ensures
        queued_views(out@) == stamped(track_views(tracks@), requester.0),
{
    let mut out: Vec<QueuedTrack> = Vec::new();
    let mut i: usize = 0;
    while i < tracks.len()
        invariant
            i <= tracks.len(),
            queued_views(out@) == stamped(track_views(tracks@.take(i as int)), requester.0),
        decreases tracks.len() - i,
    {
        out.push(tracks[i].duplicate().queued_by(requester));
        assert(stamped(track_views(tracks@.take(i + 1)), requester.0) =~= stamped(
            track_views(tracks@.take(i as int)),
            requester.0,
        ).push(out@[i as int]@));
        i = i + 1;
    }
    out
}

/// The tracks of `loaded` that go into the queue, stamped with `requester`.
fn select_to_enqueue(loaded: TrackLoadResult, requester: UserId) -> (out: Vec<QueuedTrack>)
    ensures
        queued_views(out@) == stamped(tracks_to_enqueue(loaded), requester.0),
{
    let mut out: Vec<QueuedTrack> = Vec::new();
    match loaded {
        TrackLoadResult::Track(track) => {
            out.push(track.queued_by(requester));
        },
        TrackLoadResult::Search(found) => {
            if found.len() > 0 {
                out.push(found[0].duplicate().queued_by(requester));
            }
        },
        TrackLoadResult::Playlist { name, tracks } => {
            out = stamp_all(&tracks, requester);
        },
        _ => {},
    }
    out
}

/// The table after the tracks of `loaded` were queued for `guild`.
pub open spec fn after_enqueue(
    m: Map<u64, SessionModel>,
    guild: u64,
    requester: u64,
    loaded: TrackLoadResult,
) -> Map<u64, SessionModel> {
    if installed(m, guild) {
        with_session(
            m,
            guild,
            SessionModel {
                queue: m[guild].queue + stamped(tracks_to_enqueue(loaded), requester),
                ..m[guild]
            },
        )
    } else {
        m
    }
}

/// Queues what the engine loaded for a `play` of `requester`.
///
/// One track is queued for a track and for a search (its best match), all
/// tracks for a playlist, none where nothing was loaded. The tracks go to
/// the tail of the queue in the order in which they were loaded, each
/// stamped with `requester`. The result is the number of tracks queued.
pub fn enqueue_loaded(
    registry: &mut SessionRegistry,
    guild: GuildId,
    requester: UserId,
    loaded: TrackLoadResult,
) -> (r: Result<usize, CommandError>)
    ensures
        final(registry)@ == after_enqueue(old(registry)@, guild.0, requester.0, loaded),
        installed(old(registry)@, guild.0) ==> r is Ok && r->Ok_0 == tracks_to_enqueue(
            loaded,
        ).len(),
        !installed(old(registry)@, guild.0) ==> r == Err::<usize, CommandError>(
            CommandError::NoSession,
        ),
{
    match registry.remove(guild) {
        None => Err(CommandError::NoSession),
        Some(session) => {
            let mut session = session;
            let tracks = select_to_enqueue(loaded, requester);
            let count = tracks.len();
            session.queue_mut().append(tracks);
            registry.restore(session);
            Ok(count)
        },
    }
}

/// How often the engine is asked to skip: as often as the command says, once
/// where it does not say.
pub open spec fn skip_count(number: Option<usize>) -> usize {
    match number {
        Some(n) => n,
        None => 1,
    }
}

/// What a command answers that needs a session and a track being played,
/// and then asks `request` of the engine.
pub open spec fn playing_result<T>(
    m: Map<u64, SessionModel>,
    guild: u64,
    now_playing: bool,
    request: T,
) -> Result<T, CommandError> {
    if !installed(m, guild) {
        Err(CommandError::NotConnected)
    } else if !now_playing {
        Err(CommandError::NothingPlaying)
    } else {
        Ok(request)
    }
}

/// What a command answers that needs a session, and then asks `request` of
/// the engine.
pub open spec fn connected_result<T>(
    m: Map<u64, SessionModel>,
    guild: u64,
    request: T,
) -> Result<T, CommandError> {
    if installed(m, guild) {
        Ok(request)
    } else {
        Err(CommandError::NotConnected)
    }
}

/// Skips the track that is being played. The result is how often the engine
/// is to be asked to skip. `now_playing` says whether the engine is playing
/// a track in the guild.
pub fn skip(registry: &SessionRegistry, guild: GuildId, now_playing: bool, number: Option<usize>)
    -> (r: Result<usize, CommandError>)
    ensures
        r == playing_result(registry@, guild.0, now_playing, skip_count(number)),
{
    match registry.get(guild) {
        None => Err(CommandError::NotConnected),
        Some(_) => {
            if now_playing {
                match number {
                    Some(n) => Ok(n),
                    None => Ok(1),
                }
            } else {
                Err(CommandError::NothingPlaying)
            }
        },
    }
}

/// Pauses playback. The result is the pause flag to set in the engine:
/// `true`.
pub fn pause(registry: &SessionRegistry, guild: GuildId) -> (r: Result<bool, CommandError>)
    ensures
        r == connected_result(registry@, guild.0, true),
{
    match registry.get(guild) {
        None => Err(CommandError::NotConnected),
        Some(_) => Ok(true),
    }
}

/// Resumes playback. The result is the pause flag to set in the engine:
/// `false`.
pub fn resume(registry: &SessionRegistry, guild: GuildId) -> (r: Result<bool, CommandError>)
    ensures
        r == connected_result(registry@, guild.0, false),
{
    match registry.get(guild) {
        None => Err(CommandError::NotConnected),
        Some(_) => Ok(false),
    }
}

/// Stops the track that is being played; `Ok` tells the caller to stop the
/// engine. The queue is left as it is.
pub fn stop(registry: &SessionRegistry, guild: GuildId, now_playing: bool) -> (r: Result<
    (),
    CommandError,
>)
    ensures
        r == playing_result(registry@, guild.0, now_playing, ()),
{
    match registry.get(guild) {
        None => Err(CommandError::NotConnected),
        Some(_) => {
            if now_playing {
                Ok(())
            } else {
                Err(CommandError::NothingPlaying)
            }
        },
    }
}

/// Jumps to `seconds` in the track that is being played. The result is the
/// position, in seconds, to set in the engine.
pub fn seek(registry: &SessionRegistry, guild: GuildId, now_playing: bool, seconds: u64) -> (r:
    Result<u64, CommandError>)
    ensures
        r == playing_result(registry@, guild.0, now_playing, seconds),
{
    match registry.get(guild) {
        None => Err(CommandError::NotConnected),
        Some(_) => {
            if now_playing {
                Ok(seconds)
            } else {
                Err(CommandError::NothingPlaying)
            }
        },
    }
}

/// Sets the volume. The result is the volume to set in the engine: the one
/// given, unchanged, for the engine alone judges it.
pub fn set_volume(registry: &SessionRegistry, guild: GuildId, volume: u16) -> (r: Result<
    u16,
    CommandError,
>)
    ensures
        r == connected_result(registry@, guild.0, volume),
{
    match registry.get(guild) {
        None => Err(CommandError::NotConnected),
        Some(_) => Ok(volume),
    }
}

/// Whether `index` names an entry in the queue of `guild`.
pub open spec fn names_entry(m: Map<u64, SessionModel>, guild: u64, index: usize) -> bool {
    installed(m, guild) && index < m[guild].queue.len()
}

/// The table after `remove`.
pub open spec fn after_remove(
    m: Map<u64, SessionModel>,
    guild: u64,
    index: usize,
) -> Map<u64, SessionModel> {
    if names_entry(m, guild, index) {
        with_session(
            m,
            guild,
            SessionModel { queue: m[guild].queue.remove(index as int), ..m[guild] },
        )
    } else {
        m
    }
}

/// Removes the entry at `index`, counted from 0, from the queue of `guild`
/// and returns it. The entries behind it move up by one.
pub fn remove(registry: &mut SessionRegistry, guild: GuildId, index: usize) -> (r: Result<
    QueuedTrack,
    CommandError,
>)
    ensures
        final(registry)@ == after_remove(old(registry)@, guild.0, index),
        names_entry(old(registry)@, guild.0, index) ==> r is Ok && r->Ok_0@ == old(
            registry,
        )@[guild.0].queue[index as int],
        !installed(old(registry)@, guild.0) ==> r == Err::<QueuedTrack, CommandError>(
            CommandError::NoSession,
        ),
        installed(old(registry)@, guild.0) && !names_entry(old(registry)@, guild.0, index) ==> r
            == Err::<QueuedTrack, CommandError>(CommandError::IndexOutOfRange),
{
    match registry.remove(guild) {
        None => Err(CommandError::NoSession),
        Some(session) => {
            let mut session = session;
            let removed = session.queue_mut().remove(index);
            registry.restore(session);
            match removed {
                Ok(track) => Ok(track),
                Err(QueueError::IndexOutOfRange) => Err(CommandError::IndexOutOfRange),
            }
        },
    }
}

/// The table after `clear`.
pub open spec fn after_clear(m: Map<u64, SessionModel>, guild: u64) -> Map<u64, SessionModel> {
    if installed(m, guild) {
        with_session(m, guild, SessionModel { queue: Seq::empty(), ..m[guild] })
    } else {
        m
    }
}

/// What a command on the queue of `guild` answers when it has nothing else
/// to tell.
pub open spec fn queue_result(m: Map<u64, SessionModel>, guild: u64) -> Result<(), CommandError> {
    if installed(m, guild) {
        Ok(())
    } else {
        Err(CommandError::NoSession)
    }
}

/// Empties the queue of `guild`.
pub fn clear(registry: &mut SessionRegistry, guild: GuildId) -> (r: Result<(), CommandError>)
    ensures
        r == queue_result(old(registry)@, guild.0),
        final(registry)@ == after_clear(old(registry)@, guild.0),
{
    match registry.remove(guild) {
        None => Err(CommandError::NoSession),
        Some(session) => {
            let mut session = session;
            session.queue_mut().clear();
            registry.restore(session);
            Ok(())
        },
    }
}

/// Whether the table `after` is `before` with the queue of `guild`
/// rearranged: every track is still queued, as often as it was, and nothing
/// else has changed. A queue of at most one track is not changed at all.
pub open spec fn queue_rearranged(
    before: Map<u64, SessionModel>,
    after: Map<u64, SessionModel>,
    guild: u64,
) -> bool {
    &&& installed(before, guild)
    &&& after == with_session(
        before,
        guild,
        SessionModel { queue: after[guild].queue, ..before[guild] },
    )
    &&& after[guild].queue.to_multiset() == before[guild].queue.to_multiset()
    &&& after[guild].queue.len() == before[guild].queue.len()
    &&& before[guild].queue.len() <= 1 ==> after == before
}

/// Rearranges the queue of `guild` at random.
pub fn shuffle(registry: &mut SessionRegistry, guild: GuildId) -> (r: Result<(), CommandError>)
    ensures
        r == queue_result(old(registry)@, guild.0),
        installed(old(registry)@, guild.0) ==> queue_rearranged(
            old(registry)@,
            final(registry)@,
            guild.0,
        ),
        !installed(old(registry)@, guild.0) ==> final(registry)@ == old(registry)@,
{
    match registry.remove(guild) {
        None => Err(CommandError::NoSession),
        Some(session) => {
            let mut session = session;
            session.queue_mut().shuffle();
            let ghost shuffled = session@;
            registry.restore(session);
            assert(final(registry)@ =~= with_session(old(registry)@, guild.0, shuffled));
            assert(old(registry)@[guild.0].queue.len() <= 1 ==> final(registry)@ =~= old(
                registry,
            )@);
            Ok(())
        },
    }
}

/// The table after `repeat`.
pub open spec fn after_repeat(m: Map<u64, SessionModel>, guild: u64) -> Map<u64, SessionModel> {
    if installed(m, guild) {
        with_session(
            m,
            guild,
            SessionModel { repeat_enabled: !m[guild].repeat_enabled, ..m[guild] },
        )
    } else {
        m
    }
}

/// What `repeat` answers: the new setting.
pub open spec fn repeat_result(m: Map<u64, SessionModel>, guild: u64) -> Result<
    bool,
    CommandError,
> {
    if installed(m, guild) {
        Ok(!m[guild].repeat_enabled)
    } else {
        Err(CommandError::NotConnected)
    }
}

/// Turns repeat on where it was off, and off where it was on. With repeat
/// on, a track that ends by itself is played again.
pub fn repeat(registry: &mut SessionRegistry, guild: GuildId) -> (r: Result<bool, CommandError>)
    ensures
        r == repeat_result(old(registry)@, guild.0),
        final(registry)@ == after_repeat(old(registry)@, guild.0),
{
    match registry.remove(guild) {
        None => Err(CommandError::NotConnected),
        Some(session) => {
            let mut session = session;
            let now = session.toggle_repeat();
            registry.restore(session);
            Ok(now)
        },
    }
}

/// The first `n` tracks of the queue of `guild`, for display; all of them
/// where it holds fewer.
pub fn queue(registry: &SessionRegistry, guild: GuildId, n: usize) -> (r: Result<
    Vec<QueuedTrack>,
    CommandError,
>)
    ensures
        installed(registry@, guild.0) ==> r is Ok && queued_views(r->Ok_0@) == first_entries(
            registry@[guild.0].queue,
            n as nat,
        ),
        !installed(registry@, guild.0) ==> r == Err::<Vec<QueuedTrack>, CommandError>(
            CommandError::NoSession,
        ),
{
    match registry.get(guild) {
        None => Err(CommandError::NoSession),
        Some(session) => Ok(session.queue().peek(n)),
    }
}

} // verus!
