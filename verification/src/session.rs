//! The playback state that is kept for one guild.

use vstd::prelude::*;

use crate::ids::{ChannelId, GuildId};
use crate::queue::QueueController;
use crate::track::QueuedTrackModel;

verus! {

/// Where a guild stands between "no voice connection" and "connected".
#[derive(Clone, Copy, Debug, PartialEq, Eq, Structural)]
pub enum ConnectionState {
    /// No session exists for the guild.
    Disconnected,
    /// A connect was started for the guild and has not come back yet.
    Connecting,
    /// The guild has a session that accepts commands and engine callbacks.
    Connected,
}

/// What a [`PlaybackSession`] is.
pub struct SessionModel {
    pub guild_id: u64,
    pub connection_state: ConnectionState,
    pub reply_channel: u64,
    pub repeat_enabled: bool,
    pub queue: Seq<QueuedTrackModel>,
}

/// The session that a connect for `guild`, issued from `reply_channel`,
/// starts with: nothing queued, repeat off.
pub open spec fn fresh_session(
    guild: u64,
    reply_channel: u64,
    state: ConnectionState,
) -> SessionModel {
    SessionModel {
        guild_id: guild,
        connection_state: state,
        reply_channel,
        repeat_enabled: false,
        queue: Seq::empty(),
    }
}

/// The mutable playback state of one guild: where messages about playback
/// go, whether a finished track is played again, and the tracks that wait.
#[derive(Debug)]
pub struct PlaybackSession {
    guild_id: GuildId,
    connection_state: ConnectionState,
    reply_channel: ChannelId,
    repeat_enabled: bool,
    queue: QueueController,
}

impl View for PlaybackSession {
    type V = SessionModel;

    closed spec fn view(&self) -> SessionModel {
        SessionModel {
            guild_id: self.guild_id.0,
            connection_state: self.connection_state,
            reply_channel: self.reply_channel.0,
            repeat_enabled: self.repeat_enabled,
            queue: self.queue@,
        }
    }
}

impl PlaybackSession {
    /// The session of a guild whose connect has just been started.
    pub(crate) fn connecting(guild: GuildId, reply_channel: ChannelId) -> (s: PlaybackSession)
        ensures
            s@ == fresh_session(guild.0, reply_channel.0, ConnectionState::Connecting),
    {
        PlaybackSession {
            guild_id: guild,
            connection_state: ConnectionState::Connecting,
            reply_channel,
            repeat_enabled: false,
            queue: QueueController::new(),
        }
    }

    /// Records that the connect came back with success.
    pub(crate) fn mark_connected(&mut self)
        ensures
            final(self)@ == (SessionModel {
                connection_state: ConnectionState::Connected,
                ..old(self)@
            }),
    {
        self.connection_state = ConnectionState::Connected;
    }

    /// The guild that the session belongs to.
    pub fn guild_id(&self) -> (g: GuildId)
        ensures
            g.0 == self@.guild_id,
    {
        self.guild_id
    }

    /// Where the session stands.
    pub fn connection_state(&self) -> (s: ConnectionState)
        ensures
            s == self@.connection_state,
    {
        self.connection_state
    }

    /// Whether the session is connected.
    pub fn is_connected(&self) -> (b: bool)
        ensures
            b == (self@.connection_state == ConnectionState::Connected),
    {
        match self.connection_state {
            ConnectionState::Connected => true,
            _ => false,
        }
    }

    /// The channel to which messages about playback are posted.
    pub fn reply_channel(&self) -> (c: ChannelId)
        ensures
            c.0 == self@.reply_channel,
    {
        self.reply_channel
    }

    /// Whether a track that ends by itself is played again.
    pub fn repeat_enabled(&self) -> (b: bool)
        ensures
            b == self@.repeat_enabled,
    {
        self.repeat_enabled
    }

    /// The tracks that wait to be played.
    pub fn queue(&self) -> (q: &QueueController)
        ensures
            q@ == self@.queue,
    {
        &self.queue
    }

    /// The queue, to change it.
    pub(crate) fn queue_mut(&mut self) -> (q: &mut QueueController)
        ensures
            q@ == old(self)@.queue,
            final(self)@ == (SessionModel { queue: final(q)@, ..old(self)@ }),
    {
        &mut self.queue
    }

    /// Makes `channel` the place to which messages about playback go.
    pub(crate) fn set_reply_channel(&mut self, channel: ChannelId)
        ensures
            final(self)@ == (SessionModel { reply_channel: channel.0, ..old(self)@ }),
    {
        self.reply_channel = channel;
    }

    /// Turns repeat on where it was off, and off where it was on; returns
    /// the new setting.
    pub(crate) fn toggle_repeat(&mut self) -> (now: bool)
        ensures
            now == !old(self)@.repeat_enabled,
            final(self)@ == (SessionModel { repeat_enabled: now, ..old(self)@ }),
    {
        self.repeat_enabled = !self.repeat_enabled;
        self.repeat_enabled
    }
}

} // verus!
