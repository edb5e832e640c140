//! The process-wide table of playback sessions, one per guild at most.

use std::collections::HashMap;
use vstd::prelude::*;

use crate::ids::{ChannelId, GuildId};
use crate::session::{fresh_session, ConnectionState, PlaybackSession, SessionModel};

verus! {

/// Why no session came out of a connect.
#[derive(Clone, Copy, Debug, PartialEq, Eq, Structural)]
pub enum ConnectError {
    /// The voice transport did not connect.
    Transport,
    /// The audio engine did not create its side of the session.
    Engine,
    /// Another connect for the same guild has not come back yet.
    InProgress,
    /// A connect was reported back for a guild that has none under way.
    NotPending,
}

/// What a caller that asks for a guild's session has to do next.
#[derive(Clone, Copy, Debug, PartialEq, Eq, Structural)]
pub enum ConnectStep {
    /// The guild has a session: nothing to do.
    Existing,
    /// The guild had no session. The caller connects, and reports back how
    /// it went.
    Connect,
    /// Another caller is connecting the guild: wait for it, then ask again.
    InProgress,
}

/// Where `guild` stands in the table `m`.
pub open spec fn state_of(m: Map<u64, SessionModel>, guild: u64) -> ConnectionState {
    if m.contains_key(guild) {
        m[guild].connection_state
    } else {
        ConnectionState::Disconnected
    }
}

/// Whether `guild` has a session in `m` that callers can see.
pub open spec fn installed(m: Map<u64, SessionModel>, guild: u64) -> bool {
    state_of(m, guild) == ConnectionState::Connected
}

/// Whether a connect for `guild` is under way in `m`.
pub open spec fn connecting(m: Map<u64, SessionModel>, guild: u64) -> bool {
    state_of(m, guild) == ConnectionState::Connecting
}

/// Whether a track waits in the queue of `guild`.
pub open spec fn has_head(m: Map<u64, SessionModel>, guild: u64) -> bool {
    installed(m, guild) && m[guild].queue.len() > 0
}

/// The table `m` with the session of `guild` replaced by `session`.
pub open spec fn with_session(
    m: Map<u64, SessionModel>,
    guild: u64,
    session: SessionModel,
) -> Map<u64, SessionModel> {
    m.insert(guild, session)
}

/// What every table satisfies: an entry is filed under the guild it belongs
/// to, and no entry is kept for a guild that is disconnected.
pub open spec fn well_formed(m: Map<u64, SessionModel>) -> bool {
    forall|g: u64| #[trigger]
        m.contains_key(g) ==> m[g].guild_id == g && m[g].connection_state
            != ConnectionState::Disconnected
}

/// The table after a caller asked for the session of `guild`.
pub open spec fn after_begin_connect(
    m: Map<u64, SessionModel>,
    guild: u64,
    reply_channel: u64,
) -> Map<u64, SessionModel> {
    if state_of(m, guild) == ConnectionState::Disconnected {
        m.insert(guild, fresh_session(guild, reply_channel, ConnectionState::Connecting))
    } else {
        m
    }
}

/// What a caller that asks for the session of `guild` is told.
pub open spec fn begin_connect_step(m: Map<u64, SessionModel>, guild: u64) -> ConnectStep {
    match state_of(m, guild) {
        ConnectionState::Connected => ConnectStep::Existing,
        ConnectionState::Connecting => ConnectStep::InProgress,
        ConnectionState::Disconnected => ConnectStep::Connect,
    }
}

/// The table after the connect for `guild` was reported back with `outcome`.
pub open spec fn after_complete_connect(
    m: Map<u64, SessionModel>,
    guild: u64,
    outcome: Result<(), ConnectError>,
) -> Map<u64, SessionModel> {
    if connecting(m, guild) {
        match outcome {
            Ok(_) => m.insert(
                guild,
                SessionModel { connection_state: ConnectionState::Connected, ..m[guild] },
            ),
            Err(_) => m.remove(guild),
        }
    } else {
        m
    }
}

/// What the caller that reports a connect for `guild` back is told.
pub open spec fn complete_connect_result(
    m: Map<u64, SessionModel>,
    guild: u64,
    outcome: Result<(), ConnectError>,
) -> Result<(), ConnectError> {
    if connecting(m, guild) {
        outcome
    } else {
        Err(ConnectError::NotPending)
    }
}

/// The table after a guild without an entry was connected with `outcome`:
/// on success it holds a fresh connected session for the guild, on failure
/// it is what it was.
pub open spec fn after_create(
    m: Map<u64, SessionModel>,
    guild: u64,
    reply_channel: u64,
    outcome: Result<(), ConnectError>,
) -> Map<u64, SessionModel> {
    match outcome {
        Ok(_) => m.insert(guild, fresh_session(guild, reply_channel, ConnectionState::Connected)),
        Err(_) => m,
    }
}

/// What the caller whose connect ended with `outcome` is told: that a
/// session was created, or why none was.
pub open spec fn created(outcome: Result<(), ConnectError>) -> Result<bool, ConnectError> {
    match outcome {
        Ok(_) => Ok(true),
        Err(e) => Err(e),
    }
}

/// The table of sessions, keyed by guild.
///
/// A guild has at most one entry. While a connect for a guild is under way
/// its entry is kept aside: lookups do not see it, and a second connect for
/// the same guild is not started.
#[derive(Debug)]
pub struct SessionRegistry {
    sessions: HashMap<u64, PlaybackSession>,
}

impl View for SessionRegistry {
    type V = Map<u64, SessionModel>;

    closed spec fn view(&self) -> Map<u64, SessionModel> {
        self.sessions@.map_values(|s: PlaybackSession| s@)
    }
}

impl SessionRegistry {
    #[verifier::type_invariant]
    spec fn filed_by_guild(self) -> bool {
        well_formed(self@)
    }

    /// A table without sessions.
    pub fn new() -> (r: SessionRegistry)
        ensures
            r@ == Map::<u64, SessionModel>::empty(),
            well_formed(r@),
    {
        let r = SessionRegistry { sessions: HashMap::new() };
        r
    }

    /// The session of `guild`, if it has one.
    pub fn get(&self, guild: GuildId) -> (r: Option<&PlaybackSession>)
        ensures
            installed(self@, guild.0) ==> r is Some && r->Some_0@ == self@[guild.0]
                && r->Some_0@.guild_id == guild.0,
            !installed(self@, guild.0) ==> r is None,
            well_formed(self@),
    {
        broadcast use vstd::std_specs::hash::group_hash_axioms;

        proof {
            use_type_invariant(&*self);
        }
        match self.sessions.get(&guild.0) {
            Some(s) => {
                if s.is_connected() {
                    Some(s)
                } else {
                    None
                }
            },
            None => None,
        }
    }

    /// Where `guild` stands: connected, connecting, or without a session.
    pub fn connection_state(&self, guild: GuildId) -> (s: ConnectionState)
        ensures
            s == state_of(self@, guild.0),
            well_formed(self@),
    {
        broadcast use vstd::std_specs::hash::group_hash_axioms;

        proof {
            use_type_invariant(&*self);
        }
        match self.sessions.get(&guild.0) {
            Some(s) => s.connection_state(),
            None => ConnectionState::Disconnected,
        }
    }

    /// Asks for the session of `guild` on behalf of a caller in
    /// `reply_channel`.
    ///
    /// Where the guild has neither a session nor a connect under way, the
    /// guild is marked as connecting and the caller is told to connect; it
    /// reports back through [`SessionRegistry::complete_connect`]. In every
    /// other case the table stays as it is.
    pub fn begin_connect(&mut self, guild: GuildId, reply_channel: ChannelId) -> (step:
        ConnectStep)
        ensures
            step == begin_connect_step(old(self)@, guild.0),
            final(self)@ == after_begin_connect(old(self)@, guild.0, reply_channel.0),
            well_formed(final(self)@),
    {
        broadcast use vstd::std_specs::hash::group_hash_axioms;

        proof {
            use_type_invariant(&*self);
        }
        match self.connection_state(guild) {
            ConnectionState::Connected => ConnectStep::Existing,
            ConnectionState::Connecting => ConnectStep::InProgress,
            ConnectionState::Disconnected => {
                let session = PlaybackSession::connecting(guild, reply_channel);
                let ghost entry = session@;
                let mut sessions = HashMap::new();
                std::mem::swap(&mut sessions, &mut self.sessions);
                sessions.insert(guild.0, session);
                proof {
                    let after = sessions@.map_values(|s: PlaybackSession| s@);
                    assert(after =~= old(self)@.insert(guild.0, entry));
                }
                self.sessions = sessions;
                ConnectStep::Connect
            },
        }
    }

    /// Takes the entry of `guild` out of the table, whatever its state.
    fn take_entry(&mut self, guild: u64) -> (r: Option<PlaybackSession>)
        ensures
            final(self)@ == old(self)@.remove(guild),
            old(self)@.contains_key(guild) ==> r is Some && r->Some_0@ == old(self)@[guild],
            !old(self)@.contains_key(guild) ==> r is None,
    {
        broadcast use vstd::std_specs::hash::group_hash_axioms;

        proof {
            use_type_invariant(&*self);
        }
        let mut sessions = HashMap::new();
        std::mem::swap(&mut sessions, &mut self.sessions);
        let r = sessions.remove(&guild);
        proof {
            let after = sessions@.map_values(|s: PlaybackSession| s@);
            assert(after =~= old(self)@.remove(guild));
        }
        self.sessions = sessions;
        r
    }

    /// Files `session` under its guild, in place of what was there.
    fn put_entry(&mut self, session: PlaybackSession)
        requires
            session@.connection_state != ConnectionState::Disconnected,
        ensures
            final(self)@ == old(self)@.insert(session@.guild_id, session@),
    {
        broadcast use vstd::std_specs::hash::group_hash_axioms;

        proof {
            use_type_invariant(&*self);
        }
        let ghost entry = session@;
        let guild = session.guild_id();
        let mut sessions = HashMap::new();
        std::mem::swap(&mut sessions, &mut self.sessions);
        sessions.insert(guild.0, session);
        proof {
            let after = sessions@.map_values(|s: PlaybackSession| s@);
            assert(after =~= old(self)@.insert(entry.guild_id, entry));
        }
        self.sessions = sessions;
    }

    /// Reports the connect for `guild` back.
    ///
    /// Where a connect for the guild is under way, `Ok` installs the session
    /// that [`SessionRegistry::begin_connect`] prepared, and an error drops
    /// it, so that nothing of the attempt is left; the outcome is handed
    /// back. Where none is under way the table stays as it is and the
    /// result is [`ConnectError::NotPending`].
    pub fn complete_connect(&mut self, guild: GuildId, outcome: Result<(), ConnectError>) -> (r:
        Result<(), ConnectError>)
        ensures
            r == complete_connect_result(old(self)@, guild.0, outcome),
            final(self)@ == after_complete_connect(old(self)@, guild.0, outcome),
            well_formed(final(self)@),
    {
        proof {
            use_type_invariant(&*self);
        }
        match self.connection_state(guild) {
            ConnectionState::Connecting => {
                match self.take_entry(guild.0) {
                    Some(session) => {
                        match outcome {
                            Ok(_) => {
                                let mut session = session;
                                session.mark_connected();
                                self.put_entry(session);
                            },
                            Err(_) => {},
                        }
                        outcome
                    },
                    None => Err(ConnectError::NotPending),
                }
            },
            _ => Err(ConnectError::NotPending),
        }
    }

    /// Removes the session of `guild` and returns it. A guild without a
    /// session is left as it is: removing twice is the same as removing once.
    pub fn remove(&mut self, guild: GuildId) -> (r: Option<PlaybackSession>)
        ensures
            installed(old(self)@, guild.0) ==> r is Some && r->Some_0@ == old(self)@[guild.0]
                && r->Some_0@.guild_id == guild.0 && final(self)@ == old(self)@.remove(guild.0),
            !installed(old(self)@, guild.0) ==> r is None && final(self)@ == old(self)@,
            well_formed(final(self)@),
    {
        proof {
            use_type_invariant(&*self);
        }
        match self.connection_state(guild) {
            ConnectionState::Connected => self.take_entry(guild.0),
            _ => None,
        }
    }

    /// Puts back a session that was taken out with
    /// [`SessionRegistry::remove`].
    pub(crate) fn restore(&mut self, session: PlaybackSession)
        requires
            session@.connection_state == ConnectionState::Connected,
            !old(self)@.contains_key(session@.guild_id),
        ensures
            final(self)@ == old(self)@.insert(session@.guild_id, session@),
    {
        self.put_entry(session);
    }

    /// Drops every entry: the sessions, and the connects under way.
    pub fn clear(&mut self)
        ensures
            final(self)@ == Map::<u64, SessionModel>::empty(),
            well_formed(final(self)@),
    {
        self.sessions = HashMap::new();
    }

    /// Returns the session of `guild`, connecting the guild first where it
    /// has none.
    ///
    /// Where the guild has a session the result is `Ok(false)` and
    /// `connector` is not called. Where the guild has none, `connector` is
    /// called once: on success a fresh session that replies to
    /// `reply_channel` is installed and the result is `Ok(true)`; on failure
    /// the error is handed back and no session is installed. Where another
    /// connect for the guild is under way, `connector` is not called and the
    /// result is [`ConnectError::InProgress`].
    ///
    /// The table is kept by the caller for as long as `connector` runs. A
    /// caller that has to let others at the table meanwhile asks with
    /// [`SessionRegistry::begin_connect`], connects, and reports back with
    /// [`SessionRegistry::complete_connect`].
    pub fn get_or_create<F: FnOnce() -> Result<(), ConnectError>>(
        &mut self,
        guild: GuildId,
        reply_channel: ChannelId,
        connector: F,
    ) -> (r: Result<bool, ConnectError>)
        requires
            call_requires(connector, ()),
        ensures
            installed(old(self)@, guild.0) ==> r == Ok::<bool, ConnectError>(false) && final(self)@
                == old(self)@,
            connecting(old(self)@, guild.0) ==> r == Err::<bool, ConnectError>(
                ConnectError::InProgress,
            ) && final(self)@ == old(self)@,
            state_of(old(self)@, guild.0) == ConnectionState::Disconnected ==> exists|
                outcome: Result<(), ConnectError>,
            |
                #![trigger call_ensures(connector, (), outcome)]
                call_ensures(connector, (), outcome) && r == created(outcome) && final(self)@
                    == after_create(old(self)@, guild.0, reply_channel.0, outcome),
            well_formed(final(self)@),
    {
        proof {
            use_type_invariant(&*self);
        }
        match self.begin_connect(guild, reply_channel) {
            ConnectStep::Existing => Ok(false),
            ConnectStep::InProgress => Err(ConnectError::InProgress),
            ConnectStep::Connect => {
                let outcome = connector();
                match self.complete_connect(guild, outcome) {
                    Ok(_) => {
                        Ok(true)
                    },
                    Err(e) => {
                        Err(e)
                    },
                }
            },
        }
    }
}

} // verus!
