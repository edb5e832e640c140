//! Identifiers handed out by the chat platform.

use vstd::prelude::*;

verus! {

/// A community on the chat platform; the key of all per-guild state.
#[derive(Clone, Copy, Debug, PartialEq, Eq, Hash, Structural)]
pub struct GuildId(pub u64);

/// A text or voice channel of a guild.
#[derive(Clone, Copy, Debug, PartialEq, Eq, Hash, Structural)]
pub struct ChannelId(pub u64);

/// A member of the chat platform.
#[derive(Clone, Copy, Debug, PartialEq, Eq, Hash, Structural)]
pub struct UserId(pub u64);

} // verus!
