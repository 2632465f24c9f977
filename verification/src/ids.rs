//! Numeric Discord identifiers.

use vstd::prelude::*;

verus! {

/// A Discord server.
#[derive(Debug, Clone, Copy, PartialEq, Eq, Hash, PartialOrd, Ord, Structural)]
pub struct GuildId(pub u64);

impl GuildId {
    #[must_use]
    pub fn new(value: u64) -> (id: Self)
        ensures
            id == GuildId(value),
    {
        GuildId(value)
    }

    #[must_use]
    pub fn get(self) -> (value: u64)
        ensures
            value == self.0,
    {
        self.0
    }
}

/// A Discord voice channel.
#[derive(Debug, Clone, Copy, PartialEq, Eq, Hash, PartialOrd, Ord, Structural)]
pub struct ChannelId(pub u64);

impl ChannelId {
    #[must_use]
    pub fn new(value: u64) -> (id: Self)
        ensures
            id == ChannelId(value),
    {
        ChannelId(value)
    }

    #[must_use]
    pub fn get(self) -> (value: u64)
        ensures
            value == self.0,
    {
        self.0
    }
}

/// A Discord user.
#[derive(Debug, Clone, Copy, PartialEq, Eq, Hash, PartialOrd, Ord, Structural)]
pub struct UserId(pub u64);

impl UserId {
    #[must_use]
    pub fn new(value: u64) -> (id: Self)
        ensures
            id == UserId(value),
    {
        UserId(value)
    }

    #[must_use]
    pub fn get(self) -> (value: u64)
        ensures
            value == self.0,
    {
        self.0
    }
}

} // verus!
