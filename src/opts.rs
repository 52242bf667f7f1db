//! Command-line commands, as plain values.

use vstd::prelude::*;
use crate::types::{ChannelName, Password, Username};

verus! {

pub struct Opts {
    pub subcmd: SubCommand,
}

pub enum SubCommand {
    /// Start a server.
    Run,
    /// Manage user accounts.
    User(UserCommand),
    /// Manage channels.
    Channel(ChannelCommand),
}

pub struct UserCommand {
    pub subcmd: UserSubCommand,
}

pub enum UserSubCommand {
    /// Create a new user.
    Create(UserCreateCommand),
}

pub struct UserCreateCommand {
    pub username: Username,
    pub password: Password,
}

pub struct ChannelCommand {
    pub subcmd: ChannelSubCommand,
}

pub enum ChannelSubCommand {
    /// Create a new channel.
    Create(ChannelCreateCommand),
    /// List the channels.
    List,
    /// Delete a channel.
    Delete(ChannelDeleteCommand),
}

pub struct ChannelCreateCommand {
    pub channel: ChannelName,
    pub username: Username,
}

pub struct ChannelDeleteCommand {
    pub channel: ChannelName,
}

} // verus!
