//! The administrative client: turns a command into the control request that
//! carries it out.

use vstd::prelude::*;
use crate::control::{ClientToController, CtrlRequest};
use crate::opts::{ChannelSubCommand, Opts, SubCommand, UserSubCommand};

verus! {

/// The control request that carries out the command in `o`, if there is
/// one: starting a server is no request, and the control protocol has no
/// request that deletes a channel.
pub open spec fn command_request(o: Opts) -> Option<CtrlRequest> {
    match o.subcmd {
        SubCommand::Run => None,
        SubCommand::User(cmd) => match cmd.subcmd {
            UserSubCommand::Create(c) => Some(
                CtrlRequest::CreateUser { username: c.username@, password: c.password@ },
            ),
        },
        SubCommand::Channel(cmd) => match cmd.subcmd {
            ChannelSubCommand::Create(c) => Some(
                CtrlRequest::CreateChannel { channel: c.channel@, username: c.username@ },
            ),
            ChannelSubCommand::List => Some(CtrlRequest::GetChannels),
            ChannelSubCommand::Delete(_) => None,
        },
    }
}

pub struct Client {
    opts: Opts,
}

impl Client {
    pub closed spec fn options(&self) -> Opts {
        self.opts
    }

    pub fn new(opts: Opts) -> (r: Self)
        ensures
            r.options() == opts,
    {
        Self { opts }
    }

    /// The control request for this client's command.
    pub fn request(&self) -> (r: Option<ClientToController>)
        ensures
            match r {
                Some(m) => command_request(self.options()) == Some(m@),
                None => command_request(self.options()) is None,
            },
    {
        match &self.opts.subcmd {
            SubCommand::Run => None,
            SubCommand::User(cmd) => match &cmd.subcmd {
                UserSubCommand::Create(c) => Some(
                    ClientToController::CreateUser {
                        username: c.username.duplicate(),
                        password: c.password.duplicate(),
                    },
                ),
            },
            SubCommand::Channel(cmd) => match &cmd.subcmd {
                ChannelSubCommand::Create(c) => Some(
                    ClientToController::CreateChannel {
                        channel: c.channel.duplicate(),
                        username: c.username.duplicate(),
                    },
                ),
                ChannelSubCommand::List => Some(ClientToController::GetChannels),
                ChannelSubCommand::Delete(_) => None,
            },
        }
    }
}

} // verus!
