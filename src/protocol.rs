//! Messages of the live protocol, spoken between end-user clients and the
//! server.

use vstd::prelude::*;
use crate::types::{ChannelName, Credentials, Key};

verus! {

/// Requests a client sends.
#[derive(Debug, PartialEq, Eq)]
pub enum ClientToServer {
    CreateSession(Credentials),
    RestoreSession(Key),
    CreateChannel(ChannelName),
}

/// Outcome of the request just processed.
#[derive(Debug, PartialEq, Eq)]
pub enum Reaction {
    Success,
    Fail(String),
}

/// Change of a connection's login state.
#[derive(Debug, PartialEq, Eq)]
pub enum LoginUpdate {
    LoggedIn { key: Key },
    LoginFail,
}

/// Notification of a state change, sent after the reaction it accompanies.
#[derive(Debug, PartialEq, Eq)]
pub enum Delta {
    LoginUpdate(LoginUpdate),
}

/// Messages the server sends.
#[derive(Debug, PartialEq, Eq)]
pub enum ServerToClient {
    Reaction(Reaction),
    Delta(Delta),
}

/// A client request with its strings seen as character sequences.
pub ghost enum Request {
    CreateSession { username: Seq<char>, password: Seq<char> },
    RestoreSession { key: Seq<char> },
    CreateChannel { channel: Seq<char> },
}

/// A server message with its strings seen as character sequences.
pub ghost enum Notice {
    Success,
    Fail(Seq<char>),
    LoggedIn(Seq<char>),
    LoginFail,
}

impl View for ClientToServer {
    type V = Request;

    open spec fn view(&self) -> Request {
        match self {
            ClientToServer::CreateSession(c) => Request::CreateSession {
                username: c.username@,
                password: c.password@,
            },
            ClientToServer::RestoreSession(k) => Request::RestoreSession { key: k@ },
            ClientToServer::CreateChannel(c) => Request::CreateChannel { channel: c@ },
        }
    }
}

impl View for Reaction {
    type V = Notice;

    open spec fn view(&self) -> Notice {
        match self {
            Reaction::Success => Notice::Success,
            Reaction::Fail(reason) => Notice::Fail(reason@),
        }
    }
}

impl View for Delta {
    type V = Notice;

    open spec fn view(&self) -> Notice {
        match self {
            Delta::LoginUpdate(LoginUpdate::LoggedIn { key }) => Notice::LoggedIn(key@),
            Delta::LoginUpdate(LoginUpdate::LoginFail) => Notice::LoginFail,
        }
    }
}

impl View for ServerToClient {
    type V = Notice;

    open spec fn view(&self) -> Notice {
        match self {
            ServerToClient::Reaction(r) => r@,
            ServerToClient::Delta(d) => d@,
        }
    }
}

} // verus!
