//! The calls that the dispatchers make on the storage service, and its
//! answers. The service itself runs outside the library and performs one
//! call at a time.

use vstd::prelude::*;
use crate::types::{Channel, ChannelName, Key, Password, Session, User, UserId, Username};

verus! {

/// Creates a user account with the given password.
#[derive(Debug, PartialEq, Eq)]
pub struct CreateUser {
    pub username: Username,
    pub password: Password,
}

/// Replaces the password of the named user.
#[derive(Debug, PartialEq, Eq)]
pub struct SetPassword {
    pub username: Username,
    pub password: Password,
}

/// Looks a user up by name.
#[derive(Debug, PartialEq, Eq)]
pub struct FindUser {
    pub username: Username,
}

/// Stores a session key for a user.
#[derive(Debug, PartialEq, Eq)]
pub struct CreateSession {
    pub user_id: UserId,
    pub key: Key,
}

/// Looks a stored session up by key.
#[derive(Debug, PartialEq, Eq)]
pub struct FindSession {
    pub key: Key,
}

/// Creates a channel and makes the user its first member, in one step.
#[derive(Debug, PartialEq, Eq)]
pub struct CreateChannel {
    pub channel: ChannelName,
    pub user_id: UserId,
}

/// Lists the channels that are not deleted.
#[derive(Debug, PartialEq, Eq)]
pub struct GetChannels {}

/// One call on the storage service.
#[derive(Debug, PartialEq, Eq)]
pub enum StorageRequest {
    CreateUser(CreateUser),
    SetPassword(SetPassword),
    FindUser(FindUser),
    CreateSession(CreateSession),
    FindSession(FindSession),
    CreateChannel(CreateChannel),
    GetChannels(GetChannels),
}

/// What the storage service answered to one call.
#[derive(Debug, PartialEq, Eq)]
pub enum StorageReply {
    /// The call changed what it was asked to change.
    Done,
    UserFound(Option<User>),
    SessionFound(Option<Session>),
    Channels(Vec<Channel>),
    /// The call failed; the text describes why.
    Failed(String),
}

pub ghost struct UserRecord {
    pub id: u32,
    pub username: Seq<char>,
    pub password: Seq<char>,
}

pub ghost struct SessionRecord {
    pub key: Seq<char>,
    pub user_id: u32,
}

pub ghost struct ChannelRecord {
    pub id: u32,
    pub name: Seq<char>,
}

/// A storage call with its strings seen as character sequences.
pub ghost enum StorageCall {
    CreateUser { username: Seq<char>, password: Seq<char> },
    SetPassword { username: Seq<char>, password: Seq<char> },
    FindUser { username: Seq<char> },
    CreateSession { user_id: u32, key: Seq<char> },
    FindSession { key: Seq<char> },
    CreateChannel { channel: Seq<char>, user_id: u32 },
    GetChannels,
}

/// A storage answer with its strings seen as character sequences.
pub ghost enum StorageAnswer {
    Done,
    UserFound(Option<UserRecord>),
    SessionFound(Option<SessionRecord>),
    Channels(Seq<ChannelRecord>),
    Failed(Seq<char>),
}

pub open spec fn user_record(u: User) -> UserRecord {
    UserRecord { id: u.id.0, username: u.username@, password: u.password@ }
}

pub open spec fn session_record(s: Session) -> SessionRecord {
    SessionRecord { key: s.key@, user_id: s.user_id.0 }
}

pub open spec fn channel_record(c: Channel) -> ChannelRecord {
    ChannelRecord { id: c.id.0, name: c.channel@ }
}

impl View for StorageRequest {
    type V = StorageCall;

    open spec fn view(&self) -> StorageCall {
        match self {
            StorageRequest::CreateUser(c) => StorageCall::CreateUser {
                username: c.username@,
                password: c.password@,
            },
            StorageRequest::SetPassword(c) => StorageCall::SetPassword {
                username: c.username@,
                password: c.password@,
            },
            StorageRequest::FindUser(c) => StorageCall::FindUser { username: c.username@ },
            StorageRequest::CreateSession(c) => StorageCall::CreateSession {
                user_id: c.user_id.0,
                key: c.key@,
            },
            StorageRequest::FindSession(c) => StorageCall::FindSession { key: c.key@ },
            StorageRequest::CreateChannel(c) => StorageCall::CreateChannel {
                channel: c.channel@,
                user_id: c.user_id.0,
            },
            StorageRequest::GetChannels(_) => StorageCall::GetChannels,
        }
    }
}

impl View for StorageReply {
    type V = StorageAnswer;

    open spec fn view(&self) -> StorageAnswer {
        match self {
            StorageReply::Done => StorageAnswer::Done,
            StorageReply::UserFound(u) => StorageAnswer::UserFound(
                match u {
                    Some(u) => Some(user_record(*u)),
                    None => None,
                },
            ),
            StorageReply::SessionFound(s) => StorageAnswer::SessionFound(
                match s {
                    Some(s) => Some(session_record(*s)),
                    None => None,
                },
            ),
            StorageReply::Channels(list) => StorageAnswer::Channels(
                list@.map_values(|c: Channel| channel_record(c)),
            ),
            StorageReply::Failed(reason) => StorageAnswer::Failed(reason@),
        }
    }
}

} // verus!
