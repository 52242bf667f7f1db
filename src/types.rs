//! Plain value types shared by the protocols and the storage records.

use vstd::prelude::*;

verus! {

/// Name of a user account.
#[derive(Debug, PartialEq, Eq, Hash)]
pub struct Username(pub String);

/// A password, stored and compared as plain text.
#[derive(Debug, PartialEq, Eq, Hash)]
pub struct Password(pub String);

/// Opaque bearer token that identifies a stored session.
#[derive(Debug, PartialEq, Eq, Hash)]
pub struct Key(pub String);

/// Name of a channel.
#[derive(Debug, PartialEq, Eq, Hash)]
pub struct ChannelName(pub String);

impl View for Username {
    type V = Seq<char>;

    open spec fn view(&self) -> Seq<char> {
        self.0@
    }
}

impl View for Password {
    type V = Seq<char>;

    open spec fn view(&self) -> Seq<char> {
        self.0@
    }
}

impl View for Key {
    type V = Seq<char>;

    open spec fn view(&self) -> Seq<char> {
        self.0@
    }
}

impl View for ChannelName {
    type V = Seq<char>;

    open spec fn view(&self) -> Seq<char> {
        self.0@
    }
}

impl Username {
    pub fn duplicate(&self) -> (r: Username)
        ensures
            r@ == self@,
    {
        Username(self.0.clone())
    }

    pub fn same(&self, other: &Username) -> (r: bool)
        ensures
            r == (self@ == other@),
    {
        self.0 == other.0
    }
}

impl Password {
    pub fn duplicate(&self) -> (r: Password)
        ensures
            r@ == self@,
    {
        Password(self.0.clone())
    }

    pub fn same(&self, other: &Password) -> (r: bool)
        ensures
            r == (self@ == other@),
    {
        self.0 == other.0
    }
}

impl Key {
    pub fn duplicate(&self) -> (r: Key)
        ensures
            r@ == self@,
    {
        Key(self.0.clone())
    }

    pub fn same(&self, other: &Key) -> (r: bool)
        ensures
            r == (self@ == other@),
    {
        self.0 == other.0
    }
}

impl ChannelName {
    pub fn duplicate(&self) -> (r: ChannelName)
        ensures
            r@ == self@,
    {
        ChannelName(self.0.clone())
    }

    pub fn same(&self, other: &ChannelName) -> (r: bool)
        ensures
            r == (self@ == other@),
    {
        self.0 == other.0
    }
}

/// A login attempt: a user name and the password offered for it.
#[derive(Debug, PartialEq, Eq)]
pub struct Credentials {
    pub username: Username,
    pub password: Password,
}

/// Row identifier of a user record.
#[derive(Debug, Clone, Copy, PartialEq, Eq, Hash)]
pub struct UserId(pub u32);

/// Row identifier of a stored session.
#[derive(Debug, Clone, Copy, PartialEq, Eq, Hash)]
pub struct SessionId(pub u32);

/// Row identifier of a channel record.
#[derive(Debug, Clone, Copy, PartialEq, Eq, Hash)]
pub struct ChannelId(pub u32);

/// A user record as the storage service returns it.
#[derive(Debug, PartialEq, Eq)]
pub struct User {
    pub id: UserId,
    pub username: Username,
    pub password: Password,
}

/// A stored session: the key issued at login and the user it belongs to.
#[derive(Debug, PartialEq, Eq)]
pub struct Session {
    pub id: SessionId,
    pub key: Key,
    pub user_id: UserId,
}

/// A channel record.
#[derive(Debug, PartialEq, Eq)]
pub struct Channel {
    pub id: ChannelId,
    pub channel: ChannelName,
}

} // verus!
