//! The control protocol, spoken between the administrative client and the
//! server: its messages, the server's per-connection dispatcher, and the
//! client's bookkeeping of requests and responses.

use vstd::prelude::*;
use crate::codec::CodecError;
use crate::storage::{
    channel_record, ChannelRecord, CreateChannel, CreateUser, FindUser, GetChannels, SetPassword,
    StorageAnswer, StorageCall, StorageReply, StorageRequest,
};
use crate::types::{Channel, ChannelName, Password, Username};

verus! {

/// Requests of the administrative client.
#[derive(Debug, PartialEq, Eq)]
pub enum ClientToController {
    CreateUser { username: Username, password: Password },
    SetPassword { username: Username, password: Password },
    CreateChannel { channel: ChannelName, username: Username },
    GetChannels,
}

/// Responses of the server to the administrative client; exactly one per
/// request.
#[derive(Debug, PartialEq, Eq)]
pub enum ControllerToClient {
    UserCreated { username: Username },
    PasswordSet { username: Username },
    ChannelCreated { channel: ChannelName },
    ChannelsList { channels: Vec<ChannelName> },
    Fail(String),
}

/// A control request with its strings seen as character sequences.
pub ghost enum CtrlRequest {
    CreateUser { username: Seq<char>, password: Seq<char> },
    SetPassword { username: Seq<char>, password: Seq<char> },
    CreateChannel { channel: Seq<char>, username: Seq<char> },
    GetChannels,
}

/// A control response with its strings seen as character sequences.
pub ghost enum CtrlResponse {
    UserCreated(Seq<char>),
    PasswordSet(Seq<char>),
    ChannelCreated(Seq<char>),
    ChannelsList(Seq<Seq<char>>),
    Fail(Seq<char>),
}

pub open spec fn names_of(channels: Seq<ChannelName>) -> Seq<Seq<char>> {
    channels.map_values(|c: ChannelName| c@)
}

impl View for ClientToController {
    type V = CtrlRequest;

    open spec fn view(&self) -> CtrlRequest {
        match self {
            ClientToController::CreateUser { username, password } => CtrlRequest::CreateUser {
                username: username@,
                password: password@,
            },
            ClientToController::SetPassword { username, password } => CtrlRequest::SetPassword {
                username: username@,
                password: password@,
            },
            ClientToController::CreateChannel { channel, username } => CtrlRequest::CreateChannel {
                channel: channel@,
                username: username@,
            },
            ClientToController::GetChannels => CtrlRequest::GetChannels,
        }
    }
}

impl View for ControllerToClient {
    type V = CtrlResponse;

    open spec fn view(&self) -> CtrlResponse {
        match self {
            ControllerToClient::UserCreated { username } => CtrlResponse::UserCreated(username@),
            ControllerToClient::PasswordSet { username } => CtrlResponse::PasswordSet(username@),
            ControllerToClient::ChannelCreated { channel } => CtrlResponse::ChannelCreated(channel@),
            ControllerToClient::ChannelsList { channels } => CtrlResponse::ChannelsList(
                names_of(channels@),
            ),
            ControllerToClient::Fail(reason) => CtrlResponse::Fail(reason@),
        }
    }
}

/// Reason given when a channel's owner names no user.
pub open spec fn no_such_user() -> Seq<char> {
    "user doesn't exists"@
}

/// Reason given when the storage service answers a call with an answer of
/// another kind.
pub open spec fn unexpected_answer() -> Seq<char> {
    "Unexpected storage answer."@
}

/// What the control dispatcher waits for.
pub ghost enum CtrlAwaiting {
    Nothing,
    UserCreated(Seq<char>),
    PasswordSet(Seq<char>),
    /// The owner's record, to create the named channel for.
    Owner(Seq<char>),
    ChannelCreated(Seq<char>),
    Channels,
}

/// What the control dispatcher does next.
pub ghost enum CtrlNext {
    Ask(StorageCall),
    Respond(CtrlResponse),
}

pub open spec fn channel_names(list: Seq<ChannelRecord>) -> Seq<Seq<char>> {
    list.map_values(|c: ChannelRecord| c.name)
}

/// The step taken when a control request arrives on an idle connection.
pub open spec fn on_ctrl_request(req: CtrlRequest) -> (CtrlAwaiting, CtrlNext) {
    match req {
        CtrlRequest::CreateUser { username, password } => (
            CtrlAwaiting::UserCreated(username),
            CtrlNext::Ask(StorageCall::CreateUser { username, password }),
        ),
        CtrlRequest::SetPassword { username, password } => (
            CtrlAwaiting::PasswordSet(username),
            CtrlNext::Ask(StorageCall::SetPassword { username, password }),
        ),
        CtrlRequest::CreateChannel { channel, username } => (
            CtrlAwaiting::Owner(channel),
            CtrlNext::Ask(StorageCall::FindUser { username }),
        ),
        CtrlRequest::GetChannels => (CtrlAwaiting::Channels, CtrlNext::Ask(StorageCall::GetChannels)),
    }
}

pub open spec fn ctrl_respond(r: CtrlResponse) -> (CtrlAwaiting, CtrlNext) {
    (CtrlAwaiting::Nothing, CtrlNext::Respond(r))
}

/// The step taken when the storage answer `a` arrives.
pub open spec fn on_ctrl_answer(w: CtrlAwaiting, a: StorageAnswer) -> (CtrlAwaiting, CtrlNext) {
    match a {
        StorageAnswer::Failed(reason) => ctrl_respond(CtrlResponse::Fail(reason)),
        _ => match w {
            CtrlAwaiting::UserCreated(username) => match a {
                StorageAnswer::Done => ctrl_respond(CtrlResponse::UserCreated(username)),
                _ => ctrl_respond(CtrlResponse::Fail(unexpected_answer())),
            },
            CtrlAwaiting::PasswordSet(username) => match a {
                StorageAnswer::Done => ctrl_respond(CtrlResponse::PasswordSet(username)),
                _ => ctrl_respond(CtrlResponse::Fail(unexpected_answer())),
            },
            CtrlAwaiting::Owner(channel) => match a {
                StorageAnswer::UserFound(Some(u)) => (
                    CtrlAwaiting::ChannelCreated(channel),
                    CtrlNext::Ask(StorageCall::CreateChannel { channel, user_id: u.id }),
                ),
                StorageAnswer::UserFound(None) => ctrl_respond(CtrlResponse::Fail(no_such_user())),
                _ => ctrl_respond(CtrlResponse::Fail(unexpected_answer())),
            },
            CtrlAwaiting::ChannelCreated(channel) => match a {
                StorageAnswer::Done => ctrl_respond(CtrlResponse::ChannelCreated(channel)),
                _ => ctrl_respond(CtrlResponse::Fail(unexpected_answer())),
            },
            CtrlAwaiting::Channels => match a {
                StorageAnswer::Channels(list) => ctrl_respond(
                    CtrlResponse::ChannelsList(channel_names(list)),
                ),
                _ => ctrl_respond(CtrlResponse::Fail(unexpected_answer())),
            },
            CtrlAwaiting::Nothing => ctrl_respond(CtrlResponse::Fail(unexpected_answer())),
        },
    }
}

enum CtrlStage {
    Idle,
    CreatingUser { username: Username },
    SettingPassword { username: Username },
    FindingOwner { channel: ChannelName },
    CreatingChannel { channel: ChannelName },
    ListingChannels,
}

/// What the control dispatcher asks of its caller.
#[derive(Debug, PartialEq, Eq)]
pub enum CtrlStep {
    /// Make this storage call and hand its answer to `process_reply`.
    Ask(StorageRequest),
    /// The request is done: send this response.
    Respond(ControllerToClient),
}

impl View for CtrlStep {
    type V = CtrlNext;

    open spec fn view(&self) -> CtrlNext {
        match self {
            CtrlStep::Ask(r) => CtrlNext::Ask(r@),
            CtrlStep::Respond(m) => CtrlNext::Respond(m@),
        }
    }
}

/// Dispatcher state of one control connection.
pub struct CtrlHandler {
    stage: CtrlStage,
}

impl View for CtrlHandler {
    type V = CtrlAwaiting;

    closed spec fn view(&self) -> CtrlAwaiting {
        match self.stage {
            CtrlStage::Idle => CtrlAwaiting::Nothing,
            CtrlStage::CreatingUser { username } => CtrlAwaiting::UserCreated(username@),
            CtrlStage::SettingPassword { username } => CtrlAwaiting::PasswordSet(username@),
            CtrlStage::FindingOwner { channel } => CtrlAwaiting::Owner(channel@),
            CtrlStage::CreatingChannel { channel } => CtrlAwaiting::ChannelCreated(channel@),
            CtrlStage::ListingChannels => CtrlAwaiting::Channels,
        }
    }
}

/// The names of `list`, in order.
fn names(list: &Vec<Channel>) -> (r: Vec<ChannelName>)
    ensures
        names_of(r@) == channel_names(list@.map_values(|c: Channel| channel_record(c))),
{
    let ghost want = channel_names(list@.map_values(|c: Channel| channel_record(c)));
    let mut r: Vec<ChannelName> = Vec::new();
    let mut i: usize = 0;
    while i < list.len()
        invariant
            i <= list@.len(),
            want.len() == list@.len(),
            names_of(r@) =~= want.subrange(0, i as int),
            want == channel_names(list@.map_values(|c: Channel| channel_record(c))),
        decreases list.len() - i,
    {
        let ghost shown = r@;
        r.push(list[i].channel.duplicate());
        assert(names_of(r@) =~= names_of(shown).push(list@[i as int].channel@));
        assert(want[i as int] == list@[i as int].channel@);
        i = i + 1;
        assert(want.subrange(0, i as int) =~= want.subrange(0, i - 1).push(want[i - 1]));
    }
    assert(want.subrange(0, i as int) =~= want);
    r
}

impl CtrlHandler {
    pub fn new() -> (r: Self)
        ensures
            r@ == CtrlAwaiting::Nothing,
    {
        CtrlHandler { stage: CtrlStage::Idle }
    }

    /// Whether the handler waits for no storage answer, and so can take a
    /// request.
    pub fn is_idle(&self) -> (r: bool)
        ensures
            r == (self@ == CtrlAwaiting::Nothing),
    {
        match self.stage {
            CtrlStage::Idle => true,
            _ => false,
        }
    }

    /// Takes a request on an idle connection and starts on it.
    pub fn process_request(&mut self, request: ClientToController) -> (r: CtrlStep)
        requires
            old(self)@ == CtrlAwaiting::Nothing,
        ensures
            (final(self)@, r@) == on_ctrl_request(request@),
    {
        match request {
            ClientToController::CreateUser { username, password } => {
                let asked = username.duplicate();
                self.stage = CtrlStage::CreatingUser { username };
                CtrlStep::Ask(StorageRequest::CreateUser(CreateUser { username: asked, password }))
            },
            ClientToController::SetPassword { username, password } => {
                let asked = username.duplicate();
                self.stage = CtrlStage::SettingPassword { username };
                CtrlStep::Ask(StorageRequest::SetPassword(SetPassword { username: asked, password }))
            },
            ClientToController::CreateChannel { channel, username } => {
                self.stage = CtrlStage::FindingOwner { channel };
                CtrlStep::Ask(StorageRequest::FindUser(FindUser { username }))
            },
            ClientToController::GetChannels => {
                self.stage = CtrlStage::ListingChannels;
                CtrlStep::Ask(StorageRequest::GetChannels(GetChannels {}))
            },
        }
    }

    /// Takes the storage answer to the call last asked for.
    pub fn process_reply(&mut self, reply: StorageReply) -> (r: CtrlStep)
        requires
            old(self)@ != CtrlAwaiting::Nothing,
        ensures
            (final(self)@, r@) == on_ctrl_answer(old(self)@, reply@),
    {
        let mut stage = CtrlStage::Idle;
        std::mem::swap(&mut self.stage, &mut stage);
        if let StorageReply::Failed(reason) = reply {
            return CtrlStep::Respond(ControllerToClient::Fail(reason));
        }
        let unexpected = ControllerToClient::Fail("Unexpected storage answer.".to_owned());
        match stage {
            CtrlStage::CreatingUser { username } => match reply {
                StorageReply::Done => CtrlStep::Respond(ControllerToClient::UserCreated { username }),
                _ => CtrlStep::Respond(unexpected),
            },
            CtrlStage::SettingPassword { username } => match reply {
                StorageReply::Done => CtrlStep::Respond(ControllerToClient::PasswordSet { username }),
                _ => CtrlStep::Respond(unexpected),
            },
            CtrlStage::FindingOwner { channel } => match reply {
                StorageReply::UserFound(Some(user)) => {
                    let asked = channel.duplicate();
                    self.stage = CtrlStage::CreatingChannel { channel };
                    CtrlStep::Ask(
                        StorageRequest::CreateChannel(CreateChannel { channel: asked, user_id: user.id }),
                    )
                },
                StorageReply::UserFound(None) => CtrlStep::Respond(
                    ControllerToClient::Fail("user doesn't exists".to_owned()),
                ),
                _ => CtrlStep::Respond(unexpected),
            },
            CtrlStage::CreatingChannel { channel } => match reply {
                StorageReply::Done => CtrlStep::Respond(ControllerToClient::ChannelCreated { channel }),
                _ => CtrlStep::Respond(unexpected),
            },
            CtrlStage::ListingChannels => match reply {
                StorageReply::Channels(list) => CtrlStep::Respond(
                    ControllerToClient::ChannelsList { channels: names(&list) },
                ),
                _ => CtrlStep::Respond(unexpected),
            },
            CtrlStage::Idle => CtrlStep::Respond(unexpected),
        }
    }
}

/// Errors the administrative client reports to its caller.
#[derive(Debug, PartialEq, Eq)]
pub enum ControllerError {
    /// The server answered with a response that does not answer the request.
    UnexpectedResponse(ControllerToClient),
    /// The connection closed before a response arrived.
    NoResponse,
    /// No response arrived in time.
    Timeout,
    /// The connection failed; the text describes why.
    Io(String),
    /// A payload could not be turned into a message, or back.
    Serialization(String),
    /// The framing failed.
    Codec(CodecError),
}

/// The response that answers a request.
pub ghost enum Expect {
    UserCreated(Seq<char>),
    PasswordSet(Seq<char>),
    ChannelCreated(Seq<char>),
    ChannelsList,
}

pub open spec fn expectation(r: CtrlRequest) -> Expect {
    match r {
        CtrlRequest::CreateUser { username, .. } => Expect::UserCreated(username),
        CtrlRequest::SetPassword { username, .. } => Expect::PasswordSet(username),
        CtrlRequest::CreateChannel { channel, .. } => Expect::ChannelCreated(channel),
        CtrlRequest::GetChannels => Expect::ChannelsList,
    }
}

/// Whether `r` answers a request that expects `e`: a confirmation naming
/// the same user or channel, or any channel list.
pub open spec fn answers(e: Expect, r: CtrlResponse) -> bool {
    match e {
        Expect::UserCreated(u) => r == CtrlResponse::UserCreated(u),
        Expect::PasswordSet(u) => r == CtrlResponse::PasswordSet(u),
        Expect::ChannelCreated(c) => r == CtrlResponse::ChannelCreated(c),
        Expect::ChannelsList => r is ChannelsList,
    }
}

/// The client's view of its connection: the request whose response it
/// awaits, and the requests held back until then, oldest first.
pub ghost struct ControllerState {
    pub in_flight: Option<Expect>,
    pub waiting: Seq<CtrlRequest>,
}

enum Expected {
    UserCreated(Username),
    PasswordSet(Username),
    ChannelCreated(ChannelName),
    ChannelsList,
}

impl View for Expected {
    type V = Expect;

    closed spec fn view(&self) -> Expect {
        match self {
            Expected::UserCreated(u) => Expect::UserCreated(u@),
            Expected::PasswordSet(u) => Expect::PasswordSet(u@),
            Expected::ChannelCreated(c) => Expect::ChannelCreated(c@),
            Expected::ChannelsList => Expect::ChannelsList,
        }
    }
}

/// What a response that answers its request yields.
#[derive(Debug, PartialEq, Eq)]
pub enum Outcome {
    Done,
    Channels(Vec<ChannelName>),
}

/// Client side of a control connection: one request in flight at a time,
/// later ones held back in order until the response to it arrives.
pub struct Controller {
    in_flight: Option<Expected>,
    waiting: Vec<ClientToController>,
}

impl View for Controller {
    type V = ControllerState;

    closed spec fn view(&self) -> ControllerState {
        ControllerState {
            in_flight: match self.in_flight {
                Some(e) => Some(e@),
                None => None,
            },
            waiting: self.waiting@.map_values(|m: ClientToController| m@),
        }
    }
}

fn expected_of(msg: &ClientToController) -> (r: Expected)
    ensures
        r@ == expectation(msg@),
{
    match msg {
        ClientToController::CreateUser { username, .. } => Expected::UserCreated(username.duplicate()),
        ClientToController::SetPassword { username, .. } => Expected::PasswordSet(username.duplicate()),
        ClientToController::CreateChannel { channel, .. } => Expected::ChannelCreated(
            channel.duplicate(),
        ),
        ClientToController::GetChannels => Expected::ChannelsList,
    }
}

/// Checks `response` against the expectation `e`.
fn check(e: Expected, response: ControllerToClient) -> (r: Result<Outcome, ControllerError>)
    ensures
        answers(e@, response@) ==> match r {
            Ok(Outcome::Done) => !(e@ is ChannelsList),
            Ok(Outcome::Channels(c)) => response@ == CtrlResponse::ChannelsList(names_of(c@)),
            Err(_) => false,
        },
        !answers(e@, response@) ==> match r {
            Err(ControllerError::UnexpectedResponse(x)) => x@ == response@,
            _ => false,
        },
{
    match (e, response) {
        (Expected::UserCreated(want), ControllerToClient::UserCreated { username }) => {
            if username.same(&want) {
                Ok(Outcome::Done)
            } else {
                Err(ControllerError::UnexpectedResponse(ControllerToClient::UserCreated { username }))
            }
        },
        (Expected::PasswordSet(want), ControllerToClient::PasswordSet { username }) => {
            if username.same(&want) {
                Ok(Outcome::Done)
            } else {
                Err(ControllerError::UnexpectedResponse(ControllerToClient::PasswordSet { username }))
            }
        },
        (Expected::ChannelCreated(want), ControllerToClient::ChannelCreated { channel }) => {
            if channel.same(&want) {
                Ok(Outcome::Done)
            } else {
                Err(ControllerError::UnexpectedResponse(ControllerToClient::ChannelCreated { channel }))
            }
        },
        (Expected::ChannelsList, ControllerToClient::ChannelsList { channels }) => Ok(
            Outcome::Channels(channels),
        ),
        (_, other) => Err(ControllerError::UnexpectedResponse(other)),
    }
}

impl Controller {
    pub fn new() -> (r: Self)
        ensures
            r@ == (ControllerState { in_flight: None, waiting: Seq::empty() }),
    {
        let r = Controller { in_flight: None, waiting: Vec::new() };
        assert(r@.waiting =~= Seq::<CtrlRequest>::empty());
        r
    }

    /// Whether a request is in flight, awaiting its response.
    pub fn awaits_response(&self) -> (r: bool)
        ensures
            r == (self@.in_flight is Some),
    {
        self.in_flight.is_some()
    }

    /// Offers a request. With none in flight it is returned, to be sent
    /// now; otherwise it is held back and `None` is returned.
    pub fn submit(&mut self, msg: ClientToController) -> (r: Option<ClientToController>)
        ensures
            match old(self)@.in_flight {
                None => (r matches Some(m) && m@ == msg@ && final(self)@ == (ControllerState {
                    in_flight: Some(expectation(msg@)),
                    ..old(self)@
                })),
                Some(_) => r is None && final(self)@ == (ControllerState {
                    waiting: old(self)@.waiting.push(msg@),
                    ..old(self)@
                }),
            },
    {
        if self.in_flight.is_none() {
            self.in_flight = Some(expected_of(&msg));
            Some(msg)
        } else {
            let ghost m = msg@;
            self.waiting.push(msg);
            assert(self@.waiting =~= old(self)@.waiting.push(m));
            None
        }
    }

    /// Takes the response to the request in flight. Returns what it yields,
    /// or `UnexpectedResponse` if it does not answer that request; and the
    /// oldest held-back request, now in flight and to be sent, if any.
    pub fn receive(&mut self, response: ControllerToClient) -> (r: (
        Result<Outcome, ControllerError>,
        Option<ClientToController>,
    ))
        requires
            old(self)@.in_flight is Some,
        ensures
            ({
                let e = old(self)@.in_flight->Some_0;
                &&& answers(e, response@) ==> match r.0 {
                    Ok(Outcome::Done) => !(e is ChannelsList),
                    Ok(Outcome::Channels(c)) => response@ == CtrlResponse::ChannelsList(names_of(c@)),
                    Err(_) => false,
                }
                &&& !answers(e, response@) ==> match r.0 {
                    Err(ControllerError::UnexpectedResponse(x)) => x@ == response@,
                    _ => false,
                }
            }),
            old(self)@.waiting.len() == 0 ==> r.1 is None && final(self)@ == (ControllerState {
                in_flight: None,
                waiting: Seq::empty(),
            }),
            old(self)@.waiting.len() > 0 ==> (r.1 matches Some(m) && m@ == old(self)@.waiting[0]
                && final(self)@ == (ControllerState {
                in_flight: Some(expectation(old(self)@.waiting[0])),
                waiting: old(self)@.waiting.drop_first(),
            })),
    {
        let mut current = None;
        std::mem::swap(&mut self.in_flight, &mut current);
        let e = match current {
            Some(e) => e,
            None => Expected::ChannelsList,
        };
        let outcome = check(e, response);
        if self.waiting.len() == 0 {
            assert(self@.waiting =~= Seq::<CtrlRequest>::empty());
            (outcome, None)
        } else {
            let ghost before = self.waiting@;
            let next = self.waiting.remove(0);
            assert(before.map_values(|m: ClientToController| m@)[0] == next@);
            assert(self@.waiting =~= before.map_values(|m: ClientToController| m@).drop_first());
            self.in_flight = Some(expected_of(&next));
            (outcome, Some(next))
        }
    }
}

} // verus!
