//! Per-connection dispatcher of the live protocol.
//!
//! A connection starts anonymous. `CreateSession` and `RestoreSession`
//! authenticate it; `CreateChannel` needs an authenticated connection. The
//! dispatcher never talks to storage itself: it asks for one storage call at
//! a time and is handed the answer, so the caller can route every call
//! through the single storage service. Each request ends with exactly one
//! reaction, followed by the deltas queued while it ran.
//!
//! Session keys do not expire: a restore succeeds whenever storage holds a
//! session with exactly the offered key.

use vstd::prelude::*;
use crate::generators::{generate_key, is_session_key};
use crate::protocol::{ClientToServer, Delta, LoginUpdate, Notice, Reaction, Request, ServerToClient};
use crate::storage::{
    CreateChannel, CreateSession, FindSession, FindUser, StorageAnswer, StorageCall,
    StorageReply, StorageRequest,
};
use crate::types::{Key, Password, UserId};

verus! {

/// Reason given for a failed login, whether the user is unknown or the
/// password is wrong.
pub open spec fn bad_credentials() -> Seq<char> {
    "Bad credentials."@
}

/// Reason given when no stored session has the offered key.
pub open spec fn bad_session_key() -> Seq<char> {
    "Bad session key."@
}

/// Reason given for `CreateChannel` on an anonymous connection.
pub open spec fn cannot_create_channel() -> Seq<char> {
    "Can't create channel"@
}

/// Reason given when the storage service answers a call with an answer of
/// another kind.
pub open spec fn unexpected_answer() -> Seq<char> {
    "Unexpected storage answer."@
}

/// What the dispatcher waits for.
pub ghost enum Awaiting {
    Nothing,
    /// The user record named in a login, to check the offered password.
    User { password: Seq<char> },
    /// Confirmation that a new key was stored for a user.
    SessionStored { user_id: u32, key: Seq<char> },
    /// The stored session with a key offered for restore.
    Session { key: Seq<char> },
    /// Confirmation that a channel was created.
    Channel,
}

/// A connection's state: the authenticated user, if any; the deltas not
/// yet sent; and the storage answer awaited.
pub ghost struct HandlerState {
    pub user_id: Option<u32>,
    pub queue: Seq<Notice>,
    pub awaiting: Awaiting,
}

/// What the dispatcher does next: one storage call, or the messages that
/// end the current request.
pub ghost enum Next {
    Ask(StorageCall),
    Respond(Seq<Notice>),
}

pub open spec fn initial_state() -> HandlerState {
    HandlerState { user_id: None, queue: Seq::empty(), awaiting: Awaiting::Nothing }
}

/// Ends the request with `reaction`, then every queued delta.
pub open spec fn respond(h: HandlerState, reaction: Notice) -> (HandlerState, Next) {
    (
        HandlerState { queue: Seq::empty(), awaiting: Awaiting::Nothing, ..h },
        Next::Respond(seq![reaction] + h.queue),
    )
}

/// Ends a login or restore that succeeded for `user_id` with `key`.
pub open spec fn logged_in(h: HandlerState, user_id: u32, key: Seq<char>) -> (HandlerState, Next) {
    respond(
        HandlerState { user_id: Some(user_id), queue: h.queue.push(Notice::LoggedIn(key)), ..h },
        Notice::Success,
    )
}

/// Ends a login or restore that failed, with `reason`.
pub open spec fn login_failed(h: HandlerState, reason: Seq<char>) -> (HandlerState, Next) {
    respond(HandlerState { queue: h.queue.push(Notice::LoginFail), ..h }, Notice::Fail(reason))
}

/// The step taken when a request arrives on an idle connection.
pub open spec fn on_request(h: HandlerState, req: Request) -> (HandlerState, Next) {
    match req {
        Request::CreateSession { username, password } => (
            HandlerState { awaiting: Awaiting::User { password }, ..h },
            Next::Ask(StorageCall::FindUser { username }),
        ),
        Request::RestoreSession { key } => (
            HandlerState { awaiting: Awaiting::Session { key }, ..h },
            Next::Ask(StorageCall::FindSession { key }),
        ),
        Request::CreateChannel { channel } => match h.user_id {
            Some(user_id) => (
                HandlerState { awaiting: Awaiting::Channel, ..h },
                Next::Ask(StorageCall::CreateChannel { channel, user_id }),
            ),
            None => respond(h, Notice::Fail(cannot_create_channel())),
        },
    }
}

/// The step taken when the storage answer `a` arrives; `key` is the key that
/// a successful login issues.
pub open spec fn on_answer(h: HandlerState, a: StorageAnswer, key: Seq<char>) -> (HandlerState, Next) {
    match a {
        StorageAnswer::Failed(reason) => respond(h, Notice::Fail(reason)),
        _ => match h.awaiting {
            Awaiting::User { password } => match a {
                StorageAnswer::UserFound(Some(u)) => if u.password == password {
                    (
                        HandlerState { awaiting: Awaiting::SessionStored { user_id: u.id, key }, ..h },
                        Next::Ask(StorageCall::CreateSession { user_id: u.id, key }),
                    )
                } else {
                    login_failed(h, bad_credentials())
                },
                StorageAnswer::UserFound(None) => login_failed(h, bad_credentials()),
                _ => respond(h, Notice::Fail(unexpected_answer())),
            },
            Awaiting::SessionStored { user_id, key: stored } => match a {
                StorageAnswer::Done => logged_in(h, user_id, stored),
                _ => respond(h, Notice::Fail(unexpected_answer())),
            },
            Awaiting::Session { key: offered } => match a {
                StorageAnswer::SessionFound(Some(s)) => if s.key == offered {
                    logged_in(h, s.user_id, offered)
                } else {
                    login_failed(h, bad_session_key())
                },
                StorageAnswer::SessionFound(None) => login_failed(h, bad_session_key()),
                _ => respond(h, Notice::Fail(unexpected_answer())),
            },
            Awaiting::Channel => match a {
                StorageAnswer::Done => respond(h, Notice::Success),
                _ => respond(h, Notice::Fail(unexpected_answer())),
            },
            Awaiting::Nothing => respond(h, Notice::Fail(unexpected_answer())),
        },
    }
}

/// A login whose password matches the stored one asks storage to record
/// the issued key for that user; once stored, the request ends with
/// `Success` and then `LoggedIn` carrying that key, and the connection is
/// authenticated as that user.
pub proof fn lemma_login_success(
    h: HandlerState,
    username: Seq<char>,
    password: Seq<char>,
    user: crate::storage::UserRecord,
    key: Seq<char>,
    other_key: Seq<char>,
)
    requires
        h.awaiting == Awaiting::Nothing,
        user.password == password,
    ensures
        ({
            let (h1, n1) = on_request(h, Request::CreateSession { username, password });
            let (h2, n2) = on_answer(h1, StorageAnswer::UserFound(Some(user)), key);
            let (h3, n3) = on_answer(h2, StorageAnswer::Done, other_key);
            &&& n1 == Next::Ask(StorageCall::FindUser { username })
            &&& n2 == Next::Ask(StorageCall::CreateSession { user_id: user.id, key })
            &&& n3 == Next::Respond(seq![Notice::Success] + h.queue.push(Notice::LoggedIn(key)))
            &&& h3.user_id == Some(user.id)
            &&& h3.awaiting == Awaiting::Nothing
        }),
{
}

/// An unknown user and a wrong password end a login the same way: `Fail`
/// with the same reason, then `LoginFail`, with the connection's user left
/// as it was.
pub proof fn lemma_login_failure_indistinguishable(
    h: HandlerState,
    username: Seq<char>,
    password: Seq<char>,
    found: crate::storage::UserRecord,
    key: Seq<char>,
)
    requires
        h.awaiting == Awaiting::Nothing,
        found.password != password,
    ensures
        ({
            let (h1, _) = on_request(h, Request::CreateSession { username, password });
            let unknown = on_answer(h1, StorageAnswer::UserFound(None), key);
            let wrong = on_answer(h1, StorageAnswer::UserFound(Some(found)), key);
            &&& unknown == wrong
            &&& unknown.1 == Next::Respond(
                seq![Notice::Fail(bad_credentials())] + h.queue.push(Notice::LoginFail),
            )
            &&& unknown.0.user_id == h.user_id
        }),
{
}

/// On a new connection, restoring with a key that storage maps to a user
/// ends with `Success` and `LoggedIn` carrying the same key, and binds the
/// connection to that user.
pub proof fn lemma_restore_session(key: Seq<char>, user_id: u32, unused: Seq<char>)
    ensures
        ({
            let (h1, n1) = on_request(initial_state(), Request::RestoreSession { key });
            let session = crate::storage::SessionRecord { key, user_id };
            let (h2, n2) = on_answer(h1, StorageAnswer::SessionFound(Some(session)), unused);
            &&& n1 == Next::Ask(StorageCall::FindSession { key })
            &&& n2 == Next::Respond(seq![Notice::Success, Notice::LoggedIn(key)])
            &&& h2.user_id == Some(user_id)
        }),
{
    assert(seq![Notice::Success] + seq![Notice::LoggedIn(key)] =~= seq![
        Notice::Success,
        Notice::LoggedIn(key),
    ]);
}

/// `CreateChannel` on an anonymous connection asks storage for nothing, so
/// no channel is created, and ends with `Fail` and the same state.
pub proof fn lemma_anonymous_cannot_create_channel(h: HandlerState, channel: Seq<char>)
    requires
        h.awaiting == Awaiting::Nothing,
        h.user_id == None::<u32>,
    ensures
        ({
            let (h1, n1) = on_request(h, Request::CreateChannel { channel });
            &&& n1 == Next::Respond(seq![Notice::Fail(cannot_create_channel())] + h.queue)
            &&& h1 == (HandlerState { queue: Seq::empty(), ..h })
        }),
{
}

/// A reaction ends a request; every other notice is a delta.
pub open spec fn is_reaction(n: Notice) -> bool {
    n is Success || n is Fail
}

pub open spec fn only_deltas(s: Seq<Notice>) -> bool {
    forall|i: int| 0 <= i < s.len() ==> !is_reaction(#[trigger] s[i])
}

/// A step that ends a request sends exactly one reaction, first, and then
/// only deltas.
pub open spec fn one_reaction(next: Next) -> bool {
    match next {
        Next::Respond(msgs) => msgs.len() >= 1 && is_reaction(msgs[0]) && only_deltas(
            msgs.drop_first(),
        ),
        Next::Ask(_) => true,
    }
}

proof fn lemma_respond_one_reaction(h: HandlerState, reaction: Notice)
    requires
        only_deltas(h.queue),
        is_reaction(reaction),
    ensures
        one_reaction(respond(h, reaction).1),
        only_deltas(respond(h, reaction).0.queue),
{
    assert((seq![reaction] + h.queue).drop_first() =~= h.queue);
}

proof fn lemma_push_delta(q: Seq<Notice>, d: Notice)
    requires
        only_deltas(q),
        !is_reaction(d),
    ensures
        only_deltas(q.push(d)),
{
    assert forall|i: int| 0 <= i < q.push(d).len() implies !is_reaction(#[trigger] q.push(d)[i]) by {
        if i < q.len() {
            assert(q.push(d)[i] == q[i]);
        }
    }
}

/// Every request ends with exactly one reaction, sent before the deltas
/// that accompany it, whatever the request and whatever storage answers.
pub proof fn lemma_one_reaction_per_request(
    h: HandlerState,
    req: Request,
    a: StorageAnswer,
    key: Seq<char>,
)
    requires
        only_deltas(h.queue),
    ensures
        one_reaction(on_request(h, req).1),
        only_deltas(on_request(h, req).0.queue),
        one_reaction(on_answer(h, a, key).1),
        only_deltas(on_answer(h, a, key).0.queue),
{
    lemma_respond_one_reaction(h, Notice::Fail(cannot_create_channel()));
    lemma_respond_one_reaction(h, Notice::Success);
    lemma_respond_one_reaction(h, Notice::Fail(unexpected_answer()));
    if let StorageAnswer::Failed(reason) = a {
        lemma_respond_one_reaction(h, Notice::Fail(reason));
    }
    lemma_push_delta(h.queue, Notice::LoginFail);
    let failed = HandlerState { queue: h.queue.push(Notice::LoginFail), ..h };
    lemma_respond_one_reaction(failed, Notice::Fail(bad_credentials()));
    lemma_respond_one_reaction(failed, Notice::Fail(bad_session_key()));
    match h.awaiting {
        Awaiting::SessionStored { user_id, key: stored } => {
            lemma_push_delta(h.queue, Notice::LoggedIn(stored));
            let ok = HandlerState { user_id: Some(user_id), queue: h.queue.push(Notice::LoggedIn(stored)), ..h };
            lemma_respond_one_reaction(ok, Notice::Success);
        },
        Awaiting::Session { key: offered } => {
            if let StorageAnswer::SessionFound(Some(s)) = a {
                lemma_push_delta(h.queue, Notice::LoggedIn(offered));
                let ok = HandlerState {
                    user_id: Some(s.user_id),
                    queue: h.queue.push(Notice::LoggedIn(offered)),
                    ..h
                };
                lemma_respond_one_reaction(ok, Notice::Success);
            }
        },
        _ => {},
    }
}

enum Stage {
    Idle,
    FindingUser { password: Password },
    StoringSession { user_id: UserId, key: Key },
    FindingSession { key: Key },
    CreatingChannel,
}

/// What the dispatcher asks of its caller.
#[derive(Debug, PartialEq, Eq)]
pub enum Step {
    /// Make this storage call and hand its answer to `process_reply`.
    Ask(StorageRequest),
    /// The request is done: send these messages, in order.
    Respond(Vec<ServerToClient>),
}

impl View for Step {
    type V = Next;

    open spec fn view(&self) -> Next {
        match self {
            Step::Ask(r) => Next::Ask(r@),
            Step::Respond(msgs) => Next::Respond(msgs@.map_values(|m: ServerToClient| m@)),
        }
    }
}

/// Dispatcher state of one live connection.
pub struct LiveHandler {
    user_id: Option<UserId>,
    queue: Vec<Delta>,
    stage: Stage,
}

impl View for LiveHandler {
    type V = HandlerState;

    closed spec fn view(&self) -> HandlerState {
        HandlerState {
            user_id: match self.user_id {
                Some(u) => Some(u.0),
                None => None,
            },
            queue: self.queue@.map_values(|d: Delta| d@),
            awaiting: match self.stage {
                Stage::Idle => Awaiting::Nothing,
                Stage::FindingUser { password } => Awaiting::User { password: password@ },
                Stage::StoringSession { user_id, key } => Awaiting::SessionStored {
                    user_id: user_id.0,
                    key: key@,
                },
                Stage::FindingSession { key } => Awaiting::Session { key: key@ },
                Stage::CreatingChannel => Awaiting::Channel,
            },
        }
    }
}

impl LiveHandler {
    /// A handler for a newly accepted, anonymous connection.
    pub fn new() -> (r: Self)
        ensures
            r@ == initial_state(),
    {
        let r = LiveHandler { user_id: None, queue: Vec::new(), stage: Stage::Idle };
        assert(r@.queue =~= Seq::<Notice>::empty());
        r
    }

    /// The user this connection is authenticated as.
    pub fn user_id(&self) -> (r: Option<UserId>)
        ensures
            self@.user_id == match r {
                Some(u) => Some(u.0),
                None => None::<u32>,
            },
    {
        self.user_id
    }

    /// Whether the handler waits for no storage answer, and so can take a
    /// request.
    pub fn is_idle(&self) -> (r: bool)
        ensures
            r == (self@.awaiting == Awaiting::Nothing),
    {
        match self.stage {
            Stage::Idle => true,
            _ => false,
        }
    }

    /// Queues a delta to go out after the current request's reaction.
    pub fn schedule(&mut self, delta: Delta)
        ensures
            final(self)@ == (HandlerState { queue: old(self)@.queue.push(delta@), ..old(self)@ }),
    {
        let ghost d = delta@;
        self.queue.push(delta);
        assert(self@.queue =~= old(self)@.queue.push(d));
    }

    /// Ends the current request with `reaction` followed by the queued deltas.
    fn respond(&mut self, reaction: Reaction) -> (r: Step)
        ensures
            (final(self)@, r@) == respond(old(self)@, reaction@),
    {
        let ghost start = self@;
        let mut taken: Vec<Delta> = Vec::new();
        std::mem::swap(&mut self.queue, &mut taken);
        self.stage = Stage::Idle;
        let ghost rest = taken@.map_values(|d: Delta| d@);
        assert(rest == start.queue);
        let mut out: Vec<ServerToClient> = Vec::new();
        let ghost first = reaction@;
        out.push(ServerToClient::Reaction(reaction));
        let ghost n = taken@.len();
        while taken.len() > 0
            invariant
                taken@.len() <= n,
                n == rest.len(),
                out@.map_values(|m: ServerToClient| m@) =~= seq![first] + rest.subrange(
                    0,
                    n - taken@.len(),
                ),
                taken@.map_values(|d: Delta| d@) =~= rest.subrange(n - taken@.len(), n as int),
            decreases taken@.len(),
        {
            let ghost before = taken@;
            let ghost shown = out@;
            let ghost k = n - before.len();
            let d = taken.remove(0);
            assert(before.map_values(|d: Delta| d@)[0] == d@);
            assert(rest[k] == d@);
            out.push(ServerToClient::Delta(d));
            assert(taken@.map_values(|d: Delta| d@) =~= before.map_values(|d: Delta| d@).subrange(
                1,
                before.len() as int,
            ));
            assert(out@.map_values(|m: ServerToClient| m@) =~= shown.map_values(
                |m: ServerToClient| m@,
            ).push(d@));
            assert(rest.subrange(0, k + 1) =~= rest.subrange(0, k).push(rest[k]));
        }
        assert(rest.subrange(0, n as int) =~= rest);
        assert(out@.map_values(|m: ServerToClient| m@) =~= seq![first] + rest);
        assert(self@.queue =~= Seq::<Notice>::empty());
        assert(self@ == respond(start, first).0);
        Step::Respond(out)
    }

    /// Ends a login or restore that succeeded.
    fn log_in(&mut self, user_id: UserId, key: Key) -> (r: Step)
        ensures
            (final(self)@, r@) == logged_in(old(self)@, user_id.0, key@),
    {
        self.user_id = Some(user_id);
        self.schedule(Delta::LoginUpdate(LoginUpdate::LoggedIn { key }));
        self.respond(Reaction::Success)
    }

    /// Ends a login or restore that failed.
    fn fail_login(&mut self, reason: String) -> (r: Step)
        ensures
            (final(self)@, r@) == login_failed(old(self)@, reason@),
    {
        self.schedule(Delta::LoginUpdate(LoginUpdate::LoginFail));
        self.respond(Reaction::Fail(reason))
    }

    /// Takes a request on an idle connection and starts on it.
    pub fn process_request(&mut self, request: ClientToServer) -> (r: Step)
        requires
            old(self)@.awaiting == Awaiting::Nothing,
        ensures
            (final(self)@, r@) == on_request(old(self)@, request@),
    {
        match request {
            ClientToServer::CreateSession(creds) => {
                self.stage = Stage::FindingUser { password: creds.password };
                Step::Ask(StorageRequest::FindUser(FindUser { username: creds.username }))
            },
            ClientToServer::RestoreSession(key) => {
                let asked = key.duplicate();
                self.stage = Stage::FindingSession { key };
                Step::Ask(StorageRequest::FindSession(FindSession { key: asked }))
            },
            ClientToServer::CreateChannel(channel) => match self.user_id {
                Some(user_id) => {
                    self.stage = Stage::CreatingChannel;
                    Step::Ask(StorageRequest::CreateChannel(CreateChannel { channel, user_id }))
                },
                None => self.respond(Reaction::Fail("Can't create channel".to_owned())),
            },
        }
    }

    /// Takes the storage answer to the call last asked for; `key` is issued
    /// if that answer completes a login.
    pub fn advance(&mut self, reply: StorageReply, key: Key) -> (r: Step)
        requires
            old(self)@.awaiting != Awaiting::Nothing,
        ensures
            (final(self)@, r@) == on_answer(old(self)@, reply@, key@),
    {
        if let StorageReply::Failed(reason) = reply {
            return self.respond(Reaction::Fail(reason));
        }
        let mut stage = Stage::Idle;
        std::mem::swap(&mut self.stage, &mut stage);
        let ghost h = old(self)@;
        assert(self@ == (HandlerState { awaiting: Awaiting::Nothing, ..h }));
        match stage {
            Stage::FindingUser { password } => match reply {
                StorageReply::UserFound(Some(user)) => if user.password.same(&password) {
                    let asked = key.duplicate();
                    self.stage = Stage::StoringSession { user_id: user.id, key };
                    Step::Ask(StorageRequest::CreateSession(CreateSession { user_id: user.id, key: asked }))
                } else {
                    self.fail_login("Bad credentials.".to_owned())
                },
                StorageReply::UserFound(None) => self.fail_login("Bad credentials.".to_owned()),
                _ => self.respond(Reaction::Fail("Unexpected storage answer.".to_owned())),
            },
            Stage::StoringSession { user_id, key: stored } => match reply {
                StorageReply::Done => self.log_in(user_id, stored),
                _ => self.respond(Reaction::Fail("Unexpected storage answer.".to_owned())),
            },
            Stage::FindingSession { key: offered } => match reply {
                StorageReply::SessionFound(Some(session)) => if session.key.same(&offered) {
                    self.log_in(session.user_id, offered)
                } else {
                    self.fail_login("Bad session key.".to_owned())
                },
                StorageReply::SessionFound(None) => self.fail_login("Bad session key.".to_owned()),
                _ => self.respond(Reaction::Fail("Unexpected storage answer.".to_owned())),
            },
            Stage::CreatingChannel => match reply {
                StorageReply::Done => self.respond(Reaction::Success),
                _ => self.respond(Reaction::Fail("Unexpected storage answer.".to_owned())),
            },
            Stage::Idle => self.respond(Reaction::Fail("Unexpected storage answer.".to_owned())),
        }
    }

    /// Takes the storage answer to the call last asked for. A random key of
    /// the session-key shape is drawn for each answer; it is issued only if
    /// the answer shows that a login's password matches.
    pub fn process_reply(&mut self, reply: StorageReply) -> (r: Step)
        requires
            old(self)@.awaiting != Awaiting::Nothing,
        ensures
            exists|key: Seq<char>|
                is_session_key(key) && (final(self)@, r@) == on_answer(old(self)@, reply@, key),
    {
        let key = generate_key();
        self.advance(reply, key)
    }
}

} // verus!
