//! Client side of the live protocol: keeps a connection logged in and sends
//! requests one at a time.
//!
//! The connector decides; its host performs. Each event returns the effects
//! to carry out in order: messages to send, the login key to store or
//! remove in the host's persistent storage, and status notifications.
//! After a reconnect it logs in again with the last key it was given, and
//! asks for credentials only when it has none. A request is sent only when
//! connected and when the previous one has had its reaction; later ones wait
//! in order.

use vstd::prelude::*;
use crate::protocol::{ClientToServer, Delta, LoginUpdate, Request, ServerToClient};
use crate::types::{ChannelName, Credentials, Key};

verus! {

#[derive(Debug, PartialEq, Eq)]
pub enum ConnectionStatus {
    Disconnected,
    Connected,
}

#[derive(Debug, PartialEq, Eq)]
pub enum LoginStatus {
    Unauthorized,
    NeedCredentials { fail: Option<String> },
    LoggedIn,
}

#[derive(Debug, PartialEq, Eq)]
pub enum Notification {
    ConnectionStatus(ConnectionStatus),
    LoginStatus(LoginStatus),
}

/// Something the host must do.
#[derive(Debug, PartialEq, Eq)]
pub enum Effect {
    /// Send this request on the connection.
    Send(ClientToServer),
    /// Keep this key in persistent storage.
    StoreKey(Key),
    /// Forget the stored key.
    RemoveKey,
    /// Tell every subscriber.
    Notify(Notification),
}

pub ghost enum Login {
    Unauthorized,
    NeedCredentials(Option<Seq<char>>),
    LoggedIn,
}

/// How the connector logs in.
pub ghost enum Method {
    ByKey(Seq<char>),
    ByCredentials(Seq<char>, Seq<char>),
}

pub ghost enum Action {
    Send(Request),
    StoreKey(Seq<char>),
    RemoveKey,
    ConnectionChanged(bool),
    LoginChanged(Login),
}

/// The connector's state: whether it is connected, the login status it last
/// announced, how it logs in next, the requests waiting to be sent, and
/// whether a sent request still awaits its reaction.
pub ghost struct ConnectorState {
    pub connected: bool,
    pub login: Login,
    pub method: Option<Method>,
    pub queue: Seq<Request>,
    pub active: bool,
}

pub open spec fn session_expired() -> Seq<char> {
    "Session expired"@
}

pub open spec fn credentials_refused() -> Seq<char> {
    "Bad credentials"@
}

pub open spec fn start(stored_key: Option<Seq<char>>) -> ConnectorState {
    ConnectorState {
        connected: false,
        login: Login::Unauthorized,
        method: match stored_key {
            Some(k) => Some(Method::ByKey(k)),
            None => None,
        },
        queue: Seq::empty(),
        active: false,
    }
}

/// Sends the oldest waiting request if connected and none is in flight.
pub open spec fn dispatch(s: ConnectorState) -> (ConnectorState, Seq<Action>) {
    if s.connected && !s.active && s.queue.len() > 0 {
        (
            ConnectorState { queue: s.queue.drop_first(), active: true, ..s },
            seq![Action::Send(s.queue[0])],
        )
    } else {
        (s, Seq::empty())
    }
}

/// Starts a login ahead of any waiting request, or asks for credentials
/// when there is no way to log in.
pub open spec fn login(s: ConnectorState) -> (ConnectorState, Seq<Action>) {
    match s.method {
        Some(Method::ByKey(key)) => dispatch(
            ConnectorState { queue: seq![Request::RestoreSession { key }] + s.queue, ..s },
        ),
        Some(Method::ByCredentials(username, password)) => dispatch(
            ConnectorState {
                queue: seq![Request::CreateSession { username, password }] + s.queue,
                ..s
            },
        ),
        None => (
            ConnectorState { login: Login::NeedCredentials(None), ..s },
            seq![Action::LoginChanged(Login::NeedCredentials(None))],
        ),
    }
}

pub open spec fn on_opened(s: ConnectorState) -> (ConnectorState, Seq<Action>) {
    let (t, a) = login(ConnectorState { connected: true, ..s });
    (t, seq![Action::ConnectionChanged(true)] + a)
}

/// A closed connection loses the request in flight; waiting ones stay.
pub open spec fn on_closed(s: ConnectorState) -> (ConnectorState, Seq<Action>) {
    (
        ConnectorState { connected: false, active: false, ..s },
        seq![Action::ConnectionChanged(false)],
    )
}

pub open spec fn on_reaction(s: ConnectorState) -> (ConnectorState, Seq<Action>) {
    dispatch(ConnectorState { active: false, ..s })
}

pub open spec fn on_logged_in(s: ConnectorState, key: Seq<char>) -> (ConnectorState, Seq<Action>) {
    (
        ConnectorState { login: Login::LoggedIn, method: Some(Method::ByKey(key)), ..s },
        seq![Action::LoginChanged(Login::LoggedIn), Action::StoreKey(key)],
    )
}

/// A refused login forgets how it was attempted and asks for credentials,
/// saying whether a key expired or credentials were refused.
pub open spec fn on_login_fail(s: ConnectorState) -> (ConnectorState, Seq<Action>) {
    let fail = match s.method {
        Some(Method::ByKey(_)) => Some(session_expired()),
        Some(Method::ByCredentials(_, _)) => Some(credentials_refused()),
        None => None,
    };
    (
        ConnectorState { login: Login::NeedCredentials(fail), method: None, ..s },
        seq![Action::LoginChanged(Login::NeedCredentials(fail))],
    )
}

/// New credentials replace the stored key and start a login with them.
pub open spec fn on_credentials(s: ConnectorState, username: Seq<char>, password: Seq<char>) -> (
    ConnectorState,
    Seq<Action>,
) {
    let (t, a) = login(
        ConnectorState { method: Some(Method::ByCredentials(username, password)), ..s },
    );
    (t, seq![Action::RemoveKey] + a)
}

pub open spec fn on_create_channel(s: ConnectorState, channel: Seq<char>) -> (
    ConnectorState,
    Seq<Action>,
) {
    dispatch(ConnectorState { queue: s.queue.push(Request::CreateChannel { channel }), ..s })
}

pub open spec fn on_message(s: ConnectorState, n: crate::protocol::Notice) -> (
    ConnectorState,
    Seq<Action>,
) {
    match n {
        crate::protocol::Notice::LoggedIn(key) => on_logged_in(s, key),
        crate::protocol::Notice::LoginFail => on_login_fail(s),
        _ => on_reaction(s),
    }
}

/// After a login that issued `key`, a dropped and reopened connection logs
/// in again by restoring the session with that key, ahead of any waiting
/// request, without asking for credentials.
pub proof fn lemma_reconnect_restores_session(s: ConnectorState, key: Seq<char>)
    ensures
        ({
            let s1 = on_logged_in(s, key).0;
            let s2 = on_closed(s1).0;
            let (s3, a) = on_opened(s2);
            &&& a == seq![
                Action::ConnectionChanged(true),
                Action::Send(Request::RestoreSession { key }),
            ]
            &&& s3.queue == s.queue
            &&& s3.active
            &&& s3.login == Login::LoggedIn
        }),
{
    let s2 = on_closed(on_logged_in(s, key).0).0;
    let q = seq![Request::RestoreSession { key }] + s2.queue;
    assert(q.drop_first() =~= s.queue);
    assert(seq![Action::ConnectionChanged(true)] + seq![Action::Send(q[0])] =~= seq![
        Action::ConnectionChanged(true),
        Action::Send(Request::RestoreSession { key }),
    ]);
}

/// A connector started with a stored key restores that session on its
/// first connection; one started without asks for credentials and sends
/// nothing.
pub proof fn lemma_first_login(key: Seq<char>)
    ensures
        on_opened(start(Some(key))).1 == seq![
            Action::ConnectionChanged(true),
            Action::Send(Request::RestoreSession { key }),
        ],
        on_opened(start(None)).1 == seq![
            Action::ConnectionChanged(true),
            Action::LoginChanged(Login::NeedCredentials(None)),
        ],
{
    assert(seq![Action::ConnectionChanged(true)] + seq![
        Action::Send(Request::RestoreSession { key }),
    ] =~= seq![Action::ConnectionChanged(true), Action::Send(Request::RestoreSession { key })]);
    assert(seq![Action::ConnectionChanged(true)] + seq![
        Action::LoginChanged(Login::NeedCredentials(None)),
    ] =~= seq![
        Action::ConnectionChanged(true),
        Action::LoginChanged(Login::NeedCredentials(None)),
    ]);
}

pub open spec fn no_send(a: Seq<Action>) -> bool {
    forall|i: int| 0 <= i < a.len() ==> !(#[trigger] a[i] is Send)
}

/// While a request awaits its reaction, no event but that reaction (or the
/// connection closing) lets another request out; the reaction lets out at
/// most one.
pub proof fn lemma_one_request_in_flight(
    s: ConnectorState,
    username: Seq<char>,
    password: Seq<char>,
    channel: Seq<char>,
    key: Seq<char>,
)
    requires
        s.active,
    ensures
        no_send(on_opened(s).1) && on_opened(s).0.active,
        no_send(on_credentials(s, username, password).1) && on_credentials(
            s,
            username,
            password,
        ).0.active,
        no_send(on_create_channel(s, channel).1) && on_create_channel(s, channel).0.active,
        no_send(on_logged_in(s, key).1) && on_logged_in(s, key).0.active,
        no_send(on_login_fail(s).1) && on_login_fail(s).0.active,
        on_reaction(s).1.len() <= 1,
{
    let opened = ConnectorState { connected: true, ..s };
    assert(seq![Action::ConnectionChanged(true)] + Seq::<Action>::empty() =~= seq![
        Action::ConnectionChanged(true),
    ]);
    assert(seq![Action::RemoveKey] + Seq::<Action>::empty() =~= seq![Action::RemoveKey]);
    if opened.method is None {
        assert(seq![Action::ConnectionChanged(true)] + login(opened).1 =~= seq![
            Action::ConnectionChanged(true),
            Action::LoginChanged(Login::NeedCredentials(None)),
        ]);
    }
    assert(on_credentials(s, username, password).1 =~= seq![Action::RemoveKey]);
}

impl View for LoginStatus {
    type V = Login;

    open spec fn view(&self) -> Login {
        match self {
            LoginStatus::Unauthorized => Login::Unauthorized,
            LoginStatus::NeedCredentials { fail } => Login::NeedCredentials(
                match fail {
                    Some(f) => Some(f@),
                    None => None,
                },
            ),
            LoginStatus::LoggedIn => Login::LoggedIn,
        }
    }
}

impl View for Effect {
    type V = Action;

    open spec fn view(&self) -> Action {
        match self {
            Effect::Send(m) => Action::Send(m@),
            Effect::StoreKey(k) => Action::StoreKey(k@),
            Effect::RemoveKey => Action::RemoveKey,
            Effect::Notify(Notification::ConnectionStatus(c)) => Action::ConnectionChanged(
                c is Connected,
            ),
            Effect::Notify(Notification::LoginStatus(l)) => Action::LoginChanged(l@),
        }
    }
}

pub open spec fn actions(effects: Seq<Effect>) -> Seq<Action> {
    effects.map_values(|e: Effect| e@)
}

enum LoginBy {
    ByKey(Key),
    ByCredentials(Credentials),
}

/// Login and request state of one live connection, on the client's side.
pub struct Connector {
    connected: bool,
    login_status: LoginStatus,
    login_by: Option<LoginBy>,
    queue: Vec<ClientToServer>,
    active: bool,
}

impl View for Connector {
    type V = ConnectorState;

    closed spec fn view(&self) -> ConnectorState {
        ConnectorState {
            connected: self.connected,
            login: self.login_status@,
            method: match self.login_by {
                Some(LoginBy::ByKey(k)) => Some(Method::ByKey(k@)),
                Some(LoginBy::ByCredentials(c)) => Some(
                    Method::ByCredentials(c.username@, c.password@),
                ),
                None => None,
            },
            queue: self.queue@.map_values(|m: ClientToServer| m@),
            active: self.active,
        }
    }
}

fn copy_status(s: &LoginStatus) -> (r: LoginStatus)
    ensures
        r@ == s@,
{
    match s {
        LoginStatus::Unauthorized => LoginStatus::Unauthorized,
        LoginStatus::NeedCredentials { fail } => LoginStatus::NeedCredentials {
            fail: match fail {
                Some(f) => Some(f.clone()),
                None => None,
            },
        },
        LoginStatus::LoggedIn => LoginStatus::LoggedIn,
    }
}

/// Appends `e` to `effects`.
fn emit(effects: &mut Vec<Effect>, e: Effect)
    ensures
        actions(final(effects)@) == actions(old(effects)@).push(e@),
{
    let ghost a = e@;
    effects.push(e);
    assert(actions(effects@) =~= actions(old(effects)@).push(a));
}

impl Connector {
    /// A connector that is not yet connected; `stored_key` is the login key
    /// kept from an earlier session, if any.
    pub fn new(stored_key: Option<Key>) -> (r: Self)
        ensures
            r@ == start(
                match stored_key {
                    Some(k) => Some(k@),
                    None => None,
                },
            ),
    {
        let login_by = match stored_key {
            Some(k) => Some(LoginBy::ByKey(k)),
            None => None,
        };
        let r = Connector {
            connected: false,
            login_status: LoginStatus::Unauthorized,
            login_by,
            queue: Vec::new(),
            active: false,
        };
        assert(r@.queue =~= Seq::<Request>::empty());
        r
    }

    fn dispatch(&mut self, effects: &mut Vec<Effect>)
        ensures
            final(self)@ == dispatch(old(self)@).0,
            actions(final(effects)@) == actions(old(effects)@) + dispatch(old(self)@).1,
    {
        if self.connected && !self.active && self.queue.len() > 0 {
            let ghost q = self@.queue;
            let msg = self.queue.remove(0);
            self.active = true;
            assert(self@.queue =~= q.drop_first());
            emit(effects, Effect::Send(msg));
            assert(actions(effects@) =~= actions(old(effects)@) + seq![Action::Send(q[0])]);
        } else {
            assert(actions(effects@) =~= actions(old(effects)@) + Seq::<Action>::empty());
        }
    }

    fn set_login_status(&mut self, status: LoginStatus, effects: &mut Vec<Effect>)
        ensures
            final(self)@ == (ConnectorState { login: status@, ..old(self)@ }),
            actions(final(effects)@) == actions(old(effects)@).push(Action::LoginChanged(status@)),
    {
        let note = copy_status(&status);
        self.login_status = status;
        emit(effects, Effect::Notify(Notification::LoginStatus(note)));
    }

    fn login(&mut self, effects: &mut Vec<Effect>)
        ensures
            final(self)@ == login(old(self)@).0,
            actions(final(effects)@) == actions(old(effects)@) + login(old(self)@).1,
    {
        let msg = match &self.login_by {
            Some(LoginBy::ByKey(k)) => Some(ClientToServer::RestoreSession(k.duplicate())),
            Some(LoginBy::ByCredentials(c)) => Some(
                ClientToServer::CreateSession(
                    Credentials { username: c.username.duplicate(), password: c.password.duplicate() },
                ),
            ),
            None => None,
        };
        match msg {
            Some(m) => {
                let ghost q = self@.queue;
                let ghost v = m@;
                self.queue.insert(0, m);
                assert(self@.queue =~= seq![v] + q);
                self.dispatch(effects);
            },
            None => {
                self.set_login_status(LoginStatus::NeedCredentials { fail: None }, effects);
                assert(actions(effects@) =~= actions(old(effects)@) + login(old(self)@).1);
            },
        }
    }

    /// The connection opened: announce it and log in.
    pub fn opened(&mut self) -> (r: Vec<Effect>)
        ensures
            (final(self)@, actions(r@)) == on_opened(old(self)@),
    {
        let mut effects: Vec<Effect> = Vec::new();
        self.connected = true;
        emit(&mut effects, Effect::Notify(Notification::ConnectionStatus(ConnectionStatus::Connected)));
        self.login(&mut effects);
        effects
    }

    /// The connection closed or failed.
    pub fn closed(&mut self) -> (r: Vec<Effect>)
        ensures
            (final(self)@, actions(r@)) == on_closed(old(self)@),
    {
        let mut effects: Vec<Effect> = Vec::new();
        self.connected = false;
        self.active = false;
        emit(&mut effects, Effect::Notify(Notification::ConnectionStatus(ConnectionStatus::Disconnected)));
        assert(actions(effects@) =~= seq![Action::ConnectionChanged(false)]);
        effects
    }

    /// A message from the server arrived.
    pub fn receive(&mut self, msg: ServerToClient) -> (r: Vec<Effect>)
        ensures
            (final(self)@, actions(r@)) == on_message(old(self)@, msg@),
    {
        let mut effects: Vec<Effect> = Vec::new();
        match msg {
            ServerToClient::Reaction(_) => {
                self.active = false;
                self.dispatch(&mut effects);
                assert(actions(effects@) =~= on_message(old(self)@, msg@).1);
            },
            ServerToClient::Delta(Delta::LoginUpdate(LoginUpdate::LoggedIn { key })) => {
                let stored = key.duplicate();
                self.set_login_status(LoginStatus::LoggedIn, &mut effects);
                self.login_by = Some(LoginBy::ByKey(key));
                emit(&mut effects, Effect::StoreKey(stored));
                assert(actions(effects@) =~= on_message(old(self)@, msg@).1);
            },
            ServerToClient::Delta(Delta::LoginUpdate(LoginUpdate::LoginFail)) => {
                let mut method = None;
                std::mem::swap(&mut self.login_by, &mut method);
                let fail = match method {
                    Some(LoginBy::ByKey(_)) => Some("Session expired".to_owned()),
                    Some(LoginBy::ByCredentials(_)) => Some("Bad credentials".to_owned()),
                    None => None,
                };
                self.set_login_status(LoginStatus::NeedCredentials { fail }, &mut effects);
                assert(actions(effects@) =~= on_message(old(self)@, msg@).1);
            },
        }
        effects
    }

    /// The user gave credentials: they replace the stored key, and a login
    /// with them starts.
    pub fn set_credentials(&mut self, creds: Credentials) -> (r: Vec<Effect>)
        ensures
            (final(self)@, actions(r@)) == on_credentials(
                old(self)@,
                creds.username@,
                creds.password@,
            ),
    {
        let mut effects: Vec<Effect> = Vec::new();
        emit(&mut effects, Effect::RemoveKey);
        self.login_by = Some(LoginBy::ByCredentials(creds));
        self.login(&mut effects);
        effects
    }

    /// Asks for a channel to be created, after the requests already waiting.
    pub fn create_channel(&mut self, channel: ChannelName) -> (r: Vec<Effect>)
        ensures
            (final(self)@, actions(r@)) == on_create_channel(old(self)@, channel@),
    {
        let mut effects: Vec<Effect> = Vec::new();
        let ghost q = self@.queue;
        let ghost c = channel@;
        self.queue.push(ClientToServer::CreateChannel(channel));
        assert(self@.queue =~= q.push(Request::CreateChannel { channel: c }));
        self.dispatch(&mut effects);
        assert(actions(effects@) =~= on_create_channel(old(self)@, c).1);
        effects
    }
}

} // verus!
