use tody_chat::live::{LiveHandler, Step};
use tody_chat::protocol::{ClientToServer, Delta, LoginUpdate, Reaction, ServerToClient};
use tody_chat::storage::{
    CreateChannel, CreateSession, FindSession, FindUser, StorageReply, StorageRequest,
};
use tody_chat::types::{
    ChannelName, Credentials, Key, Password, Session, SessionId, User, UserId, Username,
};

fn creds(u: &str, p: &str) -> ClientToServer {
    ClientToServer::CreateSession(Credentials {
        username: Username(u.to_string()),
        password: Password(p.to_string()),
    })
}

fn alice() -> User {
    User { id: UserId(1), username: Username("alice".to_string()), password: Password("p1".to_string()) }
}

fn fail(reason: &str) -> ServerToClient {
    ServerToClient::Reaction(Reaction::Fail(reason.to_string()))
}

fn login(h: &mut LiveHandler) -> Key {
    let step = h.process_request(creds("alice", "p1"));
    assert_eq!(
        step,
        Step::Ask(StorageRequest::FindUser(FindUser { username: Username("alice".to_string()) }))
    );
    let key = match h.process_reply(StorageReply::UserFound(Some(alice()))) {
        Step::Ask(StorageRequest::CreateSession(CreateSession { user_id, key })) => {
            assert_eq!(user_id, UserId(1));
            key
        }
        other => panic!("unexpected step {:?}", other),
    };
    let step = h.process_reply(StorageReply::Done);
    assert_eq!(
        step,
        Step::Respond(vec![
            ServerToClient::Reaction(Reaction::Success),
            ServerToClient::Delta(Delta::LoginUpdate(LoginUpdate::LoggedIn { key: Key(key.0.clone()) })),
        ])
    );
    key
}

#[test]
fn login_success() {
    let mut h = LiveHandler::new();
    let key = login(&mut h);
    assert_eq!(key.0.len(), 30);
    assert!(key.0.chars().all(|c| c.is_ascii_alphanumeric()));
    assert_eq!(h.user_id(), Some(UserId(1)));
    assert!(h.is_idle());
}

#[test]
fn logins_issue_different_keys() {
    let mut a = LiveHandler::new();
    let mut b = LiveHandler::new();
    assert_ne!(login(&mut a), login(&mut b));
}

#[test]
fn login_failure_indistinguishable() {
    let mut wrong = LiveHandler::new();
    wrong.process_request(creds("alice", "wrong"));
    let a = wrong.process_reply(StorageReply::UserFound(Some(alice())));
    let mut unknown = LiveHandler::new();
    unknown.process_request(creds("nobody", "anything"));
    let b = unknown.process_reply(StorageReply::UserFound(None));
    let expected = Step::Respond(vec![
        fail("Bad credentials."),
        ServerToClient::Delta(Delta::LoginUpdate(LoginUpdate::LoginFail)),
    ]);
    assert_eq!(a, expected);
    assert_eq!(b, expected);
    assert_eq!(wrong.user_id(), None);
    assert_eq!(unknown.user_id(), None);
}

#[test]
fn session_restore_round_trip() {
    let mut first = LiveHandler::new();
    let key = login(&mut first);
    let mut second = LiveHandler::new();
    let step = second.process_request(ClientToServer::RestoreSession(Key(key.0.clone())));
    assert_eq!(
        step,
        Step::Ask(StorageRequest::FindSession(FindSession { key: Key(key.0.clone()) }))
    );
    let stored = Session { id: SessionId(5), key: Key(key.0.clone()), user_id: UserId(1) };
    let step = second.process_reply(StorageReply::SessionFound(Some(stored)));
    assert_eq!(
        step,
        Step::Respond(vec![
            ServerToClient::Reaction(Reaction::Success),
            ServerToClient::Delta(Delta::LoginUpdate(LoginUpdate::LoggedIn { key: Key(key.0.clone()) })),
        ])
    );
    assert_eq!(second.user_id(), first.user_id());
}

#[test]
fn restore_with_unknown_key_fails() {
    let mut h = LiveHandler::new();
    h.process_request(ClientToServer::RestoreSession(Key("nope".to_string())));
    let step = h.process_reply(StorageReply::SessionFound(None));
    assert_eq!(
        step,
        Step::Respond(vec![
            fail("Bad session key."),
            ServerToClient::Delta(Delta::LoginUpdate(LoginUpdate::LoginFail)),
        ])
    );
    assert_eq!(h.user_id(), None);
}

#[test]
fn restore_with_mismatched_stored_key_fails() {
    let mut h = LiveHandler::new();
    h.process_request(ClientToServer::RestoreSession(Key("abc".to_string())));
    let stored = Session { id: SessionId(1), key: Key("abd".to_string()), user_id: UserId(3) };
    let step = h.process_reply(StorageReply::SessionFound(Some(stored)));
    assert_eq!(
        step,
        Step::Respond(vec![
            fail("Bad session key."),
            ServerToClient::Delta(Delta::LoginUpdate(LoginUpdate::LoginFail)),
        ])
    );
}

#[test]
fn anonymous_cannot_create_channel() {
    let mut h = LiveHandler::new();
    let step = h.process_request(ClientToServer::CreateChannel(ChannelName("general".to_string())));
    assert_eq!(step, Step::Respond(vec![fail("Can't create channel")]));
    assert!(h.is_idle());
    assert_eq!(h.user_id(), None);
}

#[test]
fn authenticated_creates_channel() {
    let mut h = LiveHandler::new();
    login(&mut h);
    let step = h.process_request(ClientToServer::CreateChannel(ChannelName("general".to_string())));
    assert_eq!(
        step,
        Step::Ask(StorageRequest::CreateChannel(CreateChannel {
            channel: ChannelName("general".to_string()),
            user_id: UserId(1),
        }))
    );
    assert_eq!(
        h.process_reply(StorageReply::Done),
        Step::Respond(vec![ServerToClient::Reaction(Reaction::Success)])
    );
}

#[test]
fn storage_failure_becomes_fail_reaction() {
    let mut h = LiveHandler::new();
    h.process_request(creds("alice", "p1"));
    let step = h.process_reply(StorageReply::Failed("disk full".to_string()));
    assert_eq!(step, Step::Respond(vec![fail("disk full")]));
    assert!(h.is_idle());
    assert_eq!(h.user_id(), None);
}

#[test]
fn failure_to_store_key_leaves_connection_anonymous() {
    let mut h = LiveHandler::new();
    h.process_request(creds("alice", "p1"));
    h.process_reply(StorageReply::UserFound(Some(alice())));
    let step = h.process_reply(StorageReply::Failed("constraint".to_string()));
    assert_eq!(step, Step::Respond(vec![fail("constraint")]));
    assert_eq!(h.user_id(), None);
}

#[test]
fn unexpected_answer_is_reported() {
    let mut h = LiveHandler::new();
    h.process_request(creds("alice", "p1"));
    let step = h.process_reply(StorageReply::Channels(Vec::new()));
    assert_eq!(step, Step::Respond(vec![fail("Unexpected storage answer.")]));
}

#[test]
fn scheduled_deltas_follow_the_reaction() {
    let mut h = LiveHandler::new();
    h.schedule(Delta::LoginUpdate(LoginUpdate::LoginFail));
    let step = h.process_request(ClientToServer::CreateChannel(ChannelName("x".to_string())));
    assert_eq!(
        step,
        Step::Respond(vec![
            fail("Can't create channel"),
            ServerToClient::Delta(Delta::LoginUpdate(LoginUpdate::LoginFail)),
        ])
    );
    let step = h.process_request(ClientToServer::CreateChannel(ChannelName("x".to_string())));
    assert_eq!(step, Step::Respond(vec![fail("Can't create channel")]));
}
