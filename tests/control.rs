use tody_chat::client::Client;
use tody_chat::control::{
    ClientToController, Controller, ControllerError, ControllerToClient, CtrlHandler, CtrlStep,
    Outcome,
};
use tody_chat::opts::{
    ChannelCommand, ChannelCreateCommand, ChannelDeleteCommand, ChannelSubCommand, Opts,
    SubCommand, UserCommand, UserCreateCommand, UserSubCommand,
};
use tody_chat::storage::{
    CreateChannel, CreateUser, FindUser, GetChannels, SetPassword, StorageReply, StorageRequest,
};
use tody_chat::types::{Channel, ChannelId, ChannelName, Password, User, UserId, Username};

fn name(s: &str) -> Username {
    Username(s.to_string())
}

fn pass(s: &str) -> Password {
    Password(s.to_string())
}

fn chan(s: &str) -> ChannelName {
    ChannelName(s.to_string())
}

#[test]
fn create_user_flow() {
    let mut h = CtrlHandler::new();
    let step = h.process_request(ClientToController::CreateUser { username: name("bob"), password: pass("pw") });
    assert_eq!(
        step,
        CtrlStep::Ask(StorageRequest::CreateUser(CreateUser { username: name("bob"), password: pass("pw") }))
    );
    assert!(!h.is_idle());
    assert_eq!(
        h.process_reply(StorageReply::Done),
        CtrlStep::Respond(ControllerToClient::UserCreated { username: name("bob") })
    );
    assert!(h.is_idle());
}

#[test]
fn create_user_failure_reports_storage_text() {
    let mut h = CtrlHandler::new();
    h.process_request(ClientToController::CreateUser { username: name("bob"), password: pass("pw") });
    assert_eq!(
        h.process_reply(StorageReply::Failed("UNIQUE constraint failed".to_string())),
        CtrlStep::Respond(ControllerToClient::Fail("UNIQUE constraint failed".to_string()))
    );
}

#[test]
fn set_password_flow() {
    let mut h = CtrlHandler::new();
    let step = h.process_request(ClientToController::SetPassword { username: name("bob"), password: pass("new") });
    assert_eq!(
        step,
        CtrlStep::Ask(StorageRequest::SetPassword(SetPassword { username: name("bob"), password: pass("new") }))
    );
    assert_eq!(
        h.process_reply(StorageReply::Done),
        CtrlStep::Respond(ControllerToClient::PasswordSet { username: name("bob") })
    );
}

#[test]
fn create_channel_flow() {
    let mut h = CtrlHandler::new();
    let step = h.process_request(ClientToController::CreateChannel { channel: chan("general"), username: name("bob") });
    assert_eq!(step, CtrlStep::Ask(StorageRequest::FindUser(FindUser { username: name("bob") })));
    let bob = User { id: UserId(7), username: name("bob"), password: pass("pw") };
    assert_eq!(
        h.process_reply(StorageReply::UserFound(Some(bob))),
        CtrlStep::Ask(StorageRequest::CreateChannel(CreateChannel { channel: chan("general"), user_id: UserId(7) }))
    );
    assert_eq!(
        h.process_reply(StorageReply::Done),
        CtrlStep::Respond(ControllerToClient::ChannelCreated { channel: chan("general") })
    );
}

#[test]
fn create_channel_for_unknown_owner_fails() {
    let mut h = CtrlHandler::new();
    h.process_request(ClientToController::CreateChannel { channel: chan("general"), username: name("ghost") });
    assert_eq!(
        h.process_reply(StorageReply::UserFound(None)),
        CtrlStep::Respond(ControllerToClient::Fail("user doesn't exists".to_string()))
    );
    assert!(h.is_idle());
}

#[test]
fn get_channels_lists_names_in_order() {
    let mut h = CtrlHandler::new();
    assert_eq!(
        h.process_request(ClientToController::GetChannels),
        CtrlStep::Ask(StorageRequest::GetChannels(GetChannels {}))
    );
    let list = vec![
        Channel { id: ChannelId(2), channel: chan("b") },
        Channel { id: ChannelId(1), channel: chan("a") },
    ];
    assert_eq!(
        h.process_reply(StorageReply::Channels(list)),
        CtrlStep::Respond(ControllerToClient::ChannelsList { channels: vec![chan("b"), chan("a")] })
    );
}

#[test]
fn concurrent_user_creation_through_one_store() {
    // Several connections each create a user; their storage calls go through
    // one queue served one at a time, as the storage service does.
    let names: Vec<String> = (0..8).map(|i| format!("user{}", i)).collect();
    let mut handlers: Vec<CtrlHandler> = names.iter().map(|_| CtrlHandler::new()).collect();
    let mut queue = Vec::new();
    for (i, n) in names.iter().enumerate() {
        match handlers[i].process_request(ClientToController::CreateUser { username: name(n), password: pass("pw") }) {
            CtrlStep::Ask(req) => queue.push((i, req)),
            other => panic!("unexpected {:?}", other),
        }
    }
    let mut store: Vec<String> = Vec::new();
    let mut responses = Vec::new();
    while let Some((i, req)) = queue.pop() {
        let reply = match req {
            StorageRequest::CreateUser(CreateUser { username, .. }) => {
                if store.contains(&username.0) {
                    StorageReply::Failed("exists".to_string())
                } else {
                    store.push(username.0);
                    StorageReply::Done
                }
            }
            other => panic!("unexpected {:?}", other),
        };
        responses.push((i, handlers[i].process_reply(reply)));
    }
    assert_eq!(store.len(), names.len());
    for (i, r) in responses {
        assert_eq!(r, CtrlStep::Respond(ControllerToClient::UserCreated { username: name(&names[i]) }));
    }
}

#[test]
fn controller_accepts_matching_confirmation() {
    let mut c = Controller::new();
    assert!(!c.awaits_response());
    let sent = c.submit(ClientToController::CreateUser { username: name("bob"), password: pass("pw") });
    assert_eq!(sent, Some(ClientToController::CreateUser { username: name("bob"), password: pass("pw") }));
    assert!(c.awaits_response());
    let (outcome, next) = c.receive(ControllerToClient::UserCreated { username: name("bob") });
    assert_eq!(outcome, Ok(Outcome::Done));
    assert_eq!(next, None);
    assert!(!c.awaits_response());
}

#[test]
fn controller_rejects_confirmation_for_other_user() {
    let mut c = Controller::new();
    c.submit(ClientToController::SetPassword { username: name("bob"), password: pass("pw") });
    let (outcome, _) = c.receive(ControllerToClient::PasswordSet { username: name("eve") });
    assert_eq!(
        outcome,
        Err(ControllerError::UnexpectedResponse(ControllerToClient::PasswordSet { username: name("eve") }))
    );
}

#[test]
fn controller_reports_fail_as_unexpected() {
    let mut c = Controller::new();
    c.submit(ClientToController::CreateChannel { channel: chan("general"), username: name("bob") });
    let (outcome, _) = c.receive(ControllerToClient::Fail("user doesn't exists".to_string()));
    assert_eq!(
        outcome,
        Err(ControllerError::UnexpectedResponse(ControllerToClient::Fail("user doesn't exists".to_string())))
    );
}

#[test]
fn controller_returns_channel_list() {
    let mut c = Controller::new();
    c.submit(ClientToController::GetChannels);
    let (outcome, _) = c.receive(ControllerToClient::ChannelsList { channels: vec![chan("x")] });
    assert_eq!(outcome, Ok(Outcome::Channels(vec![chan("x")])));
}

#[test]
fn controller_defers_requests_while_one_is_in_flight() {
    let mut c = Controller::new();
    assert!(c.submit(ClientToController::CreateUser { username: name("a"), password: pass("1") }).is_some());
    assert_eq!(c.submit(ClientToController::GetChannels), None);
    assert_eq!(c.submit(ClientToController::CreateUser { username: name("b"), password: pass("2") }), None);
    let (outcome, next) = c.receive(ControllerToClient::UserCreated { username: name("a") });
    assert_eq!(outcome, Ok(Outcome::Done));
    assert_eq!(next, Some(ClientToController::GetChannels));
    let (outcome, next) = c.receive(ControllerToClient::ChannelsList { channels: vec![] });
    assert_eq!(outcome, Ok(Outcome::Channels(vec![])));
    assert_eq!(next, Some(ClientToController::CreateUser { username: name("b"), password: pass("2") }));
    let (outcome, next) = c.receive(ControllerToClient::UserCreated { username: name("b") });
    assert_eq!(outcome, Ok(Outcome::Done));
    assert_eq!(next, None);
}

#[test]
fn client_request_for_each_command() {
    let user = Opts {
        subcmd: SubCommand::User(UserCommand {
            subcmd: UserSubCommand::Create(UserCreateCommand { username: name("bob"), password: pass("pw") }),
        }),
    };
    assert_eq!(
        Client::new(user).request(),
        Some(ClientToController::CreateUser { username: name("bob"), password: pass("pw") })
    );
    let create = Opts {
        subcmd: SubCommand::Channel(ChannelCommand {
            subcmd: ChannelSubCommand::Create(ChannelCreateCommand { channel: chan("general"), username: name("bob") }),
        }),
    };
    assert_eq!(
        Client::new(create).request(),
        Some(ClientToController::CreateChannel { channel: chan("general"), username: name("bob") })
    );
    let list = Opts { subcmd: SubCommand::Channel(ChannelCommand { subcmd: ChannelSubCommand::List }) };
    assert_eq!(Client::new(list).request(), Some(ClientToController::GetChannels));
    let delete = Opts {
        subcmd: SubCommand::Channel(ChannelCommand {
            subcmd: ChannelSubCommand::Delete(ChannelDeleteCommand { channel: chan("general") }),
        }),
    };
    assert_eq!(Client::new(delete).request(), None);
    assert_eq!(Client::new(Opts { subcmd: SubCommand::Run }).request(), None);
}
