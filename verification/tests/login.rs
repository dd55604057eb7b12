use iggy_protocol::{
    LoginAction, LoginCmd, LoginError, LoginEvent, LoginOperation, LoginOutcome,
    LoginSessionExpiry, LoginState, ServerSession, DEFAULT_LOGIN_SESSION_TIMEOUT, SEC_IN_MICRO,
};

const ADDRESS: &str = "127.0.0.1:8090";
const TOKEN_NAME: &str = "iggy-cli-session:127.0.0.1:8090";

fn fresh(expiry: Option<LoginSessionExpiry>) -> LoginCmd {
    LoginCmd::new(ADDRESS.to_owned(), expiry)
}

fn default_create() -> LoginAction {
    LoginAction::CreateToken {
        name: TOKEN_NAME.to_owned(),
        expiry: LoginSessionExpiry::ExpireDuration(900_000_000),
    }
}

fn error(operation: LoginOperation, cause: &str) -> LoginError {
    LoginError {
        operation,
        server_address: ADDRESS.to_owned(),
        token_name: TOKEN_NAME.to_owned(),
        cause: cause.to_owned(),
    }
}

#[test]
fn new_login_has_a_fresh_session() {
    let cmd = fresh(None);
    assert_eq!(cmd.state(), LoginState::NoSession);
    assert!(!cmd.server_session().is_active());
    assert_eq!(cmd.server_session().get_server_address(), ADDRESS);
    assert_eq!(cmd.server_session().get_token_name(), TOKEN_NAME);
    assert_eq!(cmd.explain(), "login command");
}

#[test]
fn default_timeout_is_fifteen_minutes_in_microseconds() {
    assert_eq!(SEC_IN_MICRO, 1_000_000);
    assert_eq!(DEFAULT_LOGIN_SESSION_TIMEOUT, 900_000_000);
    assert_eq!(
        fresh(None).requested_expiry(),
        LoginSessionExpiry::ExpireDuration(900_000_000)
    );
}

#[test]
fn explicit_expiry_is_passed_through() {
    for expiry in [
        LoginSessionExpiry::NeverExpire,
        LoginSessionExpiry::ExpireDuration(1),
        LoginSessionExpiry::ExpireDuration(u64::MAX),
    ] {
        let mut cmd = fresh(Some(expiry));
        assert_eq!(cmd.requested_expiry(), expiry);
        cmd.step(LoginEvent::Started {
            has_stored_secret: false,
        });
        let action = cmd.step(LoginEvent::TokensListed(vec![]));
        assert_eq!(
            action,
            LoginAction::CreateToken {
                name: TOKEN_NAME.to_owned(),
                expiry,
            }
        );
    }
}

#[test]
fn stored_secret_logs_in_without_calls() {
    let mut cmd = fresh(None);
    let action = cmd.step(LoginEvent::Started {
        has_stored_secret: true,
    });
    assert_eq!(action, LoginAction::Done(LoginOutcome::AlreadyLoggedIn));
    assert_eq!(cmd.state(), LoginState::Active);
    assert!(cmd.server_session().is_active());
}

#[test]
fn active_session_answers_every_event_with_done() {
    let mut cmd = fresh(None);
    cmd.step(LoginEvent::Started {
        has_stored_secret: true,
    });
    let events = vec![
        LoginEvent::Started {
            has_stored_secret: false,
        },
        LoginEvent::Started {
            has_stored_secret: true,
        },
        LoginEvent::TokensListed(vec![TOKEN_NAME.to_owned()]),
        LoginEvent::TokenDeleted,
        LoginEvent::TokenCreated("secret".to_owned()),
        LoginEvent::SecretStored,
        LoginEvent::Failed("late".to_owned()),
    ];
    for event in events {
        let action = cmd.step(event);
        assert_eq!(action, LoginAction::Done(LoginOutcome::AlreadyLoggedIn));
        assert_eq!(cmd.state(), LoginState::Active);
        assert!(cmd.server_session().is_active());
    }
}

#[test]
fn stale_token_is_deleted_then_recreated() {
    let mut cmd = fresh(None);
    let mut actions = Vec::new();

    actions.push(cmd.step(LoginEvent::Started {
        has_stored_secret: false,
    }));
    assert_eq!(cmd.state(), LoginState::Checking);

    actions.push(cmd.step(LoginEvent::TokensListed(vec![
        "other".to_owned(),
        TOKEN_NAME.to_owned(),
        "third".to_owned(),
    ])));
    assert_eq!(cmd.state(), LoginState::Synchronizing);

    actions.push(cmd.step(LoginEvent::TokenDeleted));
    assert_eq!(cmd.state(), LoginState::Issuing);

    actions.push(cmd.step(LoginEvent::TokenCreated("s3cr3t".to_owned())));
    assert_eq!(cmd.state(), LoginState::Persisting);
    assert!(!cmd.server_session().is_active());

    actions.push(cmd.step(LoginEvent::SecretStored));
    assert_eq!(cmd.state(), LoginState::Active);
    assert!(cmd.server_session().is_active());

    assert_eq!(
        actions,
        vec![
            LoginAction::ListTokens,
            LoginAction::DeleteToken {
                name: TOKEN_NAME.to_owned()
            },
            default_create(),
            LoginAction::StoreSecret {
                key: TOKEN_NAME.to_owned(),
                secret: "s3cr3t".to_owned()
            },
            LoginAction::Done(LoginOutcome::LoggedIn),
        ]
    );
    let deletes = actions
        .iter()
        .filter(|action| matches!(action, LoginAction::DeleteToken { .. }))
        .count();
    let creates = actions
        .iter()
        .filter(|action| matches!(action, LoginAction::CreateToken { .. }))
        .count();
    assert_eq!((deletes, creates), (1, 1));
}

#[test]
fn first_login_creates_without_deleting() {
    let mut cmd = fresh(None);
    let mut actions = Vec::new();
    actions.push(cmd.step(LoginEvent::Started {
        has_stored_secret: false,
    }));
    actions.push(cmd.step(LoginEvent::TokensListed(vec![
        "iggy-cli-session".to_owned(),
        "iggy-cli-session:127.0.0.1:8091".to_owned(),
    ])));
    assert_eq!(cmd.state(), LoginState::Issuing);
    actions.push(cmd.step(LoginEvent::TokenCreated("new".to_owned())));
    actions.push(cmd.step(LoginEvent::SecretStored));
    assert_eq!(
        actions,
        vec![
            LoginAction::ListTokens,
            default_create(),
            LoginAction::StoreSecret {
                key: TOKEN_NAME.to_owned(),
                secret: "new".to_owned()
            },
            LoginAction::Done(LoginOutcome::LoggedIn),
        ]
    );
    assert!(cmd.server_session().is_active());
}

#[test]
fn failed_listing_gives_up() {
    let mut cmd = fresh(None);
    cmd.step(LoginEvent::Started {
        has_stored_secret: false,
    });
    let action = cmd.step(LoginEvent::Failed("connection refused".to_owned()));
    assert_eq!(
        action,
        LoginAction::Abort(error(LoginOperation::ListTokens, "connection refused"))
    );
    assert_eq!(cmd.state(), LoginState::NoSession);
    assert!(!cmd.server_session().is_active());
}

#[test]
fn failed_deletion_gives_up_before_creating() {
    let mut cmd = fresh(None);
    cmd.step(LoginEvent::Started {
        has_stored_secret: false,
    });
    cmd.step(LoginEvent::TokensListed(vec![TOKEN_NAME.to_owned()]));
    let action = cmd.step(LoginEvent::Failed("no such token".to_owned()));
    assert_eq!(
        action,
        LoginAction::Abort(error(LoginOperation::DeleteToken, "no such token"))
    );
    assert_eq!(cmd.state(), LoginState::NoSession);
    assert!(!cmd.server_session().is_active());
}

#[test]
fn failed_creation_gives_up() {
    let mut cmd = fresh(None);
    cmd.step(LoginEvent::Started {
        has_stored_secret: false,
    });
    cmd.step(LoginEvent::TokensListed(vec![]));
    let action = cmd.step(LoginEvent::Failed("name taken".to_owned()));
    assert_eq!(
        action,
        LoginAction::Abort(error(LoginOperation::CreateToken, "name taken"))
    );
    assert_eq!(cmd.state(), LoginState::NoSession);
    assert!(!cmd.server_session().is_active());
}

#[test]
fn failed_store_leaves_session_inactive() {
    let mut cmd = fresh(None);
    cmd.step(LoginEvent::Started {
        has_stored_secret: false,
    });
    cmd.step(LoginEvent::TokensListed(vec![]));
    cmd.step(LoginEvent::TokenCreated("secret".to_owned()));
    let action = cmd.step(LoginEvent::Failed("keyring locked".to_owned()));
    assert_eq!(
        action,
        LoginAction::Abort(error(LoginOperation::StoreSecret, "keyring locked"))
    );
    assert_eq!(cmd.state(), LoginState::NoSession);
    assert!(!cmd.server_session().is_active());
}

#[test]
fn login_can_be_invoked_again_after_a_failure() {
    let mut cmd = fresh(None);
    cmd.step(LoginEvent::Started {
        has_stored_secret: false,
    });
    cmd.step(LoginEvent::Failed("down".to_owned()));
    let action = cmd.step(LoginEvent::Started {
        has_stored_secret: false,
    });
    assert_eq!(action, LoginAction::ListTokens);
    assert_eq!(cmd.state(), LoginState::Checking);
}

#[test]
fn events_out_of_order_give_up() {
    let out_of_order = error(LoginOperation::OutOfOrder, "");

    let mut cmd = fresh(None);
    assert_eq!(
        cmd.step(LoginEvent::SecretStored),
        LoginAction::Abort(out_of_order.clone())
    );
    assert!(!cmd.server_session().is_active());
    assert_eq!(cmd.state(), LoginState::NoSession);

    let mut cmd = fresh(None);
    assert_eq!(
        cmd.step(LoginEvent::Failed("early".to_owned())),
        LoginAction::Abort(out_of_order.clone())
    );

    let mut cmd = fresh(None);
    cmd.step(LoginEvent::Started {
        has_stored_secret: false,
    });
    assert_eq!(
        cmd.step(LoginEvent::TokenCreated("secret".to_owned())),
        LoginAction::Abort(out_of_order.clone())
    );
    assert_eq!(cmd.state(), LoginState::NoSession);

    let mut cmd = fresh(None);
    cmd.step(LoginEvent::Started {
        has_stored_secret: false,
    });
    cmd.step(LoginEvent::TokensListed(vec![]));
    assert_eq!(
        cmd.step(LoginEvent::SecretStored),
        LoginAction::Abort(out_of_order)
    );
    assert!(!cmd.server_session().is_active());
}

#[test]
fn error_context_names_operation_and_target() {
    assert_eq!(
        error(LoginOperation::ListTokens, "x").context(),
        Some("Problem getting personal access tokens from server: 127.0.0.1:8090".to_owned())
    );
    assert_eq!(
        error(LoginOperation::DeleteToken, "x").context(),
        Some(
            "Problem deleting old personal access token with name: iggy-cli-session:127.0.0.1:8090"
                .to_owned()
        )
    );
    assert_eq!(
        error(LoginOperation::CreateToken, "x").context(),
        Some(
            "Problem creating personal access token with name: iggy-cli-session:127.0.0.1:8090"
                .to_owned()
        )
    );
    assert_eq!(error(LoginOperation::StoreSecret, "x").context(), None);
    assert_eq!(
        error(LoginOperation::OutOfOrder, "").context(),
        Some("Login received an event out of order for server: 127.0.0.1:8090".to_owned())
    );
}

#[test]
fn session_token_name_follows_the_address() {
    let session = ServerSession::new("localhost:1234".to_owned());
    assert_eq!(session.get_server_address(), "localhost:1234");
    assert_eq!(session.get_token_name(), "iggy-cli-session:localhost:1234");
    assert!(!session.is_active());
    let other = ServerSession::new("localhost:1235".to_owned());
    assert_ne!(session.get_token_name(), other.get_token_name());
    let empty = ServerSession::new(String::new());
    assert_eq!(empty.get_token_name(), "iggy-cli-session:");
}

#[test]
fn session_can_be_marked_active() {
    let mut session = ServerSession::new(ADDRESS.to_owned());
    session.set_active(true);
    assert!(session.is_active());
    assert_eq!(session.get_token_name(), TOKEN_NAME);
    assert_eq!(session.clone(), session);
    session.set_active(false);
    assert!(!session.is_active());
}
