//! The login protocol: the decisions that take a session from "no token" to
//! "a fresh token on the server and its secret in the local store".
//!
//! The protocol makes no call itself. `LoginCmd::step` takes what happened
//! last and answers with what is to be done next; whoever drives it performs
//! that action against the server or the secret store and comes back with
//! the outcome. The calls follow one another strictly: the server's tokens
//! are listed; a token left over under this session's name is deleted and
//! the deletion awaited; a new token is created; its secret is stored. Only
//! then is the session active. A failure at any point ends the attempt and
//! leaves the session as it was, not active. Nothing is tried a second time.
//!
//! Two logins for the same server that run at the same time race for the
//! one token name. The server decides: the login that loses is told that the
//! token it wants to delete is gone, or that the name it wants to create is
//! taken. Either is a failure like any other and ends that login with an
//! error.

use crate::session::{
    expiry_or_default, LoginSessionExpiry, ServerSession, ServerSessionView,
    DEFAULT_LOGIN_SESSION_TIMEOUT,
};
use vstd::prelude::*;
use vstd::string::StringExecFns;

verus! {

/// Where a login stands.
#[derive(Clone, Copy, Debug, PartialEq, Eq, Structural)]
pub enum LoginState {
    /// Login has not been invoked, or the last attempt was given up.
    NoSession,
    /// The list of the server's tokens is awaited.
    Checking,
    /// The deletion of a stale token is awaited.
    Synchronizing,
    /// The new token is awaited.
    Issuing,
    /// The write of the new secret to the local store is awaited.
    Persisting,
    /// The session is active.
    Active,
}

/// The operation that a login was busy with when it was given up.
#[derive(Clone, Copy, Debug, PartialEq, Eq, Structural)]
pub enum LoginOperation {
    /// Listing the server's tokens.
    ListTokens,
    /// Deleting the stale token.
    DeleteToken,
    /// Creating the new token.
    CreateToken,
    /// Storing the new secret.
    StoreSecret,
    /// None: an event arrived that the state did not await.
    OutOfOrder,
}

/// How a login ended well.
#[derive(Clone, Copy, Debug, PartialEq, Eq, Structural)]
pub enum LoginOutcome {
    /// The session was active already; nothing was asked of the server.
    AlreadyLoggedIn,
    /// A new token was issued and its secret stored.
    LoggedIn,
}

/// Why a login was given up, with what a user needs to act on it.
#[derive(Clone, Debug, PartialEq, Eq)]
pub struct LoginError {
    /// The operation that failed.
    pub operation: LoginOperation,
    /// The address of the server that the login was for.
    pub server_address: String,
    /// The name of the session's token.
    pub token_name: String,
    /// What the failed operation reported, unchanged.
    pub cause: String,
}

/// What happened since the last step.
#[derive(Clone, Debug, PartialEq, Eq)]
pub enum LoginEvent {
    /// Login was invoked. `has_stored_secret` tells whether the secret
    /// store holds a live secret under this session's token name.
    Started { has_stored_secret: bool },
    /// The server listed its tokens; these are their names.
    TokensListed(Vec<String>),
    /// The server deleted the token.
    TokenDeleted,
    /// The server created the token; this is its secret.
    TokenCreated(String),
    /// The secret store took the secret.
    SecretStored,
    /// The last action failed; this is what it reported.
    Failed(String),
}

/// What is to be done next.
#[derive(Clone, Debug, PartialEq, Eq)]
pub enum LoginAction {
    /// Ask the server for the list of its access tokens.
    ListTokens,
    /// Ask the server to delete the token of this name.
    DeleteToken { name: String },
    /// Ask the server for a new token of this name and lifetime.
    CreateToken { name: String, expiry: LoginSessionExpiry },
    /// Write the secret to the secret store under this key.
    StoreSecret { key: String, secret: String },
    /// Nothing: the login has succeeded.
    Done(LoginOutcome),
    /// Nothing: the login is given up.
    Abort(LoginError),
}

/// A `LoginError` as a mathematical value.
pub struct LoginErrorView {
    pub operation: LoginOperation,
    pub server_address: Seq<char>,
    pub token_name: Seq<char>,
    pub cause: Seq<char>,
}

/// A `LoginEvent` as a mathematical value.
pub enum LoginEventView {
    Started { has_stored_secret: bool },
    TokensListed(Seq<Seq<char>>),
    TokenDeleted,
    TokenCreated(Seq<char>),
    SecretStored,
    Failed(Seq<char>),
}

/// A `LoginAction` as a mathematical value.
pub enum LoginActionView {
    ListTokens,
    DeleteToken { name: Seq<char> },
    CreateToken { name: Seq<char>, expiry: LoginSessionExpiry },
    StoreSecret { key: Seq<char>, secret: Seq<char> },
    Done(LoginOutcome),
    Abort(LoginErrorView),
}

/// The names of a list of tokens, each as a sequence of characters.
pub open spec fn names_view(names: Seq<String>) -> Seq<Seq<char>> {
    Seq::new(names.len(), |i: int| names[i]@)
}

impl View for LoginError {
    type V = LoginErrorView;

    open spec fn view(&self) -> LoginErrorView {
        LoginErrorView {
            operation: self.operation,
            server_address: self.server_address@,
            token_name: self.token_name@,
            cause: self.cause@,
        }
    }
}

impl View for LoginEvent {
    type V = LoginEventView;

    open spec fn view(&self) -> LoginEventView {
        match *self {
            LoginEvent::Started { has_stored_secret } => LoginEventView::Started {
                has_stored_secret,
            },
            LoginEvent::TokensListed(names) => LoginEventView::TokensListed(names_view(names@)),
            LoginEvent::TokenDeleted => LoginEventView::TokenDeleted,
            LoginEvent::TokenCreated(secret) => LoginEventView::TokenCreated(secret@),
            LoginEvent::SecretStored => LoginEventView::SecretStored,
            LoginEvent::Failed(cause) => LoginEventView::Failed(cause@),
        }
    }
}

impl View for LoginAction {
    type V = LoginActionView;

    open spec fn view(&self) -> LoginActionView {
        match *self {
            LoginAction::ListTokens => LoginActionView::ListTokens,
            LoginAction::DeleteToken { name } => LoginActionView::DeleteToken { name: name@ },
            LoginAction::CreateToken { name, expiry } => LoginActionView::CreateToken {
                name: name@,
                expiry,
            },
            LoginAction::StoreSecret { key, secret } => LoginActionView::StoreSecret {
                key: key@,
                secret: secret@,
            },
            LoginAction::Done(outcome) => LoginActionView::Done(outcome),
            LoginAction::Abort(error) => LoginActionView::Abort(error@),
        }
    }
}

/// An optional text, taken as its sequence of characters.
pub open spec fn text_view(text: Option<String>) -> Option<Seq<char>> {
    match text {
        Some(text) => Some(text@),
        None => None,
    }
}

impl LoginErrorView {
    /// The line that tells a user what was being done when the login
    /// failed: which call, and for which server or token. A failure of the
    /// secret store has none; its own report is passed on as it is.
    pub open spec fn context(self) -> Option<Seq<char>> {
        match self.operation {
            LoginOperation::ListTokens => Some(
                "Problem getting personal access tokens from server: "@ + self.server_address,
            ),
            LoginOperation::DeleteToken => Some(
                "Problem deleting old personal access token with name: "@ + self.token_name,
            ),
            LoginOperation::CreateToken => Some(
                "Problem creating personal access token with name: "@ + self.token_name,
            ),
            LoginOperation::StoreSecret => None,
            LoginOperation::OutOfOrder => Some(
                "Login received an event out of order for server: "@ + self.server_address,
            ),
        }
    }
}

impl LoginError {
    /// The line that tells a user what was being done when the login
    /// failed, if there is one to add to the cause.
    pub fn context(&self) -> (text: Option<String>)
        ensures
            text_view(text) == self@.context(),
    {
        match self.operation {
            LoginOperation::ListTokens => {
                let mut text = "Problem getting personal access tokens from server: ".to_owned();
                text.append(self.server_address.as_str());
                Some(text)
            },
            LoginOperation::DeleteToken => {
                let mut text = "Problem deleting old personal access token with name: ".to_owned();
                text.append(self.token_name.as_str());
                Some(text)
            },
            LoginOperation::CreateToken => {
                let mut text = "Problem creating personal access token with name: ".to_owned();
                text.append(self.token_name.as_str());
                Some(text)
            },
            LoginOperation::StoreSecret => None,
            LoginOperation::OutOfOrder => {
                let mut text = "Login received an event out of order for server: ".to_owned();
                text.append(self.server_address.as_str());
                Some(text)
            },
        }
    }
}

impl LoginActionView {
    /// Whether the action is a call to the server.
    pub open spec fn is_remote_call(self) -> bool {
        self is ListTokens || self is DeleteToken || self is CreateToken
    }
}

/// A login as a mathematical value: the session, the lifetime that the
/// caller asked for, and where the protocol stands.
pub struct LoginCmdView {
    pub session: ServerSessionView,
    pub login_session_expiry: Option<LoginSessionExpiry>,
    pub state: LoginState,
}

impl LoginCmdView {
    /// The login for `server_address` before it is invoked.
    pub open spec fn fresh(
        server_address: Seq<char>,
        login_session_expiry: Option<LoginSessionExpiry>,
    ) -> LoginCmdView {
        LoginCmdView {
            session: ServerSessionView::fresh(server_address),
            login_session_expiry,
            state: LoginState::NoSession,
        }
    }

    /// The state is `Active` exactly when the session is marked active.
    pub open spec fn consistent(self) -> bool {
        (self.state == LoginState::Active) == self.session.is_active
    }

    /// The same login in another state.
    pub open spec fn moved_to(self, state: LoginState) -> LoginCmdView {
        LoginCmdView { state, ..self }
    }

    /// The same login with its session active.
    pub open spec fn activated(self) -> LoginCmdView {
        LoginCmdView {
            state: LoginState::Active,
            session: self.session.with_active(true),
            ..self
        }
    }

    /// The request for a new token: under the session's token name, for the
    /// caller's lifetime or else the default.
    pub open spec fn create_token(self) -> LoginActionView {
        LoginActionView::CreateToken {
            name: self.session.token_name,
            expiry: expiry_or_default(self.login_session_expiry),
        }
    }

    /// The lifetime that the new token is asked for: the caller's, unchanged,
    /// or 900,000,000 microseconds (15 minutes) where the caller gave none.
    pub open spec fn asked_expiry(self) -> LoginSessionExpiry {
        match self.login_session_expiry {
            Some(expiry) => expiry,
            None => LoginSessionExpiry::ExpireDuration(900_000_000),
        }
    }

    /// Whether a new token may be asked for in answer to `event`: the list
    /// has come and holds no token of the session's name, or the deletion of
    /// that token has been confirmed.
    pub open spec fn may_create(self, event: LoginEventView) -> bool {
        ||| self.state == LoginState::Synchronizing && event == LoginEventView::TokenDeleted
        ||| self.state == LoginState::Checking && match event {
            LoginEventView::TokensListed(names) => !names.contains(self.session.token_name),
            _ => false,
        }
    }

    /// The end of an attempt: back to `NoSession`, with the error that names
    /// the operation, the server and the token.
    pub open spec fn given_up(self, operation: LoginOperation, cause: Seq<char>) -> (
        LoginCmdView,
        LoginActionView,
    ) {
        (
            self.moved_to(LoginState::NoSession),
            LoginActionView::Abort(
                LoginErrorView {
                    operation,
                    server_address: self.session.server_address,
                    token_name: self.session.token_name,
                    cause,
                },
            ),
        )
    }

    /// One step of the protocol: the login after `event`, and the action that
    /// answers it.
    ///
    /// An active session answers every event with `Done` and stays active.
    /// Otherwise the state says which events are awaited. Invoking a login
    /// whose secret is already stored makes the session active at once;
    /// without a stored secret the tokens are listed. If the list holds this
    /// session's token name, that token is deleted first; then, or at once
    /// if it does not, the new token is asked for. Its secret is stored, and
    /// when the store has taken it the session is active. A failure gives
    /// the attempt up with the operation that was awaited, and so does an
    /// event that the state did not await.
    pub open spec fn step(self, event: LoginEventView) -> (LoginCmdView, LoginActionView) {
        if self.session.is_active {
            (self.activated(), LoginActionView::Done(LoginOutcome::AlreadyLoggedIn))
        } else {
            match (self.state, event) {
                (LoginState::NoSession, LoginEventView::Started { has_stored_secret }) => {
                    if has_stored_secret {
                        (self.activated(), LoginActionView::Done(LoginOutcome::AlreadyLoggedIn))
                    } else {
                        (self.moved_to(LoginState::Checking), LoginActionView::ListTokens)
                    }
                },
                (LoginState::Checking, LoginEventView::TokensListed(names)) => {
                    if names.contains(self.session.token_name) {
                        (
                            self.moved_to(LoginState::Synchronizing),
                            LoginActionView::DeleteToken { name: self.session.token_name },
                        )
                    } else {
                        (self.moved_to(LoginState::Issuing), self.create_token())
                    }
                },
                (LoginState::Synchronizing, LoginEventView::TokenDeleted) => {
                    (self.moved_to(LoginState::Issuing), self.create_token())
                },
                (LoginState::Issuing, LoginEventView::TokenCreated(secret)) => {
                    (
                        self.moved_to(LoginState::Persisting),
                        LoginActionView::StoreSecret { key: self.session.token_name, secret },
                    )
                },
                (LoginState::Persisting, LoginEventView::SecretStored) => {
                    (self.activated(), LoginActionView::Done(LoginOutcome::LoggedIn))
                },
                (LoginState::Checking, LoginEventView::Failed(cause)) => {
                    self.given_up(LoginOperation::ListTokens, cause)
                },
                (LoginState::Synchronizing, LoginEventView::Failed(cause)) => {
                    self.given_up(LoginOperation::DeleteToken, cause)
                },
                (LoginState::Issuing, LoginEventView::Failed(cause)) => {
                    self.given_up(LoginOperation::CreateToken, cause)
                },
                (LoginState::Persisting, LoginEventView::Failed(cause)) => {
                    self.given_up(LoginOperation::StoreSecret, cause)
                },
                _ => self.given_up(LoginOperation::OutOfOrder, Seq::<char>::empty()),
            }
        }
    }

    /// The protocol run over a whole list of events: the login at the end,
    /// and the actions in the order in which they were asked for.
    pub open spec fn run(self, events: Seq<LoginEventView>) -> (LoginCmdView, Seq<LoginActionView>)
        decreases events.len(),
    {
        if events.len() == 0 {
            (self, Seq::<LoginActionView>::empty())
        } else {
            let (next, action) = self.step(events[0]);
            let (last, actions) = next.run(events.skip(1));
            (last, seq![action] + actions)
        }
    }
}

/// The login command: a session with one server, and the lifetime to ask
/// for its token.
#[derive(Debug, PartialEq, Eq)]
pub struct LoginCmd {
    server_session: ServerSession,
    login_session_expiry: Option<LoginSessionExpiry>,
    state: LoginState,
}

impl View for LoginCmd {
    type V = LoginCmdView;

    closed spec fn view(&self) -> LoginCmdView {
        LoginCmdView {
            session: self.server_session@,
            login_session_expiry: self.login_session_expiry,
            state: self.state,
        }
    }
}

/// Whether `names` holds `wanted`.
fn holds_name(names: &Vec<String>, wanted: &String) -> (found: bool)
    ensures
        found == names_view(names@).contains(wanted@),
{
    let mut i: usize = 0;
    while i < names.len()
        invariant
            i <= names.len(),
            forall|j: int| 0 <= j < i ==> names_view(names@)[j] != wanted@,
        decreases names.len() - i,
    {
        if names[i] == *wanted {
            assert(names_view(names@)[i as int] == wanted@);
            return true;
        }
        i += 1;
    }
    false
}

impl LoginCmd {
    /// The login for the server at `server_address`, not invoked yet. With
    /// no `login_session_expiry` the token will be asked for 15 minutes.
    pub fn new(server_address: String, login_session_expiry: Option<LoginSessionExpiry>) -> (cmd:
        LoginCmd)
        ensures
            cmd@ == LoginCmdView::fresh(server_address@, login_session_expiry),
    {
        LoginCmd {
            server_session: ServerSession::new(server_address),
            login_session_expiry,
            state: LoginState::NoSession,
        }
    }

    /// A few words on what the command does.
    pub fn explain(&self) -> (text: String)
        ensures
            text@ == "login command"@,
    {
        "login command".to_owned()
    }

    /// Where the login stands.
    pub fn state(&self) -> (state: LoginState)
        ensures
            state == self@.state,
    {
        self.state
    }

    /// The session that the login is for.
    pub fn server_session(&self) -> (session: &ServerSession)
        ensures
            session@ == self@.session,
    {
        &self.server_session
    }

    /// The lifetime that the new token is asked for.
    pub fn requested_expiry(&self) -> (expiry: LoginSessionExpiry)
        ensures
            expiry == expiry_or_default(self@.login_session_expiry),
    {
        match self.login_session_expiry {
            None => LoginSessionExpiry::ExpireDuration(DEFAULT_LOGIN_SESSION_TIMEOUT),
            Some(value) => value,
        }
    }

    fn create_token(&self) -> (action: LoginAction)
        ensures
            action@ == self@.create_token(),
    {
        LoginAction::CreateToken {
            name: self.server_session.get_token_name(),
            expiry: self.requested_expiry(),
        }
    }

    fn give_up(&mut self, operation: LoginOperation, cause: String) -> (action: LoginAction)
        ensures
            (final(self)@, action@) == old(self)@.given_up(operation, cause@),
    {
        self.state = LoginState::NoSession;
        LoginAction::Abort(
            LoginError {
                operation,
                server_address: self.server_session.get_server_address().to_owned(),
                token_name: self.server_session.get_token_name(),
                cause,
            },
        )
    }

    fn move_to(&mut self, state: LoginState)
        ensures
            final(self)@ == old(self)@.moved_to(state),
    {
        self.state = state;
    }

    fn activate(&mut self)
        ensures
            final(self)@ == old(self)@.activated(),
    {
        self.state = LoginState::Active;
        self.server_session.set_active(true);
    }

    /// Takes the protocol one step on: records `event` and answers with the
    /// action to perform next.
    pub fn step(&mut self, event: LoginEvent) -> (action: LoginAction)
        ensures
            (final(self)@, action@) == old(self)@.step(event@),
    {
        if self.server_session.is_active() {
            self.activate();
            return LoginAction::Done(LoginOutcome::AlreadyLoggedIn);
        }
        match (self.state, event) {
            (LoginState::NoSession, LoginEvent::Started { has_stored_secret }) => {
                if has_stored_secret {
                    self.activate();
                    LoginAction::Done(LoginOutcome::AlreadyLoggedIn)
                } else {
                    self.move_to(LoginState::Checking);
                    LoginAction::ListTokens
                }
            },
            (LoginState::Checking, LoginEvent::TokensListed(names)) => {
                let token_name = self.server_session.get_token_name();
                if holds_name(&names, &token_name) {
                    self.move_to(LoginState::Synchronizing);
                    LoginAction::DeleteToken { name: token_name }
                } else {
                    self.move_to(LoginState::Issuing);
                    self.create_token()
                }
            },
            (LoginState::Synchronizing, LoginEvent::TokenDeleted) => {
                self.move_to(LoginState::Issuing);
                self.create_token()
            },
            (LoginState::Issuing, LoginEvent::TokenCreated(secret)) => {
                self.move_to(LoginState::Persisting);
                LoginAction::StoreSecret { key: self.server_session.get_token_name(), secret }
            },
            (LoginState::Persisting, LoginEvent::SecretStored) => {
                self.activate();
                LoginAction::Done(LoginOutcome::LoggedIn)
            },
            (LoginState::Checking, LoginEvent::Failed(cause)) => {
                self.give_up(LoginOperation::ListTokens, cause)
            },
            (LoginState::Synchronizing, LoginEvent::Failed(cause)) => {
                self.give_up(LoginOperation::DeleteToken, cause)
            },
            (LoginState::Issuing, LoginEvent::Failed(cause)) => {
                self.give_up(LoginOperation::CreateToken, cause)
            },
            (LoginState::Persisting, LoginEvent::Failed(cause)) => {
                self.give_up(LoginOperation::StoreSecret, cause)
            },
            _ => self.give_up(LoginOperation::OutOfOrder, String::new()),
        }
    }
}

/// A run over a first event and the rest of the events is one step and then
/// the run over the rest.
proof fn lemma_run_unfolds(cmd: LoginCmdView, first: LoginEventView, rest: Seq<LoginEventView>)
    ensures
        cmd.run(seq![first] + rest) == (
            cmd.step(first).0.run(rest).0,
            seq![cmd.step(first).1] + cmd.step(first).0.run(rest).1,
        ),
{
    let events = seq![first] + rest;
    assert(events[0] == first);
    assert(events.skip(1) =~= rest);
}

/// Every step leaves the login consistent: its state is `Active` exactly
/// when its session is active. The session becomes active in two ways only:
/// login is invoked while the secret is already stored, or the store has
/// just taken the new secret. A step that gives the attempt up leaves the
/// session not active, in the state `NoSession`.
pub proof fn lemma_step_keeps_consistent(cmd: LoginCmdView, event: LoginEventView)
    ensures
        cmd.step(event).0.consistent(),
        cmd.step(event).0.session.is_active ==> {
            ||| cmd.session.is_active
            ||| cmd.state == LoginState::NoSession && event == (LoginEventView::Started {
                has_stored_secret: true,
            })
            ||| cmd.state == LoginState::Persisting && event == LoginEventView::SecretStored
        },
        cmd.step(event).1 is Abort ==> {
            &&& !cmd.step(event).0.session.is_active
            &&& cmd.step(event).0.state == LoginState::NoSession
        },
        cmd.step(event).1 is Done <==> cmd.step(event).0.session.is_active,
{
}

/// A login that is invoked while the secret of its session is already
/// stored succeeds at once, with no call to the server.
pub proof fn lemma_stored_secret_logs_in(cmd: LoginCmdView)
    requires
        cmd.state == LoginState::NoSession,
    ensures
        cmd.step(LoginEventView::Started { has_stored_secret: true }) == (
            cmd.activated(),
            LoginActionView::Done(LoginOutcome::AlreadyLoggedIn),
        ),
{
}

/// Idempotent login: once the session is active, whatever events arrive and
/// however many, every one is answered with `Done`: the tokens are not
/// listed, and none is deleted or created. The session stays active.
pub proof fn lemma_active_session_makes_no_call(cmd: LoginCmdView, events: Seq<LoginEventView>)
    requires
        cmd.session.is_active,
    ensures
        cmd.run(events).0.session.is_active,
        events.len() > 0 ==> cmd.run(events).0 == cmd.activated(),
        cmd.run(events).1.len() == events.len(),
        forall|i: int|
            0 <= i < events.len() ==> #[trigger] cmd.run(events).1[i] == LoginActionView::Done(
                LoginOutcome::AlreadyLoggedIn,
            ),
        forall|i: int| 0 <= i < events.len() ==> !(#[trigger] cmd.run(events).1[i]).is_remote_call(),
    decreases events.len(),
{
    if events.len() > 0 {
        let next = cmd.step(events[0]).0;
        assert(next == cmd.activated());
        assert(next.activated() == next);
        lemma_active_session_makes_no_call(next, events.skip(1));
    }
}

/// Stale-token recovery: when the session is not active and the server
/// still lists a token under the session's name, a login that meets no
/// failure asks for exactly these actions, in this order: list the tokens,
/// delete the token of that name, create a token of that name, store the
/// secret that came back under that name. Then it is done and the session is
/// active.
pub proof fn lemma_stale_token_is_replaced(
    cmd: LoginCmdView,
    names: Seq<Seq<char>>,
    secret: Seq<char>,
)
    requires
        cmd.state == LoginState::NoSession,
        !cmd.session.is_active,
        names.contains(cmd.session.token_name),
    ensures
        cmd.run(
            seq![
                LoginEventView::Started { has_stored_secret: false },
                LoginEventView::TokensListed(names),
                LoginEventView::TokenDeleted,
                LoginEventView::TokenCreated(secret),
                LoginEventView::SecretStored,
            ],
        ) == (
            cmd.activated(),
            seq![
                LoginActionView::ListTokens,
                LoginActionView::DeleteToken { name: cmd.session.token_name },
                cmd.create_token(),
                LoginActionView::StoreSecret { key: cmd.session.token_name, secret },
                LoginActionView::Done(LoginOutcome::LoggedIn),
            ],
        ),
{
    let e0 = LoginEventView::Started { has_stored_secret: false };
    let e1 = LoginEventView::TokensListed(names);
    let e2 = LoginEventView::TokenDeleted;
    let e3 = LoginEventView::TokenCreated(secret);
    let e4 = LoginEventView::SecretStored;
    let none = Seq::<LoginEventView>::empty();
    let c1 = cmd.step(e0).0;
    let c2 = c1.step(e1).0;
    let c3 = c2.step(e2).0;
    let c4 = c3.step(e3).0;
    let c5 = c4.step(e4).0;
    assert(c5 == cmd.activated());
    assert(c5.run(none).1 =~= Seq::<LoginActionView>::empty());
    lemma_run_unfolds(c4, e4, none);
    lemma_run_unfolds(c3, e3, seq![e4] + none);
    lemma_run_unfolds(c2, e2, seq![e3] + (seq![e4] + none));
    lemma_run_unfolds(c1, e1, seq![e2] + (seq![e3] + (seq![e4] + none)));
    lemma_run_unfolds(cmd, e0, seq![e1] + (seq![e2] + (seq![e3] + (seq![e4] + none))));
    assert(seq![e0, e1, e2, e3, e4] =~= seq![e0] + (seq![e1] + (seq![e2] + (seq![e3] + (seq![e4]
        + none)))));
    let actions = cmd.run(seq![e0, e1, e2, e3, e4]).1;
    assert(actions =~= seq![
        LoginActionView::ListTokens,
        LoginActionView::DeleteToken { name: cmd.session.token_name },
        cmd.create_token(),
        LoginActionView::StoreSecret { key: cmd.session.token_name, secret },
        LoginActionView::Done(LoginOutcome::LoggedIn),
    ]);
}

/// A first login: when the session is not active and the server lists no
/// token under the session's name, a login that meets no failure lists the
/// tokens, creates a token of that name and stores its secret. Nothing is
/// deleted.
pub proof fn lemma_first_login_creates_token(
    cmd: LoginCmdView,
    names: Seq<Seq<char>>,
    secret: Seq<char>,
)
    requires
        cmd.state == LoginState::NoSession,
        !cmd.session.is_active,
        !names.contains(cmd.session.token_name),
    ensures
        cmd.run(
            seq![
                LoginEventView::Started { has_stored_secret: false },
                LoginEventView::TokensListed(names),
                LoginEventView::TokenCreated(secret),
                LoginEventView::SecretStored,
            ],
        ) == (
            cmd.activated(),
            seq![
                LoginActionView::ListTokens,
                cmd.create_token(),
                LoginActionView::StoreSecret { key: cmd.session.token_name, secret },
                LoginActionView::Done(LoginOutcome::LoggedIn),
            ],
        ),
{
    let e0 = LoginEventView::Started { has_stored_secret: false };
    let e1 = LoginEventView::TokensListed(names);
    let e3 = LoginEventView::TokenCreated(secret);
    let e4 = LoginEventView::SecretStored;
    let none = Seq::<LoginEventView>::empty();
    let c1 = cmd.step(e0).0;
    let c2 = c1.step(e1).0;
    let c4 = c2.step(e3).0;
    let c5 = c4.step(e4).0;
    assert(c5 == cmd.activated());
    assert(c5.run(none).1 =~= Seq::<LoginActionView>::empty());
    lemma_run_unfolds(c4, e4, none);
    lemma_run_unfolds(c2, e3, seq![e4] + none);
    lemma_run_unfolds(c1, e1, seq![e3] + (seq![e4] + none));
    lemma_run_unfolds(cmd, e0, seq![e1] + (seq![e3] + (seq![e4] + none)));
    assert(seq![e0, e1, e3, e4] =~= seq![e0] + (seq![e1] + (seq![e3] + (seq![e4] + none))));
    let actions = cmd.run(seq![e0, e1, e3, e4]).1;
    assert(actions =~= seq![
        LoginActionView::ListTokens,
        cmd.create_token(),
        LoginActionView::StoreSecret { key: cmd.session.token_name, secret },
        LoginActionView::Done(LoginOutcome::LoggedIn),
    ]);
}

/// Whenever a step asks for a new token, it asks for it under the session's
/// token name, and for the lifetime that the caller gave, unchanged, or for
/// 900,000,000 microseconds where the caller gave none. It asks only when no
/// stale token was listed, or when the deletion of the stale token has been
/// confirmed.
pub proof fn lemma_create_token_request(cmd: LoginCmdView, event: LoginEventView)
    requires
        (cmd.step(event).1 is CreateToken),
    ensures
        cmd.step(event).1 == cmd.create_token(),
        cmd.step(event).1->CreateToken_name == cmd.session.token_name,
        cmd.step(event).1->CreateToken_expiry == cmd.asked_expiry(),
        cmd.may_create(event),
{
}

} // verus!
