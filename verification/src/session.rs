//! The local record of a login session with one server.
//!
//! A session binds a server address to the name of the access token that
//! stands for the session on that server. The name is made from the address
//! alone, so one server has one session token at most. The token's secret is
//! kept elsewhere, in a secret store, under the token's name; the session
//! only records whether such a secret is there.

use vstd::prelude::*;
use vstd::string::StringExecFns;

verus! {

/// The number of microseconds in a second.
pub const SEC_IN_MICRO: u64 = 1_000_000;

/// The lifetime asked for a session token when the caller names none: a
/// quarter of an hour, in microseconds.
pub const DEFAULT_LOGIN_SESSION_TIMEOUT: u64 = SEC_IN_MICRO * 15 * 60;

/// How long an access token is to live.
#[derive(Clone, Copy, Debug, PartialEq, Eq, Structural)]
pub enum LoginSessionExpiry {
    /// The token does not expire.
    NeverExpire,
    /// The token expires after this many microseconds.
    ExpireDuration(u64),
}

/// The lifetime that a login asks for: the caller's, where one was given,
/// and the default of 15 minutes where none was.
pub open spec fn expiry_or_default(explicit: Option<LoginSessionExpiry>) -> LoginSessionExpiry {
    match explicit {
        Some(expiry) => expiry,
        None => LoginSessionExpiry::ExpireDuration(DEFAULT_LOGIN_SESSION_TIMEOUT),
    }
}

/// The name of the session token for the server at `server_address`: a fixed
/// prefix and the address.
pub open spec fn token_name_of(server_address: Seq<char>) -> Seq<char> {
    "iggy-cli-session:"@ + server_address
}

/// What a session is, as a mathematical value.
pub struct ServerSessionView {
    pub server_address: Seq<char>,
    pub token_name: Seq<char>,
    pub is_active: bool,
}

impl ServerSessionView {
    /// The session for `server_address` before anything is known of a
    /// stored secret.
    pub open spec fn fresh(server_address: Seq<char>) -> ServerSessionView {
        ServerSessionView {
            server_address,
            token_name: token_name_of(server_address),
            is_active: false,
        }
    }

    /// The same session, active or not as `is_active` says.
    pub open spec fn with_active(self, is_active: bool) -> ServerSessionView {
        ServerSessionView { is_active, ..self }
    }

    /// Whether the token name is the one that belongs to the address. Every
    /// `ServerSession` meets this.
    pub open spec fn well_formed(self) -> bool {
        self.token_name == token_name_of(self.server_address)
    }
}

/// A login session with one server.
#[derive(Debug, PartialEq, Eq)]
pub struct ServerSession {
    server_address: String,
    token_name: String,
    active: bool,
}

impl View for ServerSession {
    type V = ServerSessionView;

    closed spec fn view(&self) -> ServerSessionView {
        ServerSessionView {
            server_address: self.server_address@,
            token_name: self.token_name@,
            is_active: self.active,
        }
    }
}

impl ServerSession {
    #[verifier::type_invariant]
    pub closed spec fn well_formed(&self) -> bool {
        self@.well_formed()
    }

    /// The session for the server at `server_address`, not active yet.
    pub fn new(server_address: String) -> (session: ServerSession)
        ensures
            session@ == ServerSessionView::fresh(server_address@),
    {
        let mut token_name = "iggy-cli-session:".to_owned();
        token_name.append(server_address.as_str());
        ServerSession { server_address, token_name, active: false }
    }

    /// The address of the server.
    pub fn get_server_address(&self) -> (address: &str)
        ensures
            address@ == self@.server_address,
    {
        self.server_address.as_str()
    }

    /// The name of the session's token, made from the server address.
    pub fn get_token_name(&self) -> (name: String)
        ensures
            name@ == self@.token_name,
            name@ == token_name_of(self@.server_address),
    {
        proof {
            use_type_invariant(self);
        }
        self.token_name.clone()
    }

    /// Whether a secret is stored for this session.
    pub fn is_active(&self) -> (active: bool)
        ensures
            active == self@.is_active,
    {
        self.active
    }

    /// Records whether a secret is stored for this session.
    pub fn set_active(&mut self, active: bool)
        ensures
            final(self)@ == old(self)@.with_active(active),
    {
        proof {
            use_type_invariant(&*self);
        }
        self.active = active;
    }
}

impl Clone for ServerSession {
    fn clone(&self) -> (copy: ServerSession)
        ensures
            copy@ == self@,
    {
        proof {
            use_type_invariant(self);
        }
        ServerSession {
            server_address: self.server_address.clone(),
            token_name: self.token_name.clone(),
            active: self.active,
        }
    }
}

/// The default lifetime of a session token is 15 minutes, which is
/// 900,000,000 microseconds, and a lifetime that the caller gives is taken
/// as it is.
pub proof fn lemma_expiry_or_default(explicit: LoginSessionExpiry)
    ensures
        DEFAULT_LOGIN_SESSION_TIMEOUT == 900_000_000,
        expiry_or_default(None) == LoginSessionExpiry::ExpireDuration(900_000_000),
        expiry_or_default(Some(explicit)) == explicit,
{
}

/// The token name tells the server: two addresses with the same token name
/// are the same address.
pub proof fn lemma_token_name_tells_server(first: Seq<char>, second: Seq<char>)
    requires
        token_name_of(first) == token_name_of(second),
    ensures
        first == second,
{
    let prefix = "iggy-cli-session:"@;
    assert(first =~= token_name_of(first).skip(prefix.len() as int));
    assert(second =~= token_name_of(second).skip(prefix.len() as int));
}

} // verus!
