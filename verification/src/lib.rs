//! Binary command protocol of a message-streaming client: the byte-exact
//! encoding of identifiers, consumer references and commands, and the
//! decisions of the login protocol that issues a session token.
//!
//! The codec is stated over sequences of bytes: each type has a view, an
//! `encode` and a `decode` on views, and the proof that decoding undoes
//! encoding. The executable functions write to and read from the buffers of
//! the `bytes` crate, whose contracts are the trusted part of the library.
//!
//! The login protocol is a state machine. It makes no call itself: it says
//! which call comes next, and is told how the call went.

pub mod buffer;
pub mod byte_size;
pub mod command;
pub mod consumer;
pub mod delete_consumer_offset;
pub mod error;
pub mod identifier;
pub mod login;
pub mod session;
pub mod text;

pub use byte_size::IggyByteSize;
pub use command::{BytesSerializable, Command, Sizeable, Validatable};
pub use consumer::{Consumer, ConsumerKind};
pub use delete_consumer_offset::{DeleteConsumerOffset, DELETE_CONSUMER_OFFSET_CODE};
pub use error::IggyError;
pub use identifier::{IdKind, Identifier};
pub use login::{
    LoginAction, LoginCmd, LoginError, LoginEvent, LoginOperation, LoginOutcome, LoginState,
};
pub use session::{LoginSessionExpiry, ServerSession, DEFAULT_LOGIN_SESSION_TIMEOUT, SEC_IN_MICRO};
