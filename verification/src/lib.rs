//! Session-backed authentication state machine.
//!
//! The crate derives a caller's authentication status from an opaque,
//! server-trusted session record, manages the login-session lifecycle
//! (setting the user, an MFA challenge step, a login freshness deadline,
//! reset and destruction), and models the fixed ordering of the
//! request-processing stages that make the derivation sound.
//!
//! Missing or unreadable session data always fails closed: every ambiguous
//! read resolves to "unauthenticated", never to "authenticated".

pub mod token;
pub mod store;
pub mod provider;
pub mod login;
pub mod laws;
pub mod pipeline;

pub use login::LoginSession;
pub use provider::SessionAuthProvider;
pub use store::SessionStore;
pub use token::{AuthState, AuthToken, InsertError, ReadError, UnauthorizedError};
