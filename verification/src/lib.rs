//! Sign-in against the bex identity provider, and the workflow that releases bex.
//!
//! The desktop signs in with the OAuth 2.0 Device Authorization Grant (RFC 8628) as a public
//! client without a secret:
//!
//! 1. The endpoints are discovered from `{issuer}/.well-known/openid-configuration`.
//! 2. A device code is asked for, which comes with a user code and a verification URL.
//! 3. The user is sent to that URL to approve the device.
//! 4. The token endpoint is polled until the device is approved.
//! 5. A stable numeric user id is derived from the `id_token`.
//!
//! [`sign_in`] decides each of these steps and leaves what touches the network or the clock to its
//! host; [`token_check`] does the same for the check of a stored token. [`release`] builds the
//! GitHub Actions workflow that tests, builds, signs and publishes a release.

pub mod actions;
pub mod config;
pub mod device;
pub mod discovery;
pub mod error;
pub mod form;
pub mod grant_laws;
pub mod http;
pub mod identity;
pub mod issuer;
pub mod release;
pub mod release_laws;
pub mod sign_in;
pub mod sign_in_laws;
pub mod text;
pub mod token_check;

pub use config::OidcConfig;
pub use device::{AuthTokens, DevicePrompt};
pub use error::AuthError;
pub use release::bex_release;
pub use sign_in::authenticate;
pub use token_check::validate_token;
