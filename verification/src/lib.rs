//! Single sign-on for a password server: what is decided when a user logs in through an
//! OpenID Connect provider.
//!
//! The library decides, and the server around it acts. A procedure that has to ask the
//! database, the provider or the mail server for something comes as a [`Step`]: either
//! it is done, or it names an action and waits in a state. The server performs the
//! action and hands the reply to the state, which gives the next step.
//!
//! - [`oidc`]: the texts that name a login, and the address that a login returns to
//! - [`login`]: the exchange of a code for what the provider knows of the user
//! - [`redeem`]: the end of a login, where the session begins
//! - [`session`] and [`renew`]: the tokens of a session, and their renewal
//! - [`reconcile`], with [`organization`], [`bot`], [`confirm`] and [`seal`]: the
//!   membership of the user in the organization
//! - [`store`], [`laws`] and [`replies`]: what all this comes to, as laws
//! - [`views`]: what specifications see of the library's values

pub mod base64;
pub mod bot;
pub mod clock;
pub mod config;
pub mod confirm;
pub mod error;
pub mod laws;
pub mod login;
pub mod oidc;
pub mod organization;
pub mod protocol;
pub mod reconcile;
pub mod records;
pub mod redeem;
pub mod renew;
pub mod replies;
pub mod seal;
pub mod session;
pub mod store;
pub mod text;
pub mod views;

pub use clock::{Clock, Lifetime, UtcTime};
pub use config::{is_reserved_sso_org_bot_email, SsoConfig};
pub use error::SsoError;
pub use login::exchange_code;
pub use oidc::{
    authorize_url, decode_state, OIDCCode, OIDCCodeChallenge, OIDCCodeVerifier, OIDCIdentifier,
    OIDCState,
};
pub use protocol::{Action, Context, FreshIds, Reply, Step};
pub use reconcile::reconcile_default_org_membership;
pub use redeem::redeem;
pub use renew::exchange_refresh_token;
pub use session::{create_auth_tokens, encode_ssotoken_claims};
