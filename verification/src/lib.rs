//! Access tokens for SMTP relays that authenticate with OAuth2.
//!
//! Supplies a valid access token for a configured relay so the outbound SMTP
//! client can authenticate with `XOAUTH2`/`OAUTHBEARER`. A static token is
//! returned as-is; otherwise the provider says how to fetch a token from the
//! configured token endpoint, with the `refresh_token` or `client_credentials`
//! grant, and when a cached one serves.
//!
//! The provider itself neither talks to the network nor reads the clock: see
//! [`provider`] for how it is driven.
pub mod cache;
pub mod config;
pub mod debug;
pub mod error;
pub mod form;
pub mod laws;
pub mod percent;
pub mod provider;
pub mod status;

pub use cache::{TokenCache, TokenResponse};
pub use config::Oauth2Config;
pub use error::Oauth2Error;
pub use percent::percent_encode;
pub use provider::{FetchEvent, OutboundOauth2, TokenStep};
