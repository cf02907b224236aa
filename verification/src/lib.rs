//! Browser login for the S2 command line.
//!
//! The rules come first: which issuers, hosts and endpoints are trusted, what a
//! response means, which credential a command uses. The flows build on them. A flow
//! is a value: it says what is to be done next, as a [`effect::Request`], and goes
//! on with the [`effect::Reply`].

pub mod text;
pub mod host;
pub mod encoding;
pub mod url;
pub mod error;
pub mod config;
pub mod response;
pub mod token;
pub mod issuer;
pub mod metadata;
pub mod call;
pub mod callback;
pub mod credentials;
pub mod destination;
pub mod identity;
pub mod pkce;
pub mod lock;
pub mod rejected;
pub mod effect;
pub mod cleanup;
pub mod prepare;
pub mod rollback;
pub mod login;
pub mod logout;
pub mod fresh;
pub mod provider;
pub mod resolve;
pub mod notice;
