//! What a login asks of the world around it, and what it is told.
//!
//! A flow never acts by itself: it says what is to be done next, as a
//! [`Request`], and goes on with the [`Reply`] to it.

use vstd::prelude::*;

use crate::callback::CallbackOutcome;
use crate::config::{CliConfig, OAuthSession, StoredCredentialReference};
use crate::error::{CliConfigError, LoginError};
use crate::identity::OAuthIdentity;
use crate::metadata::OAuthEndpoints;
use crate::token::{Secret, TokenSet};
use crate::url::Url;

verus! {

/// What is to be done next.
pub enum Request<'a> {
    /// Keep other processes from changing the configuration.
    LockConfig,
    /// Let other processes change the configuration again.
    UnlockConfig,
    /// Read the configuration file.
    LoadConfig,
    /// Read the configuration file and what the environment adds to it.
    LoadEffectiveConfig,
    /// Write the configuration file.
    SaveConfig(&'a CliConfig),
    /// Keep other processes from using the credential of this identifier.
    LockRefresh(&'a String),
    /// Let other processes use the credential again.
    UnlockRefresh,
    /// Let go of every lock that is still held.
    ReleaseLocks,
    /// Read the tokens of a login from its credential store.
    LoadCredentials(&'a OAuthSession),
    /// Write the tokens of a login to its credential store.
    SaveCredentials(&'a OAuthSession, &'a TokenSet),
    /// Delete a credential from its store.
    DeleteCredential(&'a StoredCredentialReference),
    /// Say where a credential is, for the user.
    LocateCredential(&'a StoredCredentialReference),
    /// Read the clock.
    ReadClock,
    /// Read and validate the metadata of an issuer.
    Discover(&'a Url),
    /// Exchange an authorization code for tokens.
    ExchangeCode {
        endpoints: &'a OAuthEndpoints,
        client_id: &'a String,
        callback_url: &'a String,
        code: &'a String,
        code_verifier: &'a String,
    },
    /// Ask for new tokens.
    RefreshTokens {
        endpoints: &'a OAuthEndpoints,
        client_id: &'a String,
        refresh_token: &'a Secret,
    },
    /// Revoke a grant.
    RevokeToken {
        endpoints: &'a OAuthEndpoints,
        client_id: &'a String,
        refresh_token: &'a Secret,
    },
    /// Read the identities out of the claims of two access tokens.
    ReadIdentities { previous: &'a Option<Vec<u8>>, next: &'a Option<Vec<u8>> },
    /// Listen for the request of the browser.
    Listen,
    /// Show the page to the user and wait for the request of the browser.
    AwaitCallback { page: &'a String, state: &'a String, completion_url: &'a Option<Url> },
    /// Read the access token of the environment.
    ReadEnvironmentToken,
    /// Check the form of an access token.
    ValidateAccessToken(&'a Secret),
    /// Read the access token that the configuration holds or points to.
    LoadStoredAccessToken(&'a CliConfig),
}

/// How the wait for the browser ended.
pub enum CallbackWait {
    TimedOut,
    Closed,
    Received(CallbackOutcome),
}

/// What came of a request.
pub enum Reply {
    /// A lock was let go of.
    Released,
    ConfigLocked(Result<(), CliConfigError>),
    ConfigLoaded(Result<CliConfig, CliConfigError>),
    /// The configuration was written, to the file of this name.
    ConfigSaved(Result<String, CliConfigError>),
    RefreshLocked(Result<(), LoginError>),
    CredentialsLoaded(Result<TokenSet, LoginError>),
    CredentialsSaved(Result<(), LoginError>),
    CredentialDeleted(Result<(), LoginError>),
    CredentialLocated(String),
    /// The time, in seconds since 1970, unless the clock stands before that.
    Clock(Option<u64>),
    Discovered(Result<OAuthEndpoints, LoginError>),
    Tokens(Result<TokenSet, LoginError>),
    Revoked(Result<(), LoginError>),
    Identities { previous: Option<OAuthIdentity>, next: Option<OAuthIdentity> },
    /// Browsers are listened for on this TCP socket number of 127.0.0.1.
    Listening(Result<u16, LoginError>),
    /// The wait for the browser is over, and so is the listening.
    CallbackEnded { server: Result<(), LoginError>, wait: CallbackWait },
    EnvironmentToken(Result<Option<Secret>, LoginError>),
    AccessTokenValidated(Result<(), LoginError>),
    StoredAccessToken(Result<Secret, LoginError>),
}

}
