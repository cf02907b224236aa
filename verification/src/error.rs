//! What can go wrong while logging in, and how it is put into words.

use vstd::prelude::*;

use crate::text::decimal;
use crate::text::decimal_text;

verus! {

/// The kinds of operating-system errors that make a difference here.
#[derive(Debug, Clone, Copy, PartialEq, Eq, Structural)]
pub enum IoErrorKind {
    Interrupted,
    WouldBlock,
    Other,
}

/// An operating-system error.
#[derive(Debug)]
pub struct IoFailure {
    pub kind: IoErrorKind,
    pub message: String,
}

/// A request that got no response.
#[derive(Debug)]
pub struct RequestFailure {
    /// The connection could not be made.
    pub connect: bool,
    /// The request took too long.
    pub timeout: bool,
    pub message: String,
}

/// What is the matter with the configuration.
#[derive(Debug, Clone, Copy, PartialEq, Eq, Structural)]
pub enum CliConfigErrorKind {
    /// No credential is configured, or not the selected one.
    MissingAccessToken,
    /// Another process held the configuration for too long.
    LockTimedOut,
    /// The configuration could not be locked.
    Lock(IoErrorKind),
    Other,
}

/// An error of the configuration.
#[derive(Debug)]
pub struct CliConfigError {
    pub kind: CliConfigErrorKind,
    pub message: String,
    pub help: Option<String>,
}

/// An error of the credential store.
#[derive(Debug)]
pub struct CredentialStoreError {
    /// The store holds no such credential.
    pub not_found: bool,
    /// The same call may succeed later.
    pub transient: bool,
    pub message: String,
    pub help: Option<String>,
}

/// An error of the stored access token.
#[derive(Debug)]
pub struct AccessTokenError {
    /// The store holds no access token.
    pub not_found: bool,
    pub message: String,
    pub help: Option<String>,
}

/// Why a login, a logout or the use of a login failed.
#[derive(Debug)]
pub enum LoginError {
    InvalidIssuer(String),
    InvalidCompletionUrl(String),
    HttpClient(String),
    Request { operation: &'static str, source: RequestFailure },
    Rejected { operation: &'static str, status: u16, message: String },
    InvalidResponse { operation: &'static str, source: String },
    ResponseTooLarge { operation: &'static str },
    InvalidMetadata(String),
    InvalidTokenResponse(String),
    Listen(IoFailure),
    CallbackServer(IoFailure),
    CallbackTask(String),
    TimedOut,
    CallbackClosed,
    AuthorizationRejected(String),
    SerializeCredentials(String),
    ParseCredentials(String),
    CredentialBindingMismatch,
    SessionChanged,
    UnsafeBrowserDestination,
    RevokedButNotRemoved(CliConfigError),
    RefreshPersistence(Box<LoginError>),
    LogoutIncomplete { recovery: String },
    PendingLoginCleanup { details: String },
    LoginRollback { config: Box<CliConfigError>, cleanup: Box<LoginError>, recovery: String },
    CredentialWriteRollback { write: Box<LoginError>, cleanup: Box<LoginError>, recovery: String },
    UnjournaledGrant { config: Box<CliConfigError>, revocation: Box<LoginError> },
    CredentialFile { action: &'static str, source: IoFailure },
    RefreshLock(IoFailure),
    RefreshLockTimedOut,
    Config(CliConfigError),
    Credential(CredentialStoreError),
    StoredAccessToken(AccessTokenError),
}

/// Operating-system errors that pass by themselves.
pub open spec fn passing_io(kind: IoErrorKind) -> bool {
    kind == IoErrorKind::Interrupted || kind == IoErrorKind::WouldBlock
}

fn is_passing_io(kind: IoErrorKind) -> (passing: bool)
    ensures
        passing == passing_io(kind),
{
    kind == IoErrorKind::Interrupted || kind == IoErrorKind::WouldBlock
}

/// The errors after which the same attempt may succeed: the network or the
/// server was in the way, or another process was.
pub open spec fn transient(error: LoginError) -> bool
    decreases error,
{
    match error {
        LoginError::Request { source, .. } => source.connect || source.timeout,
        LoginError::Rejected { status, .. } => 500 <= status < 600 || status == 408 || status
            == 429,
        LoginError::CredentialFile { source, .. } => passing_io(source.kind),
        LoginError::RefreshLock(source) => passing_io(source.kind),
        LoginError::Config(error) => match error.kind {
            CliConfigErrorKind::LockTimedOut => true,
            CliConfigErrorKind::Lock(kind) => passing_io(kind),
            _ => false,
        },
        LoginError::RefreshPersistence(error) => transient(*error),
        LoginError::Credential(error) => error.transient,
        LoginError::RefreshLockTimedOut => true,
        _ => false,
    }
}

/// The errors that say that a credential is not where it should be.
pub open spec fn credential_not_found(error: LoginError) -> bool {
    match error {
        LoginError::Credential(error) => error.not_found,
        LoginError::StoredAccessToken(error) => error.not_found,
        _ => false,
    }
}

/// The errors that a change of the configuration by another process explains.
pub open spec fn reloads_auth_config(error: LoginError) -> bool {
    credential_not_found(error) || error is SessionChanged
}

/// What `Display` of `StatusCode` writes: the number and the reason.
pub uninterp spec fn status_display(status: u16) -> Option<Seq<char>>;

/// `reqwest::StatusCode::from_u16` and what `Display` writes of the status code;
/// `None` stands for a number that is no status code. The text is named, not
/// stated.
#[verifier::external_body]
fn display_status(status: u16) -> (text: Option<String>)
    ensures
        (match text {
            Some(text) => Some(text@),
            None => None,
        }) == status_display(status),
{
    reqwest::StatusCode::from_u16(status).ok().map(|status| status.to_string())
}

/// A status as it is shown: the number, and the reason where it has one.
pub open spec fn status_shown(status: u16) -> Seq<char> {
    match status_display(status) {
        Some(text) => text,
        None => decimal(status as nat),
    }
}

/// The words for an error.
pub open spec fn message_of(error: LoginError) -> Seq<char>
    decreases error,
{
    match error {
        LoginError::InvalidIssuer(reason) => "Invalid OAuth issuer: "@ + reason@,
        LoginError::InvalidCompletionUrl(reason) => "Invalid OAuth completion URL: "@ + reason@,
        LoginError::HttpClient(_) => "Failed to initialize the OAuth HTTP client"@,
        LoginError::Request { operation, .. } => "OAuth "@ + operation@ + " request failed"@,
        LoginError::Rejected { operation, status, message } => "OAuth "@ + operation@
            + " was rejected ("@ + status_shown(status) + "): "@ + message@,
        LoginError::InvalidResponse { operation, .. } => "OAuth "@ + operation@
            + " returned an invalid response"@,
        LoginError::ResponseTooLarge { operation } => "OAuth "@ + operation@
            + " response exceeded 64 KiB"@,
        LoginError::InvalidMetadata(reason) => "Invalid OAuth authorization-server metadata: "@
            + reason@,
        LoginError::InvalidTokenResponse(reason) => "OAuth token response was incomplete: "@
            + reason@,
        LoginError::Listen(_) => "Failed to listen for the browser callback"@,
        LoginError::CallbackServer(_) => "The browser callback server failed"@,
        LoginError::CallbackTask(_) => "The browser callback task failed"@,
        LoginError::TimedOut => "Timed out waiting for browser authorization"@,
        LoginError::CallbackClosed => "Browser authorization ended before a code was received"@,
        LoginError::AuthorizationRejected(reason) => "S2 login was not authorized: "@ + reason@,
        LoginError::SerializeCredentials(_) => "Failed to serialize OAuth credentials"@,
        LoginError::ParseCredentials(_) => "Stored OAuth credentials are invalid"@,
        LoginError::CredentialBindingMismatch =>
            "Stored OAuth credentials do not match the active login"@,
        LoginError::SessionChanged =>
            "Browser login changed while credentials were being refreshed"@,
        LoginError::UnsafeBrowserDestination =>
            "Refusing to send browser-login credentials to an untrusted S2 endpoint"@,
        LoginError::RevokedButNotRemoved(_) =>
            "The browser login was revoked, but local configuration could not be updated"@,
        LoginError::RefreshPersistence(_) =>
            "OAuth tokens were refreshed, but the rotated credential could not be saved"@,
        LoginError::LogoutIncomplete { .. } =>
            "The browser login was deactivated, but its local credential could not be deleted"@,
        LoginError::PendingLoginCleanup { details } =>
            "Could not finish cleaning up an older browser login: "@ + details@,
        LoginError::LoginRollback { config, cleanup, recovery } => "Failed to update the config ("@
            + config.message@ + ") and clean up the newly issued OAuth credential ("@ + message_of(
            *cleanup,
        ) + "); cleanup remains queued at "@ + recovery@,
        LoginError::CredentialWriteRollback { write, cleanup, recovery } =>
            "Failed to store OAuth credentials ("@ + message_of(*write)
            + ") and clean up the newly issued grant ("@ + message_of(*cleanup)
            + "); cleanup remains queued at "@ + recovery@,
        LoginError::UnjournaledGrant { config, revocation } =>
            "Failed to journal the newly issued OAuth credential ("@ + config.message@
            + ") and revoke its grant ("@ + message_of(*revocation)
            + "); the provider may still retain the grant"@,
        LoginError::CredentialFile { action, .. } => "Failed to "@ + action@
            + " the OAuth credentials file"@,
        LoginError::RefreshLock(_) => "Failed to acquire the OAuth refresh lock"@,
        LoginError::RefreshLockTimedOut =>
            "Timed out waiting for another S2 process to refresh OAuth credentials"@,
        LoginError::Config(error) => error.message@,
        LoginError::Credential(error) => error.message@,
        LoginError::StoredAccessToken(error) => error.message@,
    }
}

/// What to do about an error.
pub open spec fn help_of(error: LoginError) -> Option<Seq<char>> {
    match error {
        LoginError::Listen(_) => Some(
            "Check whether local applications may listen on 127.0.0.1, then retry `s2 login`."@,
        ),
        LoginError::TimedOut => Some(
            "Run `s2 login` again and finish authorization in the browser."@,
        ),
        LoginError::SessionChanged => Some(
            "Retry the command to use the current authentication selection."@,
        ),
        LoginError::UnsafeBrowserDestination => Some(
            "Use the matching HTTPS S2 endpoints. Development browser logins may use loopback endpoints; use an S2-issued access token for other custom endpoints."@,
        ),
        LoginError::RevokedButNotRemoved(_) => Some(
            "Run `s2 logout --local-only` to finish removing it locally."@,
        ),
        LoginError::RefreshPersistence(_) => Some(
            "Run `s2 login` again before the current access token expires."@,
        ),
        LoginError::LogoutIncomplete { recovery } => Some(
            "Retry `s2 logout --local-only`; the credential remains queued for cleanup at "@
                + recovery@ + "."@,
        ),
        LoginError::PendingLoginCleanup { .. } => Some(
            "Restore access to the credential store and OAuth provider, then retry. To abandon server-side revocation, run `s2 logout --local-only`."@,
        ),
        LoginError::Config(error) => crate::text::opt_view(error.help),
        LoginError::Credential(error) => crate::text::opt_view(error.help),
        LoginError::StoredAccessToken(error) => crate::text::opt_view(error.help),
        _ => None,
    }
}

/// Two texts, one after the other.
fn join2(first: &str, second: &str) -> (text: String)
    ensures
        text@ == first@ + second@,
{
    let mut text = first.to_owned();
    text.append(second);
    text
}

/// Three texts, one after the other.
fn join3(first: &str, second: &str, third: &str) -> (text: String)
    ensures
        text@ == first@ + second@ + third@,
{
    let mut text = join2(first, second);
    text.append(third);
    text
}

/// The error that no credential is configured.
pub open spec fn says_missing_access_token(error: CliConfigError) -> bool {
    &&& error.kind is MissingAccessToken
    &&& error.message@ == "Missing access token"@
    &&& error.help is None
}

impl CliConfigError {
    /// No credential is configured.
    pub fn missing_access_token() -> (error: CliConfigError)
        ensures
            says_missing_access_token(error),
    {
        CliConfigError {
            kind: CliConfigErrorKind::MissingAccessToken,
            message: "Missing access token".to_owned(),
            help: None,
        }
    }
}

impl LoginError {
    /// Whether the same attempt may succeed later.
    pub fn is_transient(&self) -> (is: bool)
        ensures
            is == transient(*self),
        decreases self,
    {
        match self {
            LoginError::Request { source, .. } => source.connect || source.timeout,
            LoginError::Rejected { status, .. } => (500 <= *status && *status < 600) || *status
                == 408 || *status == 429,
            LoginError::CredentialFile { source, .. } => is_passing_io(source.kind),
            LoginError::RefreshLock(source) => is_passing_io(source.kind),
            LoginError::Config(error) => match error.kind {
                CliConfigErrorKind::LockTimedOut => true,
                CliConfigErrorKind::Lock(kind) => is_passing_io(kind),
                _ => false,
            },
            LoginError::RefreshPersistence(error) => error.is_transient(),
            LoginError::Credential(error) => error.transient,
            LoginError::RefreshLockTimedOut => true,
            _ => false,
        }
    }

    /// Whether a credential was not where it should be.
    pub fn is_credential_not_found(&self) -> (is: bool)
        ensures
            is == credential_not_found(*self),
    {
        match self {
            LoginError::Credential(error) => error.not_found,
            LoginError::StoredAccessToken(error) => error.not_found,
            _ => false,
        }
    }

    /// Whether another process may have changed the configuration meanwhile.
    pub fn should_reload_auth_config(&self) -> (should: bool)
        ensures
            should == reloads_auth_config(*self),
    {
        self.is_credential_not_found() || matches!(self, LoginError::SessionChanged)
    }

    /// The words for this error.
    pub fn message(&self) -> (text: String)
        ensures
            text@ == message_of(*self),
        decreases self,
    {
        match self {
            LoginError::InvalidIssuer(reason) => join2("Invalid OAuth issuer: ", reason.as_str()),
            LoginError::InvalidCompletionUrl(reason) => join2(
                "Invalid OAuth completion URL: ",
                reason.as_str(),
            ),
            LoginError::HttpClient(_) => "Failed to initialize the OAuth HTTP client".to_owned(),
            LoginError::Request { operation, .. } => join3("OAuth ", operation, " request failed"),
            LoginError::Rejected { operation, status, message } => {
                let mut text = join3("OAuth ", operation, " was rejected (");
                let shown = match display_status(*status) {
                    Some(shown) => shown,
                    None => decimal_text(*status as u64),
                };
                text.append(shown.as_str());
                text.append("): ");
                text.append(message.as_str());
                text
            },
            LoginError::InvalidResponse { operation, .. } => join3(
                "OAuth ",
                operation,
                " returned an invalid response",
            ),
            LoginError::ResponseTooLarge { operation } => join3(
                "OAuth ",
                operation,
                " response exceeded 64 KiB",
            ),
            LoginError::InvalidMetadata(reason) => join2(
                "Invalid OAuth authorization-server metadata: ",
                reason.as_str(),
            ),
            LoginError::InvalidTokenResponse(reason) => join2(
                "OAuth token response was incomplete: ",
                reason.as_str(),
            ),
            LoginError::Listen(_) => "Failed to listen for the browser callback".to_owned(),
            LoginError::CallbackServer(_) => "The browser callback server failed".to_owned(),
            LoginError::CallbackTask(_) => "The browser callback task failed".to_owned(),
            LoginError::TimedOut => "Timed out waiting for browser authorization".to_owned(),
            LoginError::CallbackClosed =>
                "Browser authorization ended before a code was received".to_owned(),
            LoginError::AuthorizationRejected(reason) => join2(
                "S2 login was not authorized: ",
                reason.as_str(),
            ),
            LoginError::SerializeCredentials(_) =>
                "Failed to serialize OAuth credentials".to_owned(),
            LoginError::ParseCredentials(_) => "Stored OAuth credentials are invalid".to_owned(),
            LoginError::CredentialBindingMismatch =>
                "Stored OAuth credentials do not match the active login".to_owned(),
            LoginError::SessionChanged =>
                "Browser login changed while credentials were being refreshed".to_owned(),
            LoginError::UnsafeBrowserDestination =>
                "Refusing to send browser-login credentials to an untrusted S2 endpoint".to_owned(),
            LoginError::RevokedButNotRemoved(_) =>
                "The browser login was revoked, but local configuration could not be updated".to_owned(),
            LoginError::RefreshPersistence(_) =>
                "OAuth tokens were refreshed, but the rotated credential could not be saved".to_owned(),
            LoginError::LogoutIncomplete { .. } =>
                "The browser login was deactivated, but its local credential could not be deleted".to_owned(),
            LoginError::PendingLoginCleanup { details } => join2(
                "Could not finish cleaning up an older browser login: ",
                details.as_str(),
            ),
            LoginError::LoginRollback { config, cleanup, recovery } => {
                let mut text = join3(
                    "Failed to update the config (",
                    config.message.as_str(),
                    ") and clean up the newly issued OAuth credential (",
                );
                text.append(cleanup.message().as_str());
                text.append("); cleanup remains queued at ");
                text.append(recovery.as_str());
                text
            },
            LoginError::CredentialWriteRollback { write, cleanup, recovery } => {
                let mut text = join3(
                    "Failed to store OAuth credentials (",
                    write.message().as_str(),
                    ") and clean up the newly issued grant (",
                );
                text.append(cleanup.message().as_str());
                text.append("); cleanup remains queued at ");
                text.append(recovery.as_str());
                text
            },
            LoginError::UnjournaledGrant { config, revocation } => {
                let mut text = join3(
                    "Failed to journal the newly issued OAuth credential (",
                    config.message.as_str(),
                    ") and revoke its grant (",
                );
                text.append(revocation.message().as_str());
                text.append("); the provider may still retain the grant");
                text
            },
            LoginError::CredentialFile { action, .. } => join3(
                "Failed to ",
                action,
                " the OAuth credentials file",
            ),
            LoginError::RefreshLock(_) => "Failed to acquire the OAuth refresh lock".to_owned(),
            LoginError::RefreshLockTimedOut =>
                "Timed out waiting for another S2 process to refresh OAuth credentials".to_owned(),
            LoginError::Config(error) => error.message.clone(),
            LoginError::Credential(error) => error.message.clone(),
            LoginError::StoredAccessToken(error) => error.message.clone(),
        }
    }

    /// What to do about this error.
    pub fn help(&self) -> (text: Option<String>)
        ensures
            crate::text::opt_view(text) == help_of(*self),
    {
        match self {
            LoginError::Listen(_) => Some(
                "Check whether local applications may listen on 127.0.0.1, then retry `s2 login`.".to_owned(),
            ),
            LoginError::TimedOut => Some(
                "Run `s2 login` again and finish authorization in the browser.".to_owned(),
            ),
            LoginError::SessionChanged => Some(
                "Retry the command to use the current authentication selection.".to_owned(),
            ),
            LoginError::UnsafeBrowserDestination => Some(
                "Use the matching HTTPS S2 endpoints. Development browser logins may use loopback endpoints; use an S2-issued access token for other custom endpoints.".to_owned(),
            ),
            LoginError::RevokedButNotRemoved(_) => Some(
                "Run `s2 logout --local-only` to finish removing it locally.".to_owned(),
            ),
            LoginError::RefreshPersistence(_) => Some(
                "Run `s2 login` again before the current access token expires.".to_owned(),
            ),
            LoginError::LogoutIncomplete { recovery } => Some(
                join3(
                    "Retry `s2 logout --local-only`; the credential remains queued for cleanup at ",
                    recovery.as_str(),
                    ".",
                ),
            ),
            LoginError::PendingLoginCleanup { .. } => Some(
                "Restore access to the credential store and OAuth provider, then retry. To abandon server-side revocation, run `s2 logout --local-only`.".to_owned(),
            ),
            LoginError::Config(error) => error.help.clone(),
            LoginError::Credential(error) => error.help.clone(),
            LoginError::StoredAccessToken(error) => error.help.clone(),
            _ => None,
        }
    }
}

/// A refused request may go better later exactly if the provider failed, timed out or
/// was asked too often; one without a response exactly if the connection failed or it
/// took too long; a failure to store new tokens exactly if its cause may; and so may a
/// lock that another process holds.
pub proof fn law_passing_errors(
    operation: &'static str,
    status: u16,
    message: String,
    source: RequestFailure,
    cause: LoginError,
    io: IoFailure,
    config: CliConfigError,
)
    ensures
        transient(LoginError::Rejected { operation, status, message }) <==> status as int / 100 == 5
            || status == 408 || status == 429,
        transient(LoginError::Request { operation, source }) <==> source.connect || source.timeout,
        transient(LoginError::RefreshPersistence(Box::new(cause))) == transient(cause),
        transient(LoginError::RefreshLock(io)) <==> io.kind is Interrupted || io.kind is WouldBlock,
        transient(LoginError::CredentialFile { action: operation, source: io }) <==> io.kind
            is Interrupted || io.kind is WouldBlock,
        transient(LoginError::RefreshLockTimedOut),
        transient(LoginError::Config(config)) <==> config.kind is LockTimedOut || (
        config.kind matches CliConfigErrorKind::Lock(kind) && (kind is Interrupted
            || kind is WouldBlock)),
{
}

/// Every other error stays: only these kinds may pass.
pub proof fn law_other_errors_stay(error: LoginError)
    ensures
        transient(error) ==> error is Request || error is Rejected || error is CredentialFile
            || error is RefreshLock || error is Config || error is RefreshPersistence
            || error is Credential || error is RefreshLockTimedOut,
        error matches LoginError::Credential(store) ==> transient(error) == store.transient,
        credential_not_found(error) <==> (error matches LoginError::Credential(store)
            && store.not_found) || (error matches LoginError::StoredAccessToken(token)
            && token.not_found),
        reloads_auth_config(error) <==> error is SessionChanged || (
        error matches LoginError::Credential(store) && store.not_found) || (
        error matches LoginError::StoredAccessToken(token) && token.not_found),
{
}

/// Errors of the metadata and of the endpoints are told in these words, and a status
/// that has no text of its own as its number.
pub proof fn law_words_of_refusals(reason: String, status: u16)
    ensures
        message_of(LoginError::InvalidMetadata(reason))
            == "Invalid OAuth authorization-server metadata: "@ + reason@,
        message_of(LoginError::UnsafeBrowserDestination)
            == "Refusing to send browser-login credentials to an untrusted S2 endpoint"@,
        help_of(LoginError::UnsafeBrowserDestination) == Some(
            "Use the matching HTTPS S2 endpoints. Development browser logins may use loopback endpoints; use an S2-issued access token for other custom endpoints."@,
        ),
        status_display(status) is None ==> status_shown(status) == decimal(status as nat),
        status_display(status) matches Some(text) ==> status_shown(status) == text,
{
}

}
