//! Where the tokens of a browser login may be sent.

use vstd::prelude::*;

use crate::config::{CliConfig, ConfigView};
use crate::error::LoginError;
use crate::host::{is_loopback_host, loopback_host};
use crate::issuer::{is_secure, secure};
use crate::text::{chars_of, same_text, string_of};
use crate::url::{url_of, Url, UrlView};

verus! {

pub const DEFAULT_ACCOUNT_ENDPOINT: &'static str = "https://a.s2.dev";

pub const DEFAULT_BASIN_ENDPOINT: &'static str = "https://{basin}.b.s2.dev";

/// The issuer of S2, written out as a URL.
pub const PRODUCTION_ISSUER: &'static str = "https://clerk.s2.dev/";

/// The endpoints that commands use: those of the configuration, else those of S2.
pub open spec fn endpoints(config: ConfigView) -> (Seq<char>, Seq<char>) {
    (
        match config.account_endpoint {
            Some(endpoint) => endpoint,
            None => DEFAULT_ACCOUNT_ENDPOINT@,
        },
        match config.basin_endpoint {
            Some(endpoint) => endpoint,
            None => DEFAULT_BASIN_ENDPOINT@,
        },
    )
}

/// The account endpoint and the basin endpoint that commands use.
pub fn effective_endpoints(config: &CliConfig) -> (result: (String, String))
    ensures
        (result.0@, result.1@) == endpoints(config@),
{
    let account = match &config.account_endpoint {
        Some(endpoint) => endpoint.clone(),
        None => DEFAULT_ACCOUNT_ENDPOINT.to_owned(),
    };
    let basin = match &config.basin_endpoint {
        Some(endpoint) => endpoint.clone(),
        None => DEFAULT_BASIN_ENDPOINT.to_owned(),
    };
    (account, basin)
}

/// A host of S2.
pub open spec fn s2_host(host: Seq<char>) -> bool {
    host == "s2.dev"@ || host.len() > 7 && host.skip(host.len() - 7) == ".s2.dev"@
}

fn is_s2_host(host: &str) -> (is: bool)
    ensures
        is == s2_host(host@),
{
    if same_text(host, "s2.dev") {
        return true;
    }
    let chars = chars_of(host);
    if chars.len() <= 7 {
        return false;
    }
    let end = string_of(&chars, chars.len() - 7, chars.len());
    assert(end@ =~= host@.skip(host@.len() - 7));
    same_text(end.as_str(), ".s2.dev")
}

/// An endpoint on this machine.
pub open spec fn loopback_endpoint(url: UrlView) -> bool {
    &&& url.scheme == "http"@ || url.scheme == "https"@
    &&& url.host is Some
    &&& loopback_host(url.host->0)
}

/// An endpoint of S2 that is reached over HTTPS.
pub open spec fn s2_endpoint(url: UrlView) -> bool {
    url.scheme == "https"@ && url.host is Some && s2_host(url.host->0)
}

fn is_loopback_endpoint(url: &Url) -> (is: bool)
    ensures
        is == loopback_endpoint(url@),
{
    match url.host() {
        Some(host) => (same_text(url.scheme(), "http") || same_text(url.scheme(), "https"))
            && is_loopback_host(host),
        None => false,
    }
}

fn is_s2_endpoint(url: &Url) -> (is: bool)
    ensures
        is == s2_endpoint(url@),
{
    match url.host() {
        Some(host) => same_text(url.scheme(), "https") && is_s2_host(host),
        None => false,
    }
}

/// The tokens of an issuer may be sent to the two endpoints: both are endpoints
/// of S2 whose certificates are verified, or both are on this machine and the
/// issuer is not that of S2.
pub open spec fn trusted_binding(
    issuer: UrlView,
    account: UrlView,
    basin: UrlView,
    ssl_no_verify: bool,
) -> bool {
    &&& secure(issuer)
    &&& {
        ||| s2_endpoint(account) && s2_endpoint(basin) && !ssl_no_verify
        ||| loopback_endpoint(account) && loopback_endpoint(basin) && issuer.text
            != PRODUCTION_ISSUER@
    }
}

/// Whether the tokens of an issuer may be sent to the two endpoints.
pub fn is_trusted_binding(issuer: &Url, account: &Url, basin: &Url, ssl_no_verify: bool) -> (trusted:
    bool)
    ensures
        trusted == trusted_binding(issuer@, account@, basin@, ssl_no_verify),
{
    is_secure(issuer) && ((is_s2_endpoint(account) && is_s2_endpoint(basin) && !ssl_no_verify) || (
    is_loopback_endpoint(account) && is_loopback_endpoint(basin) && !same_text(
        issuer.as_str(),
        PRODUCTION_ISSUER,
    )))
}

/// The tokens of an issuer may be sent to the two endpoints, all given as texts.
pub open spec fn binding_allowed(
    issuer: Seq<char>,
    account: Seq<char>,
    basin: Seq<char>,
    ssl_no_verify: bool,
) -> bool {
    match (url_of(issuer), url_of(account), url_of(basin)) {
        (Ok(issuer), Ok(account), Ok(basin)) => trusted_binding(
            issuer,
            account,
            basin,
            ssl_no_verify,
        ),
        _ => false,
    }
}

/// Refuses endpoints that the tokens of the issuer must not be sent to.
pub fn validate_endpoint_binding(
    issuer: &str,
    account_endpoint: &str,
    basin_endpoint: &str,
    ssl_no_verify: bool,
) -> (result: Result<(), LoginError>)
    ensures
        if binding_allowed(issuer@, account_endpoint@, basin_endpoint@, ssl_no_verify) {
            result is Ok
        } else {
            result matches Err(error) && error is UnsafeBrowserDestination
        },
{
    match (Url::parse(issuer), Url::parse(account_endpoint), Url::parse(basin_endpoint)) {
        (Ok(issuer), Ok(account), Ok(basin)) => if is_trusted_binding(
            &issuer,
            &account,
            &basin,
            ssl_no_verify,
        ) {
            Ok(())
        } else {
            Err(LoginError::UnsafeBrowserDestination)
        },
        _ => Err(LoginError::UnsafeBrowserDestination),
    }
}

/// The endpoints of a configuration may get the tokens of an issuer.
pub open spec fn destination_allowed(issuer: Seq<char>, config: ConfigView) -> bool {
    binding_allowed(
        issuer,
        endpoints(config).0,
        endpoints(config).1,
        config.ssl_no_verify == Some(true),
    )
}

/// The endpoints of a configuration, if they may get the tokens of the issuer.
pub fn allowed_destination(issuer: &str, config: &CliConfig) -> (result: Result<
    (String, String),
    LoginError,
>)
    ensures
        if destination_allowed(issuer@, config@) {
            result matches Ok(pair) && (pair.0@, pair.1@) == endpoints(config@)
        } else {
            result matches Err(error) && error is UnsafeBrowserDestination
        },
{
    let (account, basin) = effective_endpoints(config);
    let ssl_no_verify = match config.ssl_no_verify {
        Some(set) => set,
        None => false,
    };
    match validate_endpoint_binding(issuer, account.as_str(), basin.as_str(), ssl_no_verify) {
        Ok(()) => Ok((account, basin)),
        Err(error) => Err(error),
    }
}

/// Tokens leave this machine only over HTTPS, to hosts of S2, and with the
/// certificates verified.
pub proof fn law_tokens_leave_only_over_https(
    issuer: Seq<char>,
    account: Seq<char>,
    basin: Seq<char>,
    ssl_no_verify: bool,
)
    requires
        binding_allowed(issuer, account, basin, ssl_no_verify),
    ensures
        ({
            let account_url = url_of(account)->Ok_0;
            let basin_url = url_of(basin)->Ok_0;
            &&& !loopback_endpoint(account_url) ==> s2_endpoint(account_url) && !ssl_no_verify
            &&& !loopback_endpoint(basin_url) ==> s2_endpoint(basin_url) && !ssl_no_verify
        }),
{
}

/// A host of S2 is `s2.dev` or any name under it.
pub proof fn law_s2_hosts_end_in_s2_dev(host: Seq<char>, name: Seq<char>)
    ensures
        s2_host("s2.dev"@),
        name.len() > 0 ==> s2_host(name + ".s2.dev"@),
        s2_host(host) ==> host == "s2.dev"@ || (host.len() > 7 && host == host.take(
            host.len() - 7,
        ) + ".s2.dev"@),
{
    reveal_strlit(".s2.dev");
    let longer = name + ".s2.dev"@;
    assert(longer.skip(longer.len() - 7) =~= ".s2.dev"@);
    if host.len() > 7 && host.skip(host.len() - 7) == ".s2.dev"@ {
        assert(host =~= host.take(host.len() - 7) + host.skip(host.len() - 7));
    }
}

/// Tokens may be sent to two endpoints exactly if the issuer is reached over HTTPS or
/// on this machine, and either both endpoints are hosts of S2 over HTTPS with the
/// certificates verified, or both are on this machine and the issuer is not that of
/// S2.
pub proof fn law_bindings_are_s2_or_loopback(
    issuer: Seq<char>,
    account: Seq<char>,
    basin: Seq<char>,
    ssl_no_verify: bool,
)
    ensures
        binding_allowed(issuer, account, basin, ssl_no_verify) <==> {
            &&& url_of(issuer) matches Ok(url) && (url.scheme == "https"@ || url.scheme == "http"@
                && at_loopback(url.host))
            &&& url_of(account) is Ok && url_of(basin) is Ok
            &&& {
                let at_s2 = over_https(account) && over_https(basin) && at_s2_host(account)
                    && at_s2_host(basin) && !ssl_no_verify;
                let here = over_http(account) && over_http(basin) && at_loopback(
                    url_of(account)->Ok_0.host,
                ) && at_loopback(url_of(basin)->Ok_0.host) && url_of(issuer)->Ok_0.text
                    != "https://clerk.s2.dev/"@;
                at_s2 || here
            }
        },
{
}

/// A host of this machine.
pub open spec fn at_loopback(host: Option<Seq<char>>) -> bool {
    host matches Some(host) && loopback_host(host)
}

/// A URL of a host of S2.
pub open spec fn at_s2_host(text: Seq<char>) -> bool {
    url_of(text)->Ok_0.host matches Some(host) && s2_host(host)
}

/// A URL of the scheme `https`.
pub open spec fn over_https(text: Seq<char>) -> bool {
    url_of(text)->Ok_0.scheme == "https"@
}

/// A URL of the scheme `http` or `https`.
pub open spec fn over_http(text: Seq<char>) -> bool {
    over_https(text) || url_of(text)->Ok_0.scheme == "http"@
}

/// The endpoints that are configured are used, each for its purpose, and those of S2
/// where none is; certificates count as verified unless the configuration says
/// otherwise.
pub proof fn law_configured_endpoints_are_used(issuer: Seq<char>, config: ConfigView)
    ensures
        config.account_endpoint matches Some(text) ==> endpoints(config).0 == text,
        config.basin_endpoint matches Some(text) ==> endpoints(config).1 == text,
        config.account_endpoint is None ==> endpoints(config).0 == "https://a.s2.dev"@,
        config.basin_endpoint is None ==> endpoints(config).1 == "https://{basin}.b.s2.dev"@,
        config.ssl_no_verify == Some(true) ==> destination_allowed(issuer, config)
            == binding_allowed(issuer, endpoints(config).0, endpoints(config).1, true),
        config.ssl_no_verify != Some(true) ==> destination_allowed(issuer, config)
            == binding_allowed(issuer, endpoints(config).0, endpoints(config).1, false),
{
}

}
