//! Which provider a login goes to, for which client, and where the browser ends
//! up.

use vstd::prelude::*;

use crate::error::LoginError;
use crate::host::{is_loopback_host, loopback_host};
use crate::text::{blank, is_blank, same_text, str_view};
use crate::url::{url_of, Url, UrlView};

verus! {

pub const DEFAULT_OAUTH_ISSUER: &'static str = "https://clerk.s2.dev";

pub const DEFAULT_OAUTH_CLIENT_ID: &'static str = "9zTKDS3tHSmaWl33";

pub const DEFAULT_OAUTH_COMPLETION_URL: &'static str = "https://s2.dev/cli/login";

/// A URL that names a site and carries nothing else: no credentials, no query
/// and no fragment.
pub open spec fn plain(url: UrlView) -> bool {
    &&& !url.cannot_be_a_base
    &&& url.username.len() == 0
    &&& url.password is None
    &&& url.query is None
    &&& url.fragment is None
}

/// A URL whose traffic cannot be read on the way: HTTPS, or HTTP that stays on
/// this machine.
pub open spec fn secure(url: UrlView) -> bool {
    ||| url.scheme == "https"@
    ||| url.scheme == "http"@ && url.host is Some && loopback_host(url.host->0)
}

/// Whether a URL names a site and carries nothing else.
fn is_plain(url: &Url) -> (is: bool)
    ensures
        is == plain(url@),
{
    !url.cannot_be_a_base() && url.username().is_empty() && !url.has_password() && !url.has_query()
        && !url.has_fragment()
}

/// Whether the traffic of a URL cannot be read on the way.
pub fn is_secure(url: &Url) -> (is: bool)
    ensures
        is == secure(url@),
{
    if same_text(url.scheme(), "https") {
        return true;
    }
    match url.host() {
        Some(host) => same_text(url.scheme(), "http") && is_loopback_host(host),
        None => false,
    }
}

/// What is wrong with a URL as an issuer.
pub open spec fn issuer_refusal(url: UrlView) -> Option<Seq<char>> {
    if !plain(url) || url.path != "/"@ {
        Some("expected an HTTP(S) origin without credentials, path, query, or fragment"@)
    } else if !secure(url) {
        Some("HTTPS is required unless the issuer is on loopback"@)
    } else {
        None
    }
}

/// The URL, if it can be that of an issuer.
pub fn validate_issuer(url: Url) -> (result: Result<Url, LoginError>)
    ensures
        match issuer_refusal(url@) {
            Some(reason) => result matches Err(LoginError::InvalidIssuer(said)) && said@ == reason,
            None => result == Ok::<Url, LoginError>(url),
        },
{
    if !is_plain(&url) || !same_text(url.path(), "/") {
        return Err(
            LoginError::InvalidIssuer(
                "expected an HTTP(S) origin without credentials, path, query, or fragment".to_owned(),
            ),
        );
    }
    if !is_secure(&url) {
        return Err(
            LoginError::InvalidIssuer(
                "HTTPS is required unless the issuer is on loopback".to_owned(),
            ),
        );
    }
    Ok(url)
}

/// The issuer that a text stands for, or why it stands for none.
pub open spec fn issuer_of(text: Seq<char>) -> Result<UrlView, Seq<char>> {
    match url_of(text) {
        Ok(url) => match issuer_refusal(url) {
            Some(reason) => Err(reason),
            None => Ok(url),
        },
        Err(reason) => Err(reason),
    }
}

/// The first of three texts that is there.
pub open spec fn first_of(
    first: Option<Seq<char>>,
    second: Option<Seq<char>>,
    fallback: Seq<char>,
) -> Seq<char> {
    match (first, second) {
        (Some(text), _) => text,
        (None, Some(text)) => text,
        (None, None) => fallback,
    }
}

/// The issuer to use: the one asked for, else the one that the environment
/// names, else that of S2.
pub fn oauth_issuer(override_url: Option<&str>, environment: Option<&str>) -> (result: Result<
    Url,
    LoginError,
>)
    ensures
        match issuer_of(
            first_of(str_view(override_url), str_view(environment), DEFAULT_OAUTH_ISSUER@),
        ) {
            Ok(issuer) => result matches Ok(url) && url@ == issuer,
            Err(reason) => result matches Err(LoginError::InvalidIssuer(said)) && said@ == reason,
        },
{
    let raw: &str = match (override_url, environment) {
        (Some(text), _) => text,
        (None, Some(text)) => text,
        (None, None) => DEFAULT_OAUTH_ISSUER,
    };
    match Url::parse(raw) {
        Ok(url) => validate_issuer(url),
        Err(reason) => Err(LoginError::InvalidIssuer(reason)),
    }
}

/// An optional text that is not blank.
pub open spec fn unless_blank(text: Option<Seq<char>>) -> Option<Seq<char>> {
    match text {
        Some(text) => if blank(text) {
            None
        } else {
            Some(text)
        },
        None => None,
    }
}

/// An optional text, if it is not blank.
fn filter_blank(text: Option<&str>) -> (kept: Option<&str>)
    ensures
        str_view(kept) == unless_blank(str_view(text)),
{
    match text {
        Some(text) => if is_blank(text) {
            None
        } else {
            Some(text)
        },
        None => None,
    }
}

/// The client to log in as: the one asked for, else the one that the environment
/// names, else the command line of S2. Blank names count for nothing.
pub fn oauth_client_id(override_id: Option<&str>, environment: Option<&str>) -> (client_id: String)
    ensures
        client_id@ == first_of(
            unless_blank(str_view(override_id)),
            unless_blank(str_view(environment)),
            DEFAULT_OAUTH_CLIENT_ID@,
        ),
{
    match (filter_blank(override_id), filter_blank(environment)) {
        (Some(client_id), _) => client_id.to_owned(),
        (None, Some(client_id)) => client_id.to_owned(),
        (None, None) => DEFAULT_OAUTH_CLIENT_ID.to_owned(),
    }
}

/// What is wrong with a URL as the site where a login ends.
pub open spec fn completion_refusal(url: UrlView) -> Option<Seq<char>> {
    if !plain(url) {
        Some("expected an HTTP(S) URL without credentials, query, or fragment"@)
    } else if !secure(url) {
        Some("HTTPS is required unless the website is on loopback"@)
    } else {
        None
    }
}

/// The URL, if a login can end there.
pub fn validate_completion_url(url: Url) -> (result: Result<Url, LoginError>)
    ensures
        match completion_refusal(url@) {
            Some(reason) => result matches Err(LoginError::InvalidCompletionUrl(said)) && said@
                == reason,
            None => result == Ok::<Url, LoginError>(url),
        },
{
    if !is_plain(&url) {
        return Err(
            LoginError::InvalidCompletionUrl(
                "expected an HTTP(S) URL without credentials, query, or fragment".to_owned(),
            ),
        );
    }
    if !is_secure(&url) {
        return Err(
            LoginError::InvalidCompletionUrl(
                "HTTPS is required unless the website is on loopback".to_owned(),
            ),
        );
    }
    Ok(url)
}

/// The site where a login ends that a text stands for, or why it stands for none.
pub open spec fn completion_of(text: Seq<char>) -> Result<UrlView, Seq<char>> {
    match url_of(text) {
        Ok(url) => match completion_refusal(url) {
            Some(reason) => Err(reason),
            None => Ok(url),
        },
        Err(reason) => Err(reason),
    }
}

/// Where the browser is sent when a login ends: the site that the environment
/// names, else that of S2. A blank name counts for nothing.
pub fn oauth_completion_url(environment: Option<&str>) -> (result: Result<Option<Url>, LoginError>)
    ensures
        match completion_of(
            first_of(unless_blank(str_view(environment)), None, DEFAULT_OAUTH_COMPLETION_URL@),
        ) {
            Ok(site) => result matches Ok(Some(url)) && url@ == site,
            Err(reason) => result matches Err(LoginError::InvalidCompletionUrl(said)) && said@
                == reason,
        },
{
    let raw: &str = match filter_blank(environment) {
        Some(text) => text,
        None => DEFAULT_OAUTH_COMPLETION_URL,
    };
    match Url::parse(raw) {
        Ok(url) => match validate_completion_url(url) {
            Ok(url) => Ok(Some(url)),
            Err(error) => Err(error),
        },
        Err(reason) => Err(LoginError::InvalidCompletionUrl(reason)),
    }
}

/// An issuer is an HTTPS origin, or an HTTP origin on this machine: nothing else
/// is accepted, from the command line or from the environment.
pub proof fn law_issuer_is_secure_origin(text: Seq<char>)
    ensures
        issuer_of(text) matches Ok(issuer) ==> plain(issuer) && issuer.path == "/"@ && secure(
            issuer,
        ),
        url_of(text) matches Ok(url) && plain(url) && url.path == "/"@ && secure(url)
            ==> issuer_of(text) == Ok::<UrlView, Seq<char>>(url_of(text)->Ok_0),
{
}

/// A text names an issuer exactly if it is a URL that can be a base, has no
/// credentials, no query, no fragment and no path but the root, and is reached over
/// HTTPS, or over HTTP on this machine. The issuer is that URL.
pub proof fn law_issuers_are_bare_secure_urls(text: Seq<char>)
    ensures
        issuer_of(text) is Ok <==> (url_of(text) matches Ok(url) && {
            &&& !url.cannot_be_a_base
            &&& url.username == Seq::<char>::empty()
            &&& url.password is None
            &&& url.query is None
            &&& url.fragment is None
            &&& url.path == "/"@
            &&& url.scheme == "https"@ || url.scheme == "http"@ && (url.host matches Some(host)
                && loopback_host(host))
        }),
        issuer_of(text) is Ok ==> issuer_of(text) == url_of(text),
{
    if let Ok(url) = url_of(text) {
        if url.username.len() == 0 {
            assert(url.username =~= Seq::<char>::empty());
        }
    }
}

/// A text names the site where a login ends exactly if it is a URL that can be a base,
/// has no credentials, no query and no fragment, and is reached over HTTPS, or over
/// HTTP on this machine. The site is that URL.
pub proof fn law_completion_sites_are_secure_urls(text: Seq<char>)
    ensures
        completion_of(text) is Ok <==> (url_of(text) matches Ok(url) && {
            &&& !url.cannot_be_a_base
            &&& url.username == Seq::<char>::empty()
            &&& url.password is None
            &&& url.query is None
            &&& url.fragment is None
            &&& url.scheme == "https"@ || url.scheme == "http"@ && (url.host matches Some(host)
                && loopback_host(host))
        }),
        completion_of(text) is Ok ==> completion_of(text) == url_of(text),
{
    if let Ok(url) = url_of(text) {
        if url.username.len() == 0 {
            assert(url.username =~= Seq::<char>::empty());
        }
    }
}

/// What the user asks for comes first, what the environment says after it, and what
/// neither of them says is the default; a blank text says nothing.
pub proof fn law_users_come_before_environments(
    user: Option<Seq<char>>,
    environment: Option<Seq<char>>,
    fallback: Seq<char>,
)
    ensures
        user matches Some(text) ==> first_of(user, environment, fallback) == text,
        user is None ==> (environment matches Some(text) ==> first_of(user, environment, fallback)
            == text),
        user is None && environment is None ==> first_of(user, environment, fallback) == fallback,
        user matches Some(text) ==> (unless_blank(user) == user <==> !blank(text)) && (
        unless_blank(user) is None <==> blank(text)),
        unless_blank(None) is None,
{
}

/// A URL that cannot be an issuer is refused for its parts before it is refused for the
/// way that it is reached, each in its own words; and so is one that cannot be the site
/// where a login ends.
pub proof fn law_refusals_name_the_fault(text: Seq<char>)
    ensures
        url_of(text) matches Err(reason) ==> issuer_of(text) == Err::<UrlView, Seq<char>>(reason)
            && completion_of(text) == Err::<UrlView, Seq<char>>(reason),
        url_of(text) matches Ok(url) ==> {
            let bare = !url.cannot_be_a_base && url.username.len() == 0 && url.password is None
                && url.query is None && url.fragment is None;
            &&& !(bare && url.path == "/"@) ==> issuer_of(text) == Err::<UrlView, Seq<char>>(
                "expected an HTTP(S) origin without credentials, path, query, or fragment"@,
            )
            &&& bare && url.path == "/"@ && issuer_of(text) is Err ==> issuer_of(text) == Err::<
                UrlView,
                Seq<char>,
            >("HTTPS is required unless the issuer is on loopback"@)
            &&& !bare ==> completion_of(text) == Err::<UrlView, Seq<char>>(
                "expected an HTTP(S) URL without credentials, query, or fragment"@,
            )
            &&& bare && completion_of(text) is Err ==> completion_of(text) == Err::<
                UrlView,
                Seq<char>,
            >("HTTPS is required unless the website is on loopback"@)
        },
{
}

}
