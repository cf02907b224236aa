//! URLs, as their parser takes them apart.

use vstd::prelude::*;
use vstd::utf8::encode_utf8;

use crate::text::{opt_view, same_opt_text, same_text};

verus! {

/// What the parser finds in a text.
pub struct PartsView {
    /// The URL written out in its normal form.
    pub text: Seq<char>,
    pub scheme: Seq<char>,
    pub username: Seq<char>,
    pub password: Option<Seq<char>>,
    pub host: Option<Seq<char>>,
    pub path: Seq<char>,
    pub query: Option<Seq<char>>,
    pub fragment: Option<Seq<char>>,
    pub cannot_be_a_base: bool,
}

/// What a URL is made of.
pub struct UrlView {
    /// The text that was parsed.
    pub source: Seq<char>,
    /// The URL written out in its normal form.
    pub text: Seq<char>,
    pub scheme: Seq<char>,
    pub username: Seq<char>,
    pub password: Option<Seq<char>>,
    pub host: Option<Seq<char>>,
    pub path: Seq<char>,
    pub query: Option<Seq<char>>,
    pub fragment: Option<Seq<char>>,
    pub cannot_be_a_base: bool,
}

/// The URL that was found in a text.
pub open spec fn found_in(source: Seq<char>, parts: PartsView) -> UrlView {
    UrlView {
        source,
        text: parts.text,
        scheme: parts.scheme,
        username: parts.username,
        password: parts.password,
        host: parts.host,
        path: parts.path,
        query: parts.query,
        fragment: parts.fragment,
        cannot_be_a_base: parts.cannot_be_a_base,
    }
}

/// The parts of a URL as its parser reports them.
pub struct UrlParts {
    text: String,
    scheme: String,
    username: String,
    password: Option<String>,
    host: Option<String>,
    path: String,
    query: Option<String>,
    fragment: Option<String>,
    cannot_be_a_base: bool,
}

impl View for UrlParts {
    type V = PartsView;

    closed spec fn view(&self) -> PartsView {
        PartsView {
            text: self.text@,
            scheme: self.scheme@,
            username: self.username@,
            password: opt_view(self.password),
            host: opt_view(self.host),
            path: self.path@,
            query: opt_view(self.query),
            fragment: opt_view(self.fragment),
            cannot_be_a_base: self.cannot_be_a_base,
        }
    }
}

/// What `Url::parse` makes of a text: the parts of the URL, or why it is none.
pub uninterp spec fn url_parse(text: Seq<char>) -> Result<PartsView, Seq<char>>;

/// What `Url::origin` says of the URL that a text is parsed to: whether it has an
/// origin, and that origin written out. `None` where the text is no URL.
pub uninterp spec fn url_origin(source: Seq<char>) -> Option<(bool, Seq<char>)>;

/// What `Url::parse_with_params` makes of a text and of the pairs that are
/// added to its query: the URL written out, or why the text is no URL.
pub uninterp spec fn url_with_params(
    text: Seq<char>,
    params: Seq<(Seq<char>, Seq<char>)>,
) -> Result<Seq<char>, Seq<char>>;

/// What `Url::join` makes of a base and a reference: the URL written out, or
/// why the two give none.
pub uninterp spec fn url_join(base: Seq<char>, reference: Seq<char>) -> Result<
    Seq<char>,
    Seq<char>,
>;

/// The parts or the refusal of a parse, by their views.
pub open spec fn parsed_view(parsed: Result<UrlParts, String>) -> Result<PartsView, Seq<char>> {
    match parsed {
        Ok(parts) => Ok(parts@),
        Err(error) => Err(error@),
    }
}

/// A text or a refusal, by their views.
pub open spec fn text_view(result: Result<String, String>) -> Result<Seq<char>, Seq<char>> {
    match result {
        Ok(text) => Ok(text@),
        Err(error) => Err(error@),
    }
}

/// `reqwest::Url::parse`, with the parts read off by the accessors of the
/// parsed URL and the refusal turned into its message. What the parser makes of
/// a text is named, not stated.
///
/// At lengths near 4 GiB (an authority of more than 2,147,483,647 characters, a
/// scheme a few bytes short of 4 GiB, a query or fragment that starts at byte
/// 4,294,967,295) counters of the parser overflow. An optimized build wraps them and
/// returns; one with overflow checks would panic.
#[verifier::external_body]
fn parse_parts(text: &str) -> (parsed: Result<UrlParts, String>)
    ensures
        parsed_view(parsed) == url_parse(text@),
{
    let url = reqwest::Url::parse(text).map_err(|error| error.to_string())?;
    Ok(UrlParts {
        text: url.to_string(),
        scheme: url.scheme().to_owned(),
        username: url.username().to_owned(),
        password: url.password().map(str::to_owned),
        host: url.host_str().map(str::to_owned),
        path: url.path().to_owned(),
        query: url.query().map(str::to_owned),
        fragment: url.fragment().map(str::to_owned),
        cannot_be_a_base: url.cannot_be_a_base(),
    })
}

/// `reqwest::Url::origin` of a text that is parsed first: whether the origin is
/// one of scheme, host and port, and the origin written out. What it says is
/// named, not stated. A `blob:` URL is left out: its origin is that of the URL
/// in its path, and as deep as such URLs are nested, so deep the call would
/// nest. Of lengths near 4 GiB the same holds as of [`parse_parts`].
#[verifier::external_body]
fn read_origin(source: &str) -> (origin: Option<(bool, String)>)
    requires
        url_parse(source@) matches Ok(url) ==> url.scheme != "blob"@,
    ensures
        (match origin {
            Some((tuple, text)) => Some((tuple, text@)),
            None => None,
        }) == url_origin(source@),
{
    let origin = reqwest::Url::parse(source).ok()?.origin();
    Some((origin.is_tuple(), origin.ascii_serialization()))
}

/// At most so many bytes go into a query for these pairs: three for each byte of
/// them, and two more for each pair.
pub open spec fn query_bytes(params: Seq<(Seq<char>, Seq<char>)>) -> nat
    decreases params.len(),
{
    if params.len() == 0 {
        0
    } else {
        let (key, value) = params.last();
        query_bytes(params.drop_last()) + 3 * (encode_utf8(key).len() + encode_utf8(value).len())
            + 2
    }
}

/// Pairs can be added to the query of a URL: a query starts, and a fragment that
/// comes after one starts, within the first 4 GB of a URL.
pub open spec fn can_extend(
    text: Seq<char>,
    query: Option<Seq<char>>,
    fragment: Option<Seq<char>>,
    params: Seq<(Seq<char>, Seq<char>)>,
) -> bool {
    &&& query is Some || encode_utf8(text).len() <= u32::MAX
    &&& fragment is None || encode_utf8(text).len() + query_bytes(params) <= u32::MAX
}

/// `reqwest::Url::parse_with_params`, with the URL written out and the refusal
/// turned into its message. What it makes of its arguments is named, not stated;
/// it accepts what the parser accepts. It would panic where the query, or the
/// fragment after it, started beyond 4 GB. Of lengths near 4 GiB the same holds as
/// of [`parse_parts`].
#[verifier::external_body]
fn parse_with_params(text: &str, params: &Vec<(&str, &str)>) -> (extended: Result<String, String>)
    requires
        url_parse(text@) matches Ok(url) ==> can_extend(
            url.text,
            url.query,
            url.fragment,
            params_view(params@),
        ),
    ensures
        text_view(extended) == url_with_params(text@, params_view(params@)),
        extended is Ok == url_parse(text@) is Ok,
{
    reqwest::Url::parse_with_params(text, params).map(String::from).map_err(
        |error| error.to_string(),
    )
}

/// `reqwest::Url::join` on a base that is parsed first, with the URL written out
/// and a refusal turned into its message. What it makes of its arguments is
/// named, not stated. Of lengths near
/// 4 GiB the same holds as of [`parse_parts`].
#[verifier::external_body]
fn join_reference(base: &str, reference: &str) -> (joined: Result<String, String>)
    ensures
        text_view(joined) == url_join(base@, reference@),
{
    reqwest::Url::parse(base).and_then(|base| base.join(reference)).map(String::from).map_err(
        |error| error.to_string(),
    )
}

/// The characters of each pair of a query.
pub open spec fn params_view(params: Seq<(&str, &str)>) -> Seq<(Seq<char>, Seq<char>)> {
    params.map_values(|pair: (&str, &str)| (pair.0@, pair.1@))
}

/// A URL.
pub struct Url {
    source: String,
    parts: UrlParts,
}

impl View for Url {
    type V = UrlView;

    closed spec fn view(&self) -> UrlView {
        found_in(self.source@, self.parts@)
    }
}

/// What a text is as a URL.
pub open spec fn url_of(text: Seq<char>) -> Result<UrlView, Seq<char>> {
    match url_parse(text) {
        Ok(parts) => Ok(found_in(text, parts)),
        Err(error) => Err(error),
    }
}

/// A URL or a refusal, by their views.
pub open spec fn url_result_view(result: Result<Url, String>) -> Result<UrlView, Seq<char>> {
    match result {
        Ok(url) => Ok(url@),
        Err(error) => Err(error@),
    }
}

/// Pairs can be added to the query of a URL, whatever they are.
pub open spec fn takes_query(url: UrlView) -> bool {
    url.fragment is None && (url.query is Some || encode_utf8(url.text).len() <= u32::MAX)
}

/// How deep `blob:` URLs are looked into for an origin. None is nested as deep as
/// this: it would not fit into memory.
pub const MAX_NESTING: u64 = u64::MAX;

/// The origin of a URL, if it has one: that of a `blob:` URL is the origin of the
/// URL in its path.
pub open spec fn origin_within(url: UrlView, depth: nat) -> Option<Seq<char>>
    decreases depth,
{
    if url.scheme == "blob"@ {
        match url_of(url.path) {
            Ok(inner) => if depth > 0 {
                origin_within(inner, (depth - 1) as nat)
            } else {
                None
            },
            Err(_) => None,
        }
    } else {
        match url_origin(url.source) {
            Some((true, origin)) => Some(origin),
            _ => None,
        }
    }
}

/// The origin of a URL, scheme, host and port written out, if it has one.
pub open spec fn origin_of(url: UrlView) -> Option<Seq<char>> {
    origin_within(url, MAX_NESTING as nat)
}

/// Two URLs share an origin if both have one and the two are the same: a URL
/// without an origin shares it with no URL, not even with itself.
pub open spec fn same_origin(left: UrlView, right: UrlView) -> bool {
    origin_of(left) is Some && origin_of(left) == origin_of(right)
}

impl Url {
    /// A URL has the parts that were found in its text.
    #[verifier::type_invariant]
    spec fn parsed(self) -> bool {
        url_parse(self.source@) == Ok::<PartsView, Seq<char>>(self.parts@)
    }

    /// Parses an absolute URL.
    pub fn parse(text: &str) -> (result: Result<Url, String>)
        ensures
            url_result_view(result) == url_of(text@),
    {
        match parse_parts(text) {
            Ok(parts) => Ok(Url { source: text.to_owned(), parts }),
            Err(error) => Err(error),
        }
    }

    /// The URL written out.
    pub fn as_str(&self) -> (text: &str)
        ensures
            text@ == self@.text,
    {
        self.parts.text.as_str()
    }

    pub fn scheme(&self) -> (scheme: &str)
        ensures
            scheme@ == self@.scheme,
    {
        self.parts.scheme.as_str()
    }

    pub fn username(&self) -> (username: &str)
        ensures
            username@ == self@.username,
    {
        self.parts.username.as_str()
    }

    pub fn has_password(&self) -> (has: bool)
        ensures
            has == self@.password is Some,
    {
        self.parts.password.is_some()
    }

    pub fn host(&self) -> (host: Option<&str>)
        ensures
            self@.host == (match host {
                Some(host) => Some(host@),
                None => None,
            }),
    {
        match &self.parts.host {
            Some(host) => Some(host.as_str()),
            None => None,
        }
    }

    pub fn path(&self) -> (path: &str)
        ensures
            path@ == self@.path,
    {
        self.parts.path.as_str()
    }

    pub fn has_query(&self) -> (has: bool)
        ensures
            has == self@.query is Some,
    {
        self.parts.query.is_some()
    }

    pub fn has_fragment(&self) -> (has: bool)
        ensures
            has == self@.fragment is Some,
    {
        self.parts.fragment.is_some()
    }

    pub fn cannot_be_a_base(&self) -> (cannot: bool)
        ensures
            cannot == self@.cannot_be_a_base,
    {
        self.parts.cannot_be_a_base
    }

    /// The origin of the URL, scheme, host and port written out, if it has one.
    pub fn origin(&self) -> (origin: Option<String>)
        ensures
            opt_view(origin) == origin_of(self@),
    {
        let mut url = self.duplicate();
        let mut depth: u64 = MAX_NESTING;
        while same_text(url.scheme(), "blob")
            invariant
                origin_within(url@, depth as nat) == origin_of(self@),
            decreases depth,
        {
            match Url::parse(url.path()) {
                Ok(inner) => {
                    if depth == 0 {
                        return None;
                    }
                    url = inner;
                    depth = depth - 1;
                },
                Err(_) => {
                    return None;
                },
            }
        }
        proof {
            use_type_invariant(&url);
        }
        match read_origin(url.source.as_str()) {
            Some((true, origin)) => Some(origin),
            _ => None,
        }
    }

    /// Whether both URLs have an origin, and the same one.
    pub fn same_origin(&self, other: &Url) -> (same: bool)
        ensures
            same == same_origin(self@, other@),
    {
        let origin = self.origin();
        origin.is_some() && same_opt_text(&origin, &other.origin())
    }

    /// Whether both URLs are written out the same.
    pub fn same(&self, other: &Url) -> (same: bool)
        ensures
            same == (self@.text == other@.text),
    {
        self.parts.text == other.parts.text
    }

    /// Whether pairs can be added to the query, whatever they are.
    pub fn takes_query(&self) -> (takes: bool)
        ensures
            takes == takes_query(self@),
    {
        !self.has_fragment() && (self.has_query() || self.parts.text.as_str().as_bytes().len()
            as u64 <= u32::MAX as u64)
    }

    /// The URL with pairs added to its query, written out.
    pub fn with_query(&self, params: &Vec<(&str, &str)>) -> (extended: String)
        requires
            can_extend(self@.text, self@.query, self@.fragment, params_view(params@)),
        ensures
            url_with_params(self@.source, params_view(params@)) == Ok::<Seq<char>, Seq<char>>(
                extended@,
            ),
    {
        proof {
            use_type_invariant(self);
        }
        match parse_with_params(self.source.as_str(), params) {
            Ok(extended) => extended,
            Err(error) => error,
        }
    }

    /// The URL that `reference` stands for on this one, written out.
    pub fn join(&self, reference: &str) -> (joined: Result<String, String>)
        ensures
            text_view(joined) == url_join(self@.source, reference@),
    {
        join_reference(self.source.as_str(), reference)
    }

    /// A second copy of the URL.
    pub fn duplicate(&self) -> (copy: Url)
        ensures
            copy == *self,
    {
        proof {
            use_type_invariant(self);
        }
        Url {
            source: self.source.clone(),
            parts: UrlParts {
                text: self.parts.text.clone(),
                scheme: self.parts.scheme.clone(),
                username: self.parts.username.clone(),
                password: self.parts.password.clone(),
                host: self.parts.host.clone(),
                path: self.parts.path.clone(),
                query: self.parts.query.clone(),
                fragment: self.parts.fragment.clone(),
                cannot_be_a_base: self.parts.cannot_be_a_base,
            },
        }
    }
}

}
