use vstd::prelude::*;

verus! {

/// The parts of a parsed URL that component resolution reads.
#[derive(Debug, Clone)]
pub struct ParsedUrl {
    /// The scheme, lower-cased, without the `:` delimiter.
    pub scheme: String,
    /// The host, if the URL has one.
    pub host: Option<String>,
    /// The path, percent-encoded.
    pub path: String,
    /// The query string, without the `?`.
    pub query: Option<String>,
    /// The fragment, without the `#`.
    pub fragment: Option<String>,
}

pub struct ParsedUrlView {
    pub scheme: Seq<char>,
    pub host: Option<Seq<char>>,
    pub path: Seq<char>,
    pub query: Option<Seq<char>>,
    pub fragment: Option<Seq<char>>,
}

/// The characters of an optional string.
pub open spec fn opt_string_view(s: Option<String>) -> Option<Seq<char>> {
    match s {
        Some(s) => Some(s@),
        None => None,
    }
}

/// The characters of an optional string slice.
pub open spec fn opt_str_view(s: Option<&str>) -> Option<Seq<char>> {
    match s {
        Some(s) => Some(s@),
        None => None,
    }
}

impl View for ParsedUrl {
    type V = ParsedUrlView;

    open spec fn view(&self) -> ParsedUrlView {
        ParsedUrlView {
            scheme: self.scheme@,
            host: opt_string_view(self.host),
            path: self.path@,
            query: opt_string_view(self.query),
            fragment: opt_string_view(self.fragment),
        }
    }
}

/// Why a URL did not parse: whether the input was a relative URL given
/// without a base URL, and the error's display and debug text.
#[derive(Debug, Clone)]
pub struct UrlParseFailure {
    pub without_base: bool,
    pub display: String,
    pub debug: String,
}

pub struct UrlParseFailureView {
    pub without_base: bool,
    pub display: Seq<char>,
    pub debug: Seq<char>,
}

impl View for UrlParseFailure {
    type V = UrlParseFailureView;

    open spec fn view(&self) -> UrlParseFailureView {
        UrlParseFailureView {
            without_base: self.without_base,
            display: self.display@,
            debug: self.debug@,
        }
    }
}

/// The mathematical value of a parse outcome.
pub open spec fn parse_outcome_view(outcome: Result<ParsedUrl, UrlParseFailure>) -> Result<
    ParsedUrlView,
    UrlParseFailureView,
> {
    match outcome {
        Ok(parsed) => Ok(parsed@),
        Err(failure) => Err(failure@),
    }
}

/// What `url::Url::parse` makes of an input, by the parts read here.
pub uninterp spec fn url_parse_outcome(input: Seq<char>) -> Result<
    ParsedUrlView,
    UrlParseFailureView,
>;

/// What `url::Url::join` makes of an input against the URL that `base`
/// parses to, by the parts read here.
pub uninterp spec fn url_join_outcome(base: Seq<char>, input: Seq<char>) -> Result<
    ParsedUrlView,
    UrlParseFailureView,
>;

/// Parses `input` as an absolute URL with `url::Url::parse`, and hands back
/// its scheme, host (`host_str`), path, query and fragment, or the failure:
/// whether it is `ParseError::RelativeUrlWithoutBase`, with the error's
/// display and debug text. The outcome is named (`url_parse_outcome`), not
/// stated: the parsing rules are those of the WHATWG URL standard.
#[verifier::external_body]
pub(crate) fn parse_url(input: &str) -> (outcome: Result<ParsedUrl, UrlParseFailure>)
    ensures
        parse_outcome_view(outcome) == url_parse_outcome(input@),
{
    match url::Url::parse(input) {
        Ok(u) => Ok(ParsedUrl { scheme: u.scheme().to_owned(), host: u.host_str().map(str::to_owned),
            path: u.path().to_owned(), query: u.query().map(str::to_owned),
            fragment: u.fragment().map(str::to_owned) }),
        Err(e) => Err(UrlParseFailure { without_base: e == url::ParseError::RelativeUrlWithoutBase,
            display: e.to_string(), debug: format!("{:?}", e) }),
    }
}

/// Parses `base` with `url::Url::parse` and resolves `input` against it with
/// `url::Url::join`, handing back the parts of the result or the failure as
/// `parse_url` does (a failure to parse `base` is handed back the same way).
/// The outcome is named (`url_join_outcome`), not stated.
#[verifier::external_body]
pub(crate) fn join_url(base: &str, input: &str) -> (outcome: Result<ParsedUrl, UrlParseFailure>)
    ensures
        parse_outcome_view(outcome) == url_join_outcome(base@, input@),
{
    let joined = match url::Url::parse(base) { Ok(b) => b.join(input), Err(e) => Err(e) };
    match joined {
        Ok(u) => Ok(ParsedUrl { scheme: u.scheme().to_owned(), host: u.host_str().map(str::to_owned),
            path: u.path().to_owned(), query: u.query().map(str::to_owned),
            fragment: u.fragment().map(str::to_owned) }),
        Err(e) => Err(UrlParseFailure { without_base: e == url::ParseError::RelativeUrlWithoutBase,
            display: e.to_string(), debug: format!("{:?}", e) }),
    }
}

} // verus!
