use vstd::prelude::*;

use crate::context::{bytes_equal, ComponentResolutionContext};
use crate::error::{ResolverError, ResolverErrorView};
use crate::url_parsing::{
    join_url, opt_str_view, opt_string_view, parse_outcome_view, parse_url, url_join_outcome,
    url_parse_outcome, ParsedUrl, ParsedUrlView, UrlParseFailure, UrlParseFailureView,
};

verus! {

/// The kind of a `ComponentAddress`, with the properties that belong to that
/// kind. A URL made of a resource fragment alone (such as `#meta/comp.cm`)
/// has no kind of its own: it becomes an address of its parent's kind.
#[derive(Debug)]
pub enum ComponentAddressKind {
    /// A fully qualified component URL, with scheme and host (which may be
    /// empty), such as `fuchsia-pkg://fuchsia.com/some_package#meta/comp.cm`.
    /// Only an absolute URL may have a query string (kept without its `?`).
    Absolute { host: String, some_query: Option<String> },
    /// A relative component URL that starts with the package path, such as a
    /// subpackage URL `needed_package#meta/dep_component.cm`. The context is
    /// the one that the first packaged ancestor's resolver returned.
    RelativePath { context: ComponentResolutionContext },
}

/// The mathematical value of a `ComponentAddressKind`.
pub enum KindView {
    Absolute { host: Seq<char>, query: Option<Seq<char>> },
    RelativePath { context: Seq<u8> },
}

impl View for ComponentAddressKind {
    type V = KindView;

    open spec fn view(&self) -> KindView {
        match self {
            ComponentAddressKind::Absolute { host, some_query } => KindView::Absolute {
                host: host@,
                query: opt_string_view(*some_query),
            },
            ComponentAddressKind::RelativePath { context } => KindView::RelativePath {
                context: context@,
            },
        }
    }
}

/// The address of a component, computed from its URL and, for a relative
/// URL, from its ancestors.
#[derive(Debug)]
pub struct ComponentAddress {
    /// `Absolute` or `RelativePath`, with the properties of that kind.
    kind: ComponentAddressKind,
    /// The scheme of the URL, or of the ancestor's URL for a relative path;
    /// it selects the resolver.
    scheme: String,
    /// The path of the URL, without a leading slash.
    path: String,
    /// The fragment of the URL: the resource within the package.
    some_resource: Option<String>,
    /// The URL the address was computed from, when it was computed from one.
    some_original_url: Option<String>,
    /// The resolver-ready URL of this address.
    url: String,
}

/// The mathematical value of a `ComponentAddress`. The resolver-ready URL is
/// not part of it: it is computed from the rest (`address_url`).
pub struct AddressView {
    pub kind: KindView,
    pub scheme: Seq<char>,
    pub path: Seq<char>,
    pub resource: Option<Seq<char>>,
    pub original_url: Option<Seq<char>>,
}

impl View for ComponentAddress {
    type V = AddressView;

    closed spec fn view(&self) -> AddressView {
        AddressView {
            kind: self.kind@,
            scheme: self.scheme@,
            path: self.path@,
            resource: opt_string_view(self.some_resource),
            original_url: opt_string_view(self.some_original_url),
        }
    }
}

/// `prefix` followed by `part`, or nothing when there is no part.
pub open spec fn prefixed(prefix: Seq<char>, part: Option<Seq<char>>) -> Seq<char> {
    match part {
        Some(p) => prefix + p,
        None => Seq::empty(),
    }
}

/// The resolver-ready URL of an address with these properties. An absolute
/// address is written `scheme://host/path?query#resource`, where the path
/// part is left out when the path is empty and the host is not; a relative
/// path address is written `path#resource`.
pub open spec fn url_of(
    kind: KindView,
    scheme: Seq<char>,
    path: Seq<char>,
    resource: Option<Seq<char>>,
) -> Seq<char> {
    match kind {
        KindView::Absolute { host, query } => {
            let path_part = if path.len() == 0 && host.len() != 0 {
                Seq::empty()
            } else {
                "/"@ + path
            };
            scheme + "://"@ + host + path_part + prefixed("?"@, query) + prefixed("#"@, resource)
        },
        KindView::RelativePath { .. } => path + prefixed("#"@, resource),
    }
}

/// The resolver-ready URL of an address.
pub open spec fn address_url(a: AddressView) -> Seq<char> {
    url_of(a.kind, a.scheme, a.path, a.resource)
}

/// Two addresses are equal when their kinds, schemes, paths and resources
/// are; the URL they were computed from does not count.
pub open spec fn same_address(a: AddressView, b: AddressView) -> bool {
    &&& a.kind == b.kind
    &&& a.scheme == b.scheme
    &&& a.path == b.path
    &&& a.resource == b.resource
}

impl ComponentAddress {
    #[verifier::type_invariant]
    closed spec fn url_matches(self) -> bool {
        self.url@ == address_url(self@)
    }
}

impl Clone for ComponentAddressKind {
    fn clone(&self) -> (copy: ComponentAddressKind)
        ensures
            copy@ == self@,
    {
        match self {
            ComponentAddressKind::Absolute { host, some_query } => ComponentAddressKind::Absolute {
                host: host.clone(),
                some_query: some_query.clone(),
            },
            ComponentAddressKind::RelativePath { context } => ComponentAddressKind::RelativePath {
                context: context.clone(),
            },
        }
    }
}

impl Clone for ComponentAddress {
    fn clone(&self) -> (copy: ComponentAddress)
        ensures
            copy@ == self@,
    {
        proof {
            use_type_invariant(self);
        }
        ComponentAddress {
            kind: self.kind.clone(),
            scheme: self.scheme.clone(),
            path: self.path.clone(),
            some_resource: self.some_resource.clone(),
            some_original_url: self.some_original_url.clone(),
            url: self.url.clone(),
        }
    }
}

fn opt_to_string(s: Option<&str>) -> (owned: Option<String>)
    ensures
        opt_string_view(owned) == opt_str_view(s),
{
    match s {
        Some(s) => Some(s.to_owned()),
        None => None,
    }
}

fn opt_as_str(s: &Option<String>) -> (borrowed: Option<&str>)
    ensures
        opt_str_view(borrowed) == opt_string_view(*s),
{
    match s {
        Some(s) => Some(s.as_str()),
        None => None,
    }
}

fn opt_strings_equal(a: &Option<String>, b: &Option<String>) -> (same: bool)
    ensures
        same == (opt_string_view(*a) == opt_string_view(*b)),
{
    match (a, b) {
        (Some(a), Some(b)) => a.eq(b),
        (None, None) => true,
        _ => false,
    }
}

fn append_prefixed(s: &mut String, prefix: &str, part: &Option<String>)
    ensures
        final(s)@ == old(s)@ + prefixed(prefix@, opt_string_view(*part)),
{
    match part {
        Some(p) => {
            s.append(prefix);
            s.append(p.as_str());
        },
        None => {
            assert(old(s)@ + Seq::<char>::empty() =~= old(s)@);
        },
    }
}

/// Computes the resolver-ready URL of an address with these properties.
fn compute_url(
    kind: &ComponentAddressKind,
    scheme: &String,
    path: &String,
    resource: &Option<String>,
) -> (url: String)
    ensures
        url@ == url_of(kind@, scheme@, path@, opt_string_view(*resource)),
{
    match kind {
        ComponentAddressKind::Absolute { host, some_query } => {
            let mut url = String::new();
            url.append(scheme.as_str());
            url.append("://");
            url.append(host.as_str());
            if !(path.as_str().is_empty() && !host.as_str().is_empty()) {
                url.append("/");
                url.append(path.as_str());
            } else {
                assert(url@ + Seq::<char>::empty() =~= url@);
            }
            append_prefixed(&mut url, "?", some_query);
            append_prefixed(&mut url, "#", resource);
            assert(url@ =~= url_of(kind@, scheme@, path@, opt_string_view(*resource)));
            url
        },
        ComponentAddressKind::RelativePath { .. } => {
            let mut url = String::new();
            url.append(path.as_str());
            append_prefixed(&mut url, "#", resource);
            assert(url@ =~= url_of(kind@, scheme@, path@, opt_string_view(*resource)));
            url
        },
    }
}

impl ComponentAddress {
    /// Builds an address from its parts, computing its resolver-ready URL.
    fn assemble(
        kind: ComponentAddressKind,
        scheme: String,
        path: String,
        some_resource: Option<String>,
        some_original_url: Option<String>,
    ) -> (address: ComponentAddress)
        ensures
            address@ == (AddressView {
                kind: kind@,
                scheme: scheme@,
                path: path@,
                resource: opt_string_view(some_resource),
                original_url: opt_string_view(some_original_url),
            }),
    {
        let url = compute_url(&kind, &scheme, &path, &some_resource);
        ComponentAddress { kind, scheme, path, some_resource, some_original_url, url }
    }

    /// Creates an address of the `Absolute` kind.
    pub fn new_absolute(
        scheme: &str,
        host: &str,
        path: &str,
        some_query: Option<&str>,
        some_resource: Option<&str>,
    ) -> (address: Self)
        ensures
            address@ == (AddressView {
                kind: KindView::Absolute { host: host@, query: opt_str_view(some_query) },
                scheme: scheme@,
                path: path@,
                resource: opt_str_view(some_resource),
                original_url: None,
            }),
    {
        Self::assemble(
            ComponentAddressKind::Absolute {
                host: host.to_owned(),
                some_query: opt_to_string(some_query),
            },
            scheme.to_owned(),
            path.to_owned(),
            opt_to_string(some_resource),
            None,
        )
    }

    /// Creates an address of the `RelativePath` kind.
    pub fn new_relative_path(
        path: &str,
        some_resource: Option<&str>,
        scheme: &str,
        context: ComponentResolutionContext,
    ) -> (address: Self)
        ensures
            address@ == (AddressView {
                kind: KindView::RelativePath { context: context@ },
                scheme: scheme@,
                path: path@,
                resource: opt_str_view(some_resource),
                original_url: None,
            }),
    {
        Self::assemble(
            ComponentAddressKind::RelativePath { context },
            scheme.to_owned(),
            path.to_owned(),
            opt_to_string(some_resource),
            None,
        )
    }

    /// Creates a new address from this one by replacing only its resource;
    /// the new address was computed from no URL.
    pub fn clone_with_new_resource(&self, some_resource: Option<&str>) -> (address: Self)
        ensures
            address@ == (AddressView {
                kind: self@.kind,
                scheme: self@.scheme,
                path: self@.path,
                resource: opt_str_view(some_resource),
                original_url: None,
            }),
    {
        Self::assemble(
            self.kind.clone(),
            self.scheme.clone(),
            self.path.clone(),
            opt_to_string(some_resource),
            None,
        )
    }

    /// This address, recorded as computed from `original_url`.
    pub(crate) fn with_original_url(self, original_url: &str) -> (address: Self)
        ensures
            address@ == (AddressView { original_url: Some(original_url@), ..self@ }),
    {
        let mut address = self;
        proof {
            use_type_invariant(&address);
        }
        address.some_original_url = Some(original_url.to_owned());
        address
    }

    /// The kind of this address: `Absolute` or `RelativePath`.
    pub fn kind(&self) -> (kind: &ComponentAddressKind)
        ensures
            kind@ == self@.kind,
    {
        &self.kind
    }

    /// Whether the kind is `Absolute`.
    pub fn is_absolute(&self) -> (absolute: bool)
        ensures
            absolute == self@.kind is Absolute,
    {
        match self.kind {
            ComponentAddressKind::Absolute { .. } => true,
            ComponentAddressKind::RelativePath { .. } => false,
        }
    }

    /// Whether the kind is `RelativePath`.
    pub fn is_relative_path(&self) -> (relative: bool)
        ensures
            relative == self@.kind is RelativePath,
    {
        match self.kind {
            ComponentAddressKind::Absolute { .. } => false,
            ComponentAddressKind::RelativePath { .. } => true,
        }
    }

    /// The host of an `Absolute` address (possibly empty). Only defined for
    /// that kind.
    pub fn host(&self) -> (host: &str)
        requires
            self@.kind is Absolute,
        ensures
            host@ == self@.kind->Absolute_host,
    {
        match &self.kind {
            ComponentAddressKind::Absolute { host, .. } => host.as_str(),
            ComponentAddressKind::RelativePath { .. } => vstd::pervasive::unreached(),
        }
    }

    /// The resolution context needed to resolve a `RelativePath` address. Only
    /// defined for that kind.
    pub fn context(&self) -> (context: &ComponentResolutionContext)
        requires
            self@.kind is RelativePath,
        ensures
            context@ == self@.kind->RelativePath_context,
    {
        match &self.kind {
            ComponentAddressKind::RelativePath { context } => context,
            ComponentAddressKind::Absolute { .. } => vstd::pervasive::unreached(),
        }
    }

    /// The scheme of the URL, or of the ancestor's URL for a relative path;
    /// it selects the resolver.
    pub fn scheme(&self) -> (scheme: &str)
        ensures
            scheme@ == self@.scheme,
    {
        self.scheme.as_str()
    }

    /// The path of the URL.
    pub fn path(&self) -> (path: &str)
        ensures
            path@ == self@.path,
    {
        self.path.as_str()
    }

    /// The query of an `Absolute` address, if any; always `None` for a
    /// `RelativePath` address.
    pub fn query(&self) -> (query: Option<&str>)
        ensures
            opt_str_view(query) == match self@.kind {
                KindView::Absolute { query, .. } => query,
                KindView::RelativePath { .. } => None,
            },
    {
        match &self.kind {
            ComponentAddressKind::Absolute { some_query, .. } => opt_as_str(some_query),
            ComponentAddressKind::RelativePath { .. } => None,
        }
    }

    /// The resource, from the URL fragment, if any.
    pub fn resource(&self) -> (resource: Option<&str>)
        ensures
            opt_str_view(resource) == self@.resource,
    {
        opt_as_str(&self.some_resource)
    }

    /// The URL this address was computed from, if it was computed from one.
    pub fn original_url(&self) -> (original_url: Option<&str>)
        ensures
            opt_str_view(original_url) == self@.original_url,
    {
        opt_as_str(&self.some_original_url)
    }

    /// The resolver-ready URL of this address.
    pub fn url(&self) -> (url: &str)
        ensures
            url@ == address_url(self@),
    {
        proof {
            use_type_invariant(self);
        }
        self.url.as_str()
    }

    /// The resolver-ready URL, with the context to resolve it in: `Some` for a
    /// `RelativePath` address, `None` for an `Absolute` one.
    pub fn to_url_and_context(&self) -> (url_and_context: (&str, Option<&ComponentResolutionContext>))
        ensures
            url_and_context.0@ == address_url(self@),
            url_and_context.1 is Some <==> self@.kind is RelativePath,
            url_and_context.1 matches Some(c) ==> c@ == self@.kind->RelativePath_context,
    {
        let some_context = match &self.kind {
            ComponentAddressKind::Absolute { .. } => None,
            ComponentAddressKind::RelativePath { context } => Some(context),
        };
        (self.url(), some_context)
    }
}

impl PartialEq for ComponentAddressKind {
    fn eq(&self, other: &Self) -> (same: bool) {
        match (self, other) {
            (
                ComponentAddressKind::Absolute { host: h1, some_query: q1 },
                ComponentAddressKind::Absolute { host: h2, some_query: q2 },
            ) => h1.eq(h2) && opt_strings_equal(q1, q2),
            (
                ComponentAddressKind::RelativePath { context: c1 },
                ComponentAddressKind::RelativePath { context: c2 },
            ) => bytes_equal(c1.0.as_slice(), c2.0.as_slice()),
            _ => false,
        }
    }
}

impl Eq for ComponentAddressKind {}

impl vstd::std_specs::cmp::PartialEqSpecImpl for ComponentAddressKind {
    open spec fn obeys_eq_spec() -> bool {
        true
    }

    open spec fn eq_spec(&self, other: &ComponentAddressKind) -> bool {
        self@ == other@
    }
}

/// Addresses compare by kind, scheme, path and resource: neither the URL they
/// were computed from nor their resolver-ready URL counts.
impl PartialEq for ComponentAddress {
    fn eq(&self, other: &Self) -> (same: bool) {
        self.kind.eq(&other.kind) && self.scheme.eq(&other.scheme) && self.path.eq(&other.path)
            && opt_strings_equal(&self.some_resource, &other.some_resource)
    }
}

impl Eq for ComponentAddress {}

impl vstd::std_specs::cmp::PartialEqSpecImpl for ComponentAddress {
    open spec fn obeys_eq_spec() -> bool {
        true
    }

    open spec fn eq_spec(&self, other: &ComponentAddress) -> bool {
        same_address(self@, other@)
    }
}

/// The mathematical value of an outcome that is an address or an error.
pub open spec fn address_outcome_view(outcome: Result<ComponentAddress, ResolverError>) -> Result<
    AddressView,
    ResolverErrorView,
> {
    match outcome {
        Ok(address) => Ok(address@),
        Err(e) => Err(e@),
    }
}

/// The message of the error for a parsed absolute URL without a host.
pub open spec fn missing_host_message(url: Seq<char>) -> Seq<char> {
    "Parsed `host` was invalid (`None`) from URL '"@ + url + "'."@
}

/// A URL path without its leading slash, if it has one.
pub open spec fn without_leading_slash(path: Seq<char>) -> Seq<char> {
    if path.len() > 0 && path[0] == '/' {
        path.drop_first()
    } else {
        path
    }
}

/// The address that an absolute component URL gives, from what parsing it
/// gave: a relative URL is not expected here; any other parse failure makes
/// the URL malformed, with the failure's text; so does a missing host.
/// Otherwise the address is `Absolute`, with the parsed scheme, host, query
/// and fragment (as resource), the parsed path without its leading slash,
/// and the URL as its original URL.
pub open spec fn address_from_absolute(
    url: Seq<char>,
    parsed: Result<ParsedUrlView, UrlParseFailureView>,
) -> Result<AddressView, ResolverErrorView> {
    match parsed {
        Err(failure) => if failure.without_base {
            Err(ResolverErrorView::RelativeUrlNotExpected(url))
        } else {
            Err(ResolverErrorView::MalformedUrl(failure.display))
        },
        Ok(p) => match p.host {
            None => Err(ResolverErrorView::MalformedUrl(missing_host_message(url))),
            Some(host) => Ok(
                AddressView {
                    kind: KindView::Absolute { host, query: p.query },
                    scheme: p.scheme,
                    path: without_leading_slash(p.path),
                    resource: p.fragment,
                    original_url: Some(url),
                },
            ),
        },
    }
}

/// The string without its leading slash, if it has one.
pub(crate) fn strip_leading_slash(s: &str) -> (rest: String)
    ensures
        rest@ == without_leading_slash(s@),
{
    let len: usize = s.unicode_len();
    if len > 0 && s.get_char(0) == '/' {
        let rest = s.substring_char(1, len);
        assert(rest@ =~= s@.drop_first());
        rest.to_owned()
    } else {
        s.to_owned()
    }
}

impl ComponentAddress {
    /// The address that `component_url` gives, from `parsed`, what parsing it
    /// as an absolute URL gave (see `address_from_absolute`).
    pub fn from_parsed_absolute_url(
        component_url: &str,
        parsed: Result<ParsedUrl, UrlParseFailure>,
    ) -> (outcome: Result<Self, ResolverError>)
        ensures
            address_outcome_view(outcome) == address_from_absolute(
                component_url@,
                parse_outcome_view(parsed),
            ),
    {
        let url = match parsed {
            Ok(url) => url,
            Err(failure) => {
                if failure.without_base {
                    return Err(ResolverError::RelativeUrlNotExpected(component_url.to_owned()));
                } else {
                    return Err(ResolverError::malformed_url(failure.display));
                }
            },
        };
        let path = strip_leading_slash(url.path.as_str());
        let host = match &url.host {
            Some(host) => host,
            None => {
                let mut message = String::from_str("Parsed `host` was invalid (`None`) from URL '");
                message.append(component_url);
                message.append("'.");
                return Err(ResolverError::malformed_url(message));
            },
        };
        let address = Self::new_absolute(
            url.scheme.as_str(),
            host.as_str(),
            path.as_str(),
            opt_as_str(&url.query),
            opt_as_str(&url.fragment),
        );
        Ok(address.with_original_url(component_url))
    }

    /// Parses the absolute URL `component_url` and makes an `Absolute`
    /// address of it (see `address_from_absolute`).
    pub fn from_absolute_url(component_url: &str) -> (outcome: Result<Self, ResolverError>)
        ensures
            address_outcome_view(outcome) == address_from_absolute(
                component_url@,
                url_parse_outcome(component_url@),
            ),
    {
        let parsed = parse_url(component_url);
        Self::from_parsed_absolute_url(component_url, parsed)
    }
}

/// The base URL against which relative component URLs are parsed.
pub open spec fn relative_base() -> Seq<char> {
    "relative:///"@
}

/// The outcome of parsing a relative component URL, from what parsing it as
/// an absolute URL gave and what joining it to the base gave: an absolute
/// URL is refused; a relative one is joined to the base; every failure makes
/// the URL malformed, with a message that quotes it and the failure.
pub open spec fn relative_url_from(
    url: Seq<char>,
    absolute: Result<ParsedUrlView, UrlParseFailureView>,
    joined: Result<ParsedUrlView, UrlParseFailureView>,
) -> Result<ParsedUrlView, ResolverErrorView> {
    match absolute {
        Ok(_) => Err(
            ResolverErrorView::MalformedUrl(
                "Error parsing a relative URL given absolute URL '"@ + url + "'."@,
            ),
        ),
        Err(failure) => if failure.without_base {
            match joined {
                Ok(parsed) => Ok(parsed),
                Err(join_failure) => Err(
                    ResolverErrorView::MalformedUrl(
                        "Error parsing a relative component URL '"@ + url + "': "@
                            + join_failure.debug + "."@,
                    ),
                ),
            }
        } else {
            Err(
                ResolverErrorView::MalformedUrl(
                    "Unexpected error while parsing a component URL '"@ + url + "': "@
                        + failure.debug + "."@,
                ),
            )
        },
    }
}

/// The mathematical value of an outcome that is a parsed URL or an error.
pub open spec fn parsed_outcome_view(outcome: Result<ParsedUrl, ResolverError>) -> Result<
    ParsedUrlView,
    ResolverErrorView,
> {
    match outcome {
        Ok(parsed) => Ok(parsed@),
        Err(e) => Err(e@),
    }
}

fn quoted_failure_message(lead: &str, url: &str, debug: &str) -> (message: String)
    ensures
        message@ == lead@ + url@ + "': "@ + debug@ + "."@,
{
    let mut message = String::from_str(lead);
    message.append(url);
    message.append("': ");
    message.append(debug);
    message.append(".");
    message
}

/// The outcome of parsing `component_url` as a relative URL, from what
/// parsing it as an absolute URL gave (`absolute`) and what joining it to the
/// base gave (`joined`), which is needed only when `absolute` failed for lack
/// of a base (see `relative_url_from`).
pub fn parsed_relative_url(
    component_url: &str,
    absolute: Result<ParsedUrl, UrlParseFailure>,
    joined: Option<Result<ParsedUrl, UrlParseFailure>>,
) -> (outcome: Result<ParsedUrl, ResolverError>)
    requires
        (absolute matches Err(f) && f.without_base) ==> joined is Some,
    ensures
        joined matches Some(j) ==> parsed_outcome_view(outcome) == relative_url_from(
            component_url@,
            parse_outcome_view(absolute),
            parse_outcome_view(j),
        ),
        joined is None ==> forall|j: Result<ParsedUrlView, UrlParseFailureView>|
            parsed_outcome_view(outcome) == #[trigger] relative_url_from(
                component_url@,
                parse_outcome_view(absolute),
                j,
            ),
{
    match absolute {
        Ok(_) => {
            let mut message = String::from_str("Error parsing a relative URL given absolute URL '");
            message.append(component_url);
            message.append("'.");
            Err(ResolverError::malformed_url(message))
        },
        Err(failure) => {
            if failure.without_base {
                match joined {
                    Some(Ok(parsed)) => Ok(parsed),
                    Some(Err(join_failure)) => Err(
                        ResolverError::malformed_url(
                            quoted_failure_message(
                                "Error parsing a relative component URL '",
                                component_url,
                                join_failure.debug.as_str(),
                            ),
                        ),
                    ),
                    None => vstd::pervasive::unreached(),
                }
            } else {
                Err(
                    ResolverError::malformed_url(
                        quoted_failure_message(
                            "Unexpected error while parsing a component URL '",
                            component_url,
                            failure.debug.as_str(),
                        ),
                    ),
                )
            }
        },
    }
}

/// Parses `component_url` as a relative URL: resolved against the base
/// `relative:///` when it is not an absolute URL (see `relative_url_from`).
pub fn parse_relative_url(component_url: &str) -> (outcome: Result<ParsedUrl, ResolverError>)
    ensures
        parsed_outcome_view(outcome) == relative_url_from(
            component_url@,
            url_parse_outcome(component_url@),
            url_join_outcome(relative_base(), component_url@),
        ),
{
    let absolute = parse_url(component_url);
    let needs_base = match &absolute {
        Err(failure) => failure.without_base,
        Ok(_) => false,
    };
    let joined = if needs_base {
        Some(join_url("relative:///", component_url))
    } else {
        None
    };
    parsed_relative_url(component_url, absolute, joined)
}

} // verus!
