use vstd::prelude::*;

use crate::address::{
    address_from_absolute, address_outcome_view, parse_relative_url, relative_base,
    strip_leading_slash, without_leading_slash, relative_url_from, AddressView, ComponentAddress, KindView,
};
use crate::context::ComponentResolutionContext;
use crate::error::{ResolverError, ResolverErrorView};
use crate::url_parsing::{
    opt_str_view, opt_string_view, url_join_outcome, url_parse_outcome, ParsedUrl, ParsedUrlView,
    UrlParseFailureView,
};

verus! {

/// The address of a resolved ancestor component and the context it hands to
/// its descendants: what a relative URL of a descendant is resolved with.
pub struct ResolvedAncestorComponent {
    /// The ancestor's address: its scheme selects the resolver of a relative
    /// path URL; a resource URL reuses all of it but the resource.
    pub address: ComponentAddress,
    /// The context for resolving the ancestor's descendants, if its resolver
    /// returned one.
    pub context_to_resolve_children: Option<ComponentResolutionContext>,
}

/// The scheme of the components that Realm Builder synthesizes: they come
/// from no package.
pub open spec fn realm_builder_scheme() -> Seq<char> {
    "realm-builder"@
}

/// Whether a component with this address comes from a package: every one
/// does but those that Realm Builder synthesizes.
pub open spec fn is_packaged(address: AddressView) -> bool {
    address.scheme != realm_builder_scheme()
}

impl ResolvedAncestorComponent {
    /// The ancestor with this address and context.
    pub fn new(
        address: ComponentAddress,
        context_to_resolve_children: Option<ComponentResolutionContext>,
    ) -> (ancestor: Self)
        ensures
            ancestor.address == address,
            ancestor.context_to_resolve_children == context_to_resolve_children,
    {
        ResolvedAncestorComponent { address, context_to_resolve_children }
    }

    /// One step of the search for the first packaged ancestor, on a resolved
    /// ancestor: it is the one sought unless Realm Builder synthesized it, in
    /// which case the search goes on with its parent (`None`).
    pub fn if_packaged(
        address: ComponentAddress,
        context_to_resolve_children: Option<ComponentResolutionContext>,
    ) -> (found: Option<Self>)
        ensures
            found is Some <==> is_packaged(address@),
            found matches Some(ancestor) ==> ancestor.address == address
                && ancestor.context_to_resolve_children == context_to_resolve_children,
    {
        let realm_builder = String::from_str("realm-builder");
        let scheme = String::from_str(address.scheme());
        if scheme.eq(&realm_builder) {
            None
        } else {
            Some(ResolvedAncestorComponent { address, context_to_resolve_children })
        }
    }
}

/// What a component answers when asked for its parent: a parent component,
/// nothing (it is the root, whose parent is above the component tree), or a
/// failure, given by its debug rendering.
pub enum ParentLookup<P> {
    Component(P),
    AboveRoot,
    Failed(String),
}

/// The message of the error for a component that gave no parent: it names
/// the component by moniker and URL, and quotes the failure if there was one.
pub open spec fn no_parent_message(
    moniker: Seq<char>,
    url: Seq<char>,
    failure: Option<Seq<char>>,
) -> Seq<char> {
    let lead = "Component "@ + moniker + " ("@ + url + ") has no parent for context"@;
    match failure {
        Some(f) => lead + ": "@ + f + "."@,
        None => lead + "."@,
    }
}

/// The parent that a lookup gave, or, for a component that gave none, the
/// error that a relative URL needs a parent with a context.
pub fn parent_from_lookup<P>(lookup: ParentLookup<P>, moniker: &str, url: &str) -> (parent: Result<
    P,
    ResolverError,
>)
    ensures
        match lookup {
            ParentLookup::Component(p) => parent == Ok::<P, ResolverError>(p),
            ParentLookup::AboveRoot => parent matches Err(e) && e@
                == ResolverErrorView::NoParentContext(no_parent_message(moniker@, url@, None)),
            ParentLookup::Failed(f) => parent matches Err(e) && e@
                == ResolverErrorView::NoParentContext(
                no_parent_message(moniker@, url@, Some(f@)),
            ),
        },
{
    let mut message = String::from_str("Component ");
    message.append(moniker);
    message.append(" (");
    message.append(url);
    message.append(") has no parent for context");
    match lookup {
        ParentLookup::Component(p) => Ok(p),
        ParentLookup::AboveRoot => {
            message.append(".");
            Err(ResolverError::no_parent_context(message))
        },
        ParentLookup::Failed(f) => {
            message.append(": ");
            message.append(f.as_str());
            message.append(".");
            Err(ResolverError::no_parent_context(message))
        },
    }
}

/// Where computing an address from a component URL stands after the URL
/// alone has been read.
pub enum FromUrlStep {
    /// The address is computed, or computing it failed.
    Done(Result<ComponentAddress, ResolverError>),
    /// The URL holds only a resource: the address is the direct parent's,
    /// with this resource.
    NeedsDirectParent { resource: Option<String> },
    /// The URL is a relative path: it is resolved with the scheme and the
    /// context of the first packaged ancestor.
    NeedsPackagedAncestor { path: String, resource: Option<String> },
}

pub enum FromUrlStepView {
    Done(Result<AddressView, ResolverErrorView>),
    NeedsDirectParent { resource: Option<Seq<char>> },
    NeedsPackagedAncestor { path: Seq<char>, resource: Option<Seq<char>> },
}

impl View for FromUrlStep {
    type V = FromUrlStepView;

    open spec fn view(&self) -> FromUrlStepView {
        match self {
            FromUrlStep::Done(outcome) => FromUrlStepView::Done(address_outcome_view(*outcome)),
            FromUrlStep::NeedsDirectParent { resource } => FromUrlStepView::NeedsDirectParent {
                resource: opt_string_view(*resource),
            },
            FromUrlStep::NeedsPackagedAncestor { path, resource } =>
                FromUrlStepView::NeedsPackagedAncestor {
                path: path@,
                resource: opt_string_view(*resource),
            },
        }
    }
}

/// The message of the error for a relative URL with a query string.
pub open spec fn query_not_allowed_message(url: Seq<char>) -> Seq<char> {
    "Query strings are not allowed in relative component URLs: "@ + url
}

/// Whether `path` can be the path of a `RelativePath` address: it is not
/// empty and does not start with a slash.
pub open spec fn is_relative_address_path(path: Seq<char>) -> bool {
    path.len() > 0 && path[0] != '/'
}

/// The step that a parsed relative URL leads to: a URL with neither a path
/// nor a fragment is malformed, and so is one with a query; one with only a
/// fragment needs the direct parent; one with a path needs the first
/// packaged ancestor, unless the path, without the leading slash that joining
/// to the base gives it, still starts with a slash, which makes the URL
/// malformed.
pub open spec fn step_from_relative(url: Seq<char>, relative: ParsedUrlView) -> FromUrlStepView {
    let path = without_leading_slash(relative.path);
    if relative.fragment is None && path.len() == 0 {
        FromUrlStepView::Done(Err(ResolverErrorView::MalformedUrl(url)))
    } else if relative.query is Some {
        FromUrlStepView::Done(Err(ResolverErrorView::MalformedUrl(query_not_allowed_message(url))))
    } else if path.len() == 0 {
        FromUrlStepView::NeedsDirectParent { resource: relative.fragment }
    } else if path[0] == '/' {
        FromUrlStepView::Done(Err(ResolverErrorView::MalformedUrl(url)))
    } else {
        FromUrlStepView::NeedsPackagedAncestor { path, resource: relative.fragment }
    }
}

/// The first step of computing an address from `url`, given what parsing it
/// as an absolute URL gave and what joining it to the base gave: unless it is
/// a relative URL, the address is that of an absolute URL; a relative URL
/// that parses leads to `step_from_relative`.
pub open spec fn first_step(
    url: Seq<char>,
    absolute: Result<ParsedUrlView, UrlParseFailureView>,
    joined: Result<ParsedUrlView, UrlParseFailureView>,
) -> FromUrlStepView {
    match address_from_absolute(url, absolute) {
        Err(ResolverErrorView::RelativeUrlNotExpected(_)) => match relative_url_from(
            url,
            absolute,
            joined,
        ) {
            Err(e) => FromUrlStepView::Done(Err(e)),
            Ok(relative) => step_from_relative(url, relative),
        },
        outcome => FromUrlStepView::Done(outcome),
    }
}

fn string_is_empty(s: &String) -> (empty: bool)
    ensures
        empty == (s@.len() == 0),
{
    s.as_str().is_empty()
}

/// The step that a parsed relative URL leads to (see `step_from_relative`).
pub fn relative_url_step(component_url: &str, relative: ParsedUrl) -> (step: FromUrlStep)
    ensures
        step@ == step_from_relative(component_url@, relative@),
        step matches FromUrlStep::NeedsPackagedAncestor { path, .. } ==> is_relative_address_path(
            path@,
        ),
{
    let path = strip_leading_slash(relative.path.as_str());
    if relative.fragment.is_none() && string_is_empty(&path) {
        return FromUrlStep::Done(Err(ResolverError::malformed_url(component_url.to_owned())));
    }
    if relative.query.is_some() {
        let mut message = String::from_str(
            "Query strings are not allowed in relative component URLs: ",
        );
        message.append(component_url);
        return FromUrlStep::Done(Err(ResolverError::malformed_url(message)));
    }
    if string_is_empty(&path) {
        FromUrlStep::NeedsDirectParent { resource: relative.fragment }
    } else if path.as_str().get_char(0) == '/' {
        FromUrlStep::Done(Err(ResolverError::malformed_url(component_url.to_owned())))
    } else {
        FromUrlStep::NeedsPackagedAncestor { path, resource: relative.fragment }
    }
}

/// The first step of computing an address from `component_url` (see
/// `first_step`). A URL that is not refused as relative by
/// `from_absolute_url` gives that function's outcome, unchanged, and needs
/// no ancestor.
pub fn from_url_step(component_url: &str) -> (step: FromUrlStep)
    ensures
        step@ == first_step(
            component_url@,
            url_parse_outcome(component_url@),
            url_join_outcome(relative_base(), component_url@),
        ),
        !(address_from_absolute(component_url@, url_parse_outcome(component_url@)) is Err
            && address_from_absolute(component_url@, url_parse_outcome(component_url@))->Err_0
            is RelativeUrlNotExpected) ==> step@ == FromUrlStepView::Done(
            address_from_absolute(component_url@, url_parse_outcome(component_url@)),
        ),
{
    match ComponentAddress::from_absolute_url(component_url) {
        Err(ResolverError::RelativeUrlNotExpected(_)) => {},
        outcome => return FromUrlStep::Done(outcome),
    }
    match parse_relative_url(component_url) {
        Err(e) => FromUrlStep::Done(Err(e)),
        Ok(relative) => relative_url_step(component_url, relative),
    }
}

/// The address that a URL holding only a resource gives: the direct parent's
/// address with that resource, computed from `url`.
pub open spec fn address_in_parent(
    url: Seq<char>,
    parent: AddressView,
    resource: Option<Seq<char>>,
) -> AddressView {
    AddressView { resource, original_url: Some(url), ..parent }
}

/// Whether `message` is that of the error for a relative path URL whose
/// packaged ancestor gave no context: it quotes the URL and ends with a
/// rendering of the ancestor's address.
pub open spec fn is_missing_context_message(message: Seq<char>, url: Seq<char>) -> bool {
    exists|rendering: Seq<char>|
        message == "Relative path component URL '"@ + url
            + "' cannot be resolved because its ancestor did not provide a resolution context. The ancestor's component address is "@
            + rendering + "."@
}

/// Renders an address with its `Debug` formatting (`format!("{:?}", ..)`),
/// for an error message. Nothing is stated of the text.
#[verifier::external_body]
fn address_debug_text(address: &ComponentAddress) -> String {
    format!("{:?}", address)
}

/// Completes an address whose URL holds only a resource, from the direct
/// parent: the parent's address with that resource (see `address_in_parent`).
pub fn from_direct_parent(
    component_url: &str,
    parent: &ResolvedAncestorComponent,
    resource: Option<&str>,
) -> (address: ComponentAddress)
    ensures
        address@ == address_in_parent(component_url@, parent.address@, opt_str_view(resource)),
{
    parent.address.clone_with_new_resource(resource).with_original_url(component_url)
}

/// Completes the address of a relative path URL from the first packaged
/// ancestor: a `RelativePath` address with the ancestor's scheme and context,
/// or, if the ancestor gave no context, the error that says so. The path of
/// a `RelativePath` address is not empty and does not start with a slash, as
/// the path of a `NeedsPackagedAncestor` step is.
pub fn from_packaged_ancestor(
    component_url: &str,
    ancestor: &ResolvedAncestorComponent,
    path: &str,
    resource: Option<&str>,
) -> (outcome: Result<ComponentAddress, ResolverError>)
    requires
        is_relative_address_path(path@),
    ensures
        outcome matches Ok(address) ==> is_relative_address_path(address@.path),
        outcome is Ok <==> ancestor.context_to_resolve_children is Some,
        outcome matches Ok(address) ==> address@ == (AddressView {
            kind: KindView::RelativePath {
                context: ancestor.context_to_resolve_children->0@,
            },
            scheme: ancestor.address@.scheme,
            path: path@,
            resource: opt_str_view(resource),
            original_url: Some(component_url@),
        }),
        outcome matches Err(e) ==> e@ is RelativeUrlMissingContext && is_missing_context_message(
            e@->RelativeUrlMissingContext_0,
            component_url@,
        ),
{
    let context = match &ancestor.context_to_resolve_children {
        Some(context) => context.clone(),
        None => {
            let mut message = String::from_str("Relative path component URL '");
            message.append(component_url);
            message.append(
                "' cannot be resolved because its ancestor did not provide a resolution context. The ancestor's component address is ",
            );
            let rendering = address_debug_text(&ancestor.address);
            message.append(rendering.as_str());
            message.append(".");
            assert(is_missing_context_message(message@, component_url@));
            return Err(ResolverError::RelativeUrlMissingContext(message));
        },
    };
    let address = ComponentAddress::new_relative_path(
        path,
        resource,
        ancestor.address.scheme(),
        context,
    );
    Ok(address.with_original_url(component_url))
}

} // verus!
