use vstd::prelude::*;

use crate::address::{address_from_absolute, address_url, same_address, AddressView, KindView};
use crate::ancestry::{
    address_in_parent, first_step, is_packaged, is_relative_address_path, realm_builder_scheme,
    step_from_relative, FromUrlStepView,
};
use crate::error::{
    error_from_instance, error_from_remote, remote_error_message, ComponentInstanceErrorKind,
    RemoteResolverError, ResolverErrorView,
};
use crate::package::{resolve_package, Package};
use crate::url_parsing::{ParsedUrlView, UrlParseFailureView};

verus! {

/// Every address is of exactly one kind: `is_absolute` and
/// `is_relative_path` never agree.
pub proof fn law_one_kind(a: AddressView)
    ensures
        (a.kind is Absolute) != (a.kind is RelativePath),
{
}

/// Address equality is an equivalence, and the URL an address was computed
/// from does not take part in it.
pub proof fn law_equality_ignores_original_url(
    a: AddressView,
    b: AddressView,
    c: AddressView,
    original_url: Option<Seq<char>>,
)
    ensures
        same_address(a, a),
        same_address(a, b) == same_address(b, a),
        same_address(a, b) && same_address(b, c) ==> same_address(a, c),
        same_address(a, AddressView { original_url, ..a }),
        same_address(a, b) ==> address_url(a) == address_url(b),
{
}

/// Replacing only the resource of an address keeps its kind, scheme and
/// path, and gives an equal address exactly when the resource is the same.
pub proof fn law_resource_replacement(a: AddressView, resource: Option<Seq<char>>)
    ensures
        ({
            let b = AddressView { resource, original_url: None, ..a };
            &&& b.kind == a.kind
            &&& b.scheme == a.scheme
            &&& b.path == a.path
            &&& same_address(a, b) <==> resource == a.resource
        }),
{
}

/// Only an absolute component URL may include a query: a URL that is
/// completed from an ancestor never had one.
pub proof fn law_relative_urls_have_no_query(
    url: Seq<char>,
    absolute: Result<ParsedUrlView, UrlParseFailureView>,
    joined: Result<ParsedUrlView, UrlParseFailureView>,
)
    ensures
        ((first_step(url, absolute, joined) is NeedsDirectParent || first_step(
            url,
            absolute,
            joined,
        ) is NeedsPackagedAncestor)) ==> (joined matches Ok(relative) && relative.query is None),
        first_step(url, absolute, joined) matches FromUrlStepView::NeedsDirectParent { resource }
            ==> resource is Some,
{
}

/// The path that a relative path URL hands to its packaged ancestor is never
/// empty and never starts with a slash.
pub proof fn law_relative_paths_have_no_leading_slash(
    url: Seq<char>,
    absolute: Result<ParsedUrlView, UrlParseFailureView>,
    joined: Result<ParsedUrlView, UrlParseFailureView>,
)
    ensures
        first_step(url, absolute, joined) matches FromUrlStepView::NeedsPackagedAncestor {
            path,
            ..
        } ==> is_relative_address_path(path),
{
}

/// A URL that parses as absolute needs no ancestor: its address, or the
/// error, is what `from_absolute_url` gives, unchanged.
pub proof fn law_absolute_urls_need_no_ancestor(
    url: Seq<char>,
    absolute: Result<ParsedUrlView, UrlParseFailureView>,
    joined: Result<ParsedUrlView, UrlParseFailureView>,
)
    requires
        !(address_from_absolute(url, absolute) is Err && address_from_absolute(
            url,
            absolute,
        )->Err_0 is RelativeUrlNotExpected),
    ensures
        first_step(url, absolute, joined) == FromUrlStepView::Done(
            address_from_absolute(url, absolute),
        ),
{
}

/// An absolute URL is refused as relative exactly when parsing it failed for
/// lack of a base, and the error then quotes the URL.
pub proof fn law_relative_url_not_expected(
    url: Seq<char>,
    parsed: Result<ParsedUrlView, UrlParseFailureView>,
)
    ensures
        (address_from_absolute(url, parsed) is Err && address_from_absolute(url, parsed)->Err_0
            is RelativeUrlNotExpected) <==> (parsed is Err && parsed->Err_0.without_base),
        address_from_absolute(url, parsed) matches Err(ResolverErrorView::RelativeUrlNotExpected(
            m,
        )) ==> m == url,
{
}

/// The first packaged ancestor is never a component that Realm Builder
/// synthesized.
pub proof fn law_realm_builder_is_not_packaged(a: AddressView)
    ensures
        a.scheme == realm_builder_scheme() ==> !is_packaged(a),
{
}

/// A package resolves exactly when it has both a URL and a directory, and
/// keeps both.
pub proof fn law_package_resolves_when_complete<D>(package: Package<D>)
    ensures
        resolve_package(package) is Ok <==> (package.url is Some && package.directory is Some),
        resolve_package(package) matches Ok(resolved) ==> resolved.url == package.url->0
            && resolved.directory == package.directory->0,
{
}

/// Every error answer of a remote resolver but a missing configuration
/// becomes a local error that carries the answer in its message.
pub proof fn law_remote_errors_are_quoted(err: RemoteResolverError)
    ensures
        err != RemoteResolverError::ConfigValuesNotFound ==> match error_from_remote(err) {
            ResolverErrorView::Internal(m) | ResolverErrorView::Io(m)
            | ResolverErrorView::PackageNotFound(m) | ResolverErrorView::ManifestNotFound(m)
            | ResolverErrorView::MalformedUrl(m) | ResolverErrorView::ManifestInvalid(m) => m
                == remote_error_message(err),
            _ => false,
        },
{
}

/// The resolver-ready URL of an absolute address is the scheme, `://`, the
/// host, then a slash and the path (left out only when the path is empty
/// and the host is not), then `?` and the query and `#` and the resource when
/// there are such; that of a relative path address is the path, then `#` and
/// the resource. So a non-empty path always follows `://`, the host and a
/// slash, and an empty host never lets the path take its place.
pub proof fn law_url_layout(a: AddressView)
    ensures
        ({
            let q: Seq<char> = match a.kind {
                KindView::Absolute { query: Some(q), .. } => "?"@ + q,
                _ => Seq::empty(),
            };
            let r: Seq<char> = match a.resource {
                Some(r) => "#"@ + r,
                None => Seq::empty(),
            };
            match a.kind {
                KindView::Absolute { host, .. } => {
                    &&& a.path.len() > 0 ==> address_url(a) == a.scheme + "://"@ + host + "/"@
                        + a.path + q + r
                    &&& a.path.len() == 0 && host.len() > 0 ==> address_url(a) == a.scheme
                        + "://"@ + host + q + r
                    &&& a.path.len() == 0 && host.len() == 0 ==> address_url(a) == a.scheme
                        + "://"@ + "/"@ + q + r
                },
                KindView::RelativePath { .. } => address_url(a) == a.path + r,
            }
        }),
{
    let q: Seq<char> = match a.kind {
        KindView::Absolute { query: Some(q), .. } => "?"@ + q,
        _ => Seq::empty(),
    };
    let r: Seq<char> = match a.resource {
        Some(r) => "#"@ + r,
        None => Seq::empty(),
    };
    match a.kind {
        KindView::Absolute { host, .. } => {
            if a.path.len() > 0 {
                assert(address_url(a) =~= a.scheme + "://"@ + host + "/"@ + a.path + q + r);
            } else if host.len() > 0 {
                assert(address_url(a) =~= a.scheme + "://"@ + host + q + r);
            } else {
                assert(address_url(a) =~= a.scheme + "://"@ + "/"@ + q + r);
            }
        },
        KindView::RelativePath { .. } => {
            assert(address_url(a) =~= a.path + r);
        },
    }
}

/// A URL that parses with a host (an empty one included) gives an `Absolute`
/// address with that host, the parsed scheme, query and fragment, and the
/// parsed path less its leading slash (a path without one is kept whole),
/// whatever that path is; it is recorded as the address's original URL.
pub proof fn law_parsed_host_gives_address(url: Seq<char>, parsed: ParsedUrlView, host: Seq<char>)
    requires
        parsed.host == Some(host),
    ensures
        address_from_absolute(url, Ok(parsed)) is Ok,
        ({
            let a = address_from_absolute(url, Ok(parsed))->Ok_0;
            &&& a.kind == KindView::Absolute { host, query: parsed.query }
            &&& a.scheme == parsed.scheme
            &&& a.resource == parsed.fragment
            &&& a.original_url == Some(url)
            &&& parsed.path.len() > 0 && parsed.path[0] == '/' ==> "/"@ + a.path == parsed.path
            &&& !(parsed.path.len() > 0 && parsed.path[0] == '/') ==> a.path == parsed.path
        }),
{
    let a = address_from_absolute(url, Ok(parsed))->Ok_0;
    if parsed.path.len() > 0 && parsed.path[0] == '/' {
        assert("/"@ + a.path =~= parsed.path) by {
            reveal_strlit("/");
        }
    }
}

/// An ancestor is a packaged one exactly when its scheme is not
/// `realm-builder`, whatever the kind of its address.
pub proof fn law_packaged_is_scheme_only(a: AddressView)
    ensures
        is_packaged(a) <==> a.scheme != "realm-builder"@,
        is_packaged(a) == is_packaged(AddressView { kind: KindView::RelativePath { context: Seq::empty() }, ..a }),
{
}

/// The address of a resource-only URL is the direct parent's address with
/// only the resource replaced: its kind (host and query, or context),
/// scheme and path are the parent's, and it records the URL it came from.
pub proof fn law_resource_url_keeps_parent(
    url: Seq<char>,
    parent: AddressView,
    resource: Option<Seq<char>>,
)
    ensures
        ({
            let a = address_in_parent(url, parent, resource);
            &&& a.kind == parent.kind
            &&& a.scheme == parent.scheme
            &&& a.path == parent.path
            &&& a.resource == resource
            &&& a.original_url == Some(url)
        }),
{
}

/// The local error kind of each remote answer: a missing package, no space,
/// an unavailable resource or an unsupported request are all a missing
/// package; only a missing manifest is a missing manifest; invalid arguments
/// are a malformed URL; an invalid manifest is an invalid manifest; internal
/// and I/O errors stay so; missing configuration values are a not-found
/// status. Every message but the last names the answer.
pub proof fn law_remote_error_kinds(err: RemoteResolverError)
    ensures
        (err == RemoteResolverError::PackageNotFound || err == RemoteResolverError::NoSpace
            || err == RemoteResolverError::ResourceUnavailable || err
            == RemoteResolverError::NotSupported) <==> error_from_remote(err) is PackageNotFound,
        err == RemoteResolverError::ManifestNotFound <==> error_from_remote(err) is ManifestNotFound,
        err == RemoteResolverError::InvalidArgs <==> error_from_remote(err) is MalformedUrl,
        err == RemoteResolverError::InvalidManifest <==> error_from_remote(err) is ManifestInvalid,
        err == RemoteResolverError::Internal <==> error_from_remote(err) is Internal,
        err == RemoteResolverError::Io <==> error_from_remote(err) is Io,
        err == RemoteResolverError::ConfigValuesNotFound <==> error_from_remote(err)
            == ResolverErrorView::ConfigValuesIo(-25i32),
        err == RemoteResolverError::PackageNotFound ==> error_from_remote(err)
            == ResolverErrorView::PackageNotFound(
            "remote resolver responded with PackageNotFound"@,
        ),
        err == RemoteResolverError::ManifestNotFound ==> error_from_remote(err)
            == ResolverErrorView::ManifestNotFound(
            "remote resolver responded with ManifestNotFound"@,
        ),
{
    reveal_strlit("remote resolver responded with ");
    reveal_strlit("remote resolver responded with PackageNotFound");
    reveal_strlit("remote resolver responded with ManifestNotFound");
    reveal_strlit("PackageNotFound");
    reveal_strlit("ManifestNotFound");
    assert("remote resolver responded with "@ + "PackageNotFound"@ =~= "remote resolver responded with PackageNotFound"@);
    assert("remote resolver responded with "@ + "ManifestNotFound"@ =~= "remote resolver responded with ManifestNotFound"@);
}

/// Each remote answer but a missing configuration is quoted by the name of
/// its variant, after `remote resolver responded with `.
pub proof fn law_remote_error_messages(err: RemoteResolverError)
    ensures
        err != RemoteResolverError::ConfigValuesNotFound ==> remote_error_message(err)
            == "remote resolver responded with "@ + match err {
            RemoteResolverError::Internal => "Internal"@,
            RemoteResolverError::Io => "Io"@,
            RemoteResolverError::InvalidArgs => "InvalidArgs"@,
            RemoteResolverError::NotSupported => "NotSupported"@,
            RemoteResolverError::ManifestNotFound => "ManifestNotFound"@,
            RemoteResolverError::PackageNotFound => "PackageNotFound"@,
            RemoteResolverError::NoSpace => "NoSpace"@,
            RemoteResolverError::ResourceUnavailable => "ResourceUnavailable"@,
            RemoteResolverError::InvalidManifest => "InvalidManifest"@,
            RemoteResolverError::ConfigValuesNotFound => "ConfigValuesNotFound"@,
        },
{
}

/// A component instance's failure keeps its description as the message: a
/// missing absolute URL is a missing parent context, a malformed URL is a
/// malformed URL, and every other failure is internal.
pub proof fn law_instance_error_kinds(kind: ComponentInstanceErrorKind, description: Seq<char>)
    ensures
        kind == ComponentInstanceErrorKind::NoAbsoluteUrl <==> error_from_instance(kind, description)
            == ResolverErrorView::NoParentContext(description),
        kind == ComponentInstanceErrorKind::MalformedUrl <==> error_from_instance(kind, description)
            == ResolverErrorView::MalformedUrl(description),
        kind != ComponentInstanceErrorKind::NoAbsoluteUrl && kind
            != ComponentInstanceErrorKind::MalformedUrl <==> error_from_instance(kind, description)
            == ResolverErrorView::Internal(description),
{
}

/// A parsed relative URL with a query never reaches an ancestor; one whose
/// path (after the leading slash) is empty reaches the direct parent when it
/// has a fragment and is malformed, quoted whole, when it has none; one with
/// a path reaches the packaged ancestor with that path, which with a slash
/// before it is the parsed path, and with the fragment as resource.
pub proof fn law_relative_step_shape(url: Seq<char>, relative: ParsedUrlView)
    requires
        relative.path.len() > 0,
        relative.path[0] == '/',
    ensures
        relative.query is Some ==> step_from_relative(url, relative) is Done,
        relative.query is None && relative.path.len() == 1 ==> match relative.fragment {
            Some(_) => step_from_relative(url, relative) == FromUrlStepView::NeedsDirectParent {
                resource: relative.fragment,
            },
            None => step_from_relative(url, relative) == FromUrlStepView::Done(
                Err(ResolverErrorView::MalformedUrl(url)),
            ),
        },
        step_from_relative(url, relative) matches FromUrlStepView::NeedsPackagedAncestor {
            path,
            resource,
        } ==> "/"@ + path == relative.path && resource == relative.fragment && relative.query is None,
        relative.query is None && relative.path.len() > 1 && relative.path[1] != '/'
            ==> step_from_relative(url, relative) is NeedsPackagedAncestor,
{
    if step_from_relative(url, relative) is NeedsPackagedAncestor {
        let path = step_from_relative(url, relative)->NeedsPackagedAncestor_path;
        assert("/"@ + path =~= relative.path) by {
            reveal_strlit("/");
        }
    }
}

} // verus!
