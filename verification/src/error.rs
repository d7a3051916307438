use vstd::prelude::*;

verus! {

/// The status code that a resolver reports when a file it needs is missing
/// (`ZX_ERR_NOT_FOUND`).
pub const STATUS_NOT_FOUND: i32 = -25i32;

/// Errors produced by resolvers and by the resolving operations of this
/// library. Variants that carry a message hold the text of the error that
/// caused them; the status variants hold a raw status code.
#[derive(Debug, Clone)]
pub enum ResolverError {
    Internal(String),
    Io(String),
    ManifestNotFound(String),
    PackageNotFound(String),
    ManifestInvalid(String),
    ConfigValuesInvalid(String),
    ManifestIo(i32),
    ConfigValuesIo(i32),
    ModelNotAvailable,
    SchemeNotRegistered,
    MalformedUrl(String),
    NoParentContext(String),
    PackageUrlMissing,
    PackageDirectoryMissing,
    UrlMissingResource,
    RelativeUrlNotExpected(String),
    RoutingError(String),
    ResolveMustReturnContext,
    RelativeUrlMissingContext(String),
    UnexpectedRelativePath(String),
    CreatingContext(String),
    ReadingContext(String),
    RemoteInvalidData,
    FidlError(String),
}

/// The mathematical value of a `ResolverError`: the same variant, with each
/// message taken as its sequence of characters.
pub enum ResolverErrorView {
    Internal(Seq<char>),
    Io(Seq<char>),
    ManifestNotFound(Seq<char>),
    PackageNotFound(Seq<char>),
    ManifestInvalid(Seq<char>),
    ConfigValuesInvalid(Seq<char>),
    ManifestIo(i32),
    ConfigValuesIo(i32),
    ModelNotAvailable,
    SchemeNotRegistered,
    MalformedUrl(Seq<char>),
    NoParentContext(Seq<char>),
    PackageUrlMissing,
    PackageDirectoryMissing,
    UrlMissingResource,
    RelativeUrlNotExpected(Seq<char>),
    RoutingError(Seq<char>),
    ResolveMustReturnContext,
    RelativeUrlMissingContext(Seq<char>),
    UnexpectedRelativePath(Seq<char>),
    CreatingContext(Seq<char>),
    ReadingContext(Seq<char>),
    RemoteInvalidData,
    FidlError(Seq<char>),
}

impl View for ResolverError {
    type V = ResolverErrorView;

    open spec fn view(&self) -> ResolverErrorView {
        match self {
            ResolverError::Internal(m) => ResolverErrorView::Internal(m@),
            ResolverError::Io(m) => ResolverErrorView::Io(m@),
            ResolverError::ManifestNotFound(m) => ResolverErrorView::ManifestNotFound(m@),
            ResolverError::PackageNotFound(m) => ResolverErrorView::PackageNotFound(m@),
            ResolverError::ManifestInvalid(m) => ResolverErrorView::ManifestInvalid(m@),
            ResolverError::ConfigValuesInvalid(m) => ResolverErrorView::ConfigValuesInvalid(m@),
            ResolverError::ManifestIo(s) => ResolverErrorView::ManifestIo(*s),
            ResolverError::ConfigValuesIo(s) => ResolverErrorView::ConfigValuesIo(*s),
            ResolverError::ModelNotAvailable => ResolverErrorView::ModelNotAvailable,
            ResolverError::SchemeNotRegistered => ResolverErrorView::SchemeNotRegistered,
            ResolverError::MalformedUrl(m) => ResolverErrorView::MalformedUrl(m@),
            ResolverError::NoParentContext(m) => ResolverErrorView::NoParentContext(m@),
            ResolverError::PackageUrlMissing => ResolverErrorView::PackageUrlMissing,
            ResolverError::PackageDirectoryMissing => ResolverErrorView::PackageDirectoryMissing,
            ResolverError::UrlMissingResource => ResolverErrorView::UrlMissingResource,
            ResolverError::RelativeUrlNotExpected(m) => ResolverErrorView::RelativeUrlNotExpected(m@),
            ResolverError::RoutingError(m) => ResolverErrorView::RoutingError(m@),
            ResolverError::ResolveMustReturnContext => ResolverErrorView::ResolveMustReturnContext,
            ResolverError::RelativeUrlMissingContext(m) => ResolverErrorView::RelativeUrlMissingContext(
                m@,
            ),
            ResolverError::UnexpectedRelativePath(m) => ResolverErrorView::UnexpectedRelativePath(m@),
            ResolverError::CreatingContext(m) => ResolverErrorView::CreatingContext(m@),
            ResolverError::ReadingContext(m) => ResolverErrorView::ReadingContext(m@),
            ResolverError::RemoteInvalidData => ResolverErrorView::RemoteInvalidData,
            ResolverError::FidlError(m) => ResolverErrorView::FidlError(m@),
        }
    }
}

impl ResolverError {
    /// An unexpected error, described by `err`.
    pub fn internal(err: String) -> (e: Self)
        ensures
            e@ == ResolverErrorView::Internal(err@),
    {
        ResolverError::Internal(err)
    }

    /// An I/O error, described by `err`.
    pub fn io(err: String) -> (e: Self)
        ensures
            e@ == ResolverErrorView::Io(err@),
    {
        ResolverError::Io(err)
    }

    /// The component manifest was not found.
    pub fn manifest_not_found(err: String) -> (e: Self)
        ensures
            e@ == ResolverErrorView::ManifestNotFound(err@),
    {
        ResolverError::ManifestNotFound(err)
    }

    /// The package was not found.
    pub fn package_not_found(err: String) -> (e: Self)
        ensures
            e@ == ResolverErrorView::PackageNotFound(err@),
    {
        ResolverError::PackageNotFound(err)
    }

    /// The component manifest is invalid.
    pub fn manifest_invalid(err: String) -> (e: Self)
        ensures
            e@ == ResolverErrorView::ManifestInvalid(err@),
    {
        ResolverError::ManifestInvalid(err)
    }

    /// The configuration values file is invalid.
    pub fn config_values_invalid(err: String) -> (e: Self)
        ensures
            e@ == ResolverErrorView::ConfigValuesInvalid(err@),
    {
        ResolverError::ConfigValuesInvalid(err)
    }

    /// The component URL is malformed.
    pub fn malformed_url(err: String) -> (e: Self)
        ensures
            e@ == ResolverErrorView::MalformedUrl(err@),
    {
        ResolverError::MalformedUrl(err)
    }

    /// A relative URL needed a parent component with a resolution context.
    pub fn no_parent_context(err: String) -> (e: Self)
        ensures
            e@ == ResolverErrorView::NoParentContext(err@),
    {
        ResolverError::NoParentContext(err)
    }

    /// The resolver capability could not be routed.
    pub fn routing_error(err: String) -> (e: Self)
        ensures
            e@ == ResolverErrorView::RoutingError(err@),
    {
        ResolverError::RoutingError(err)
    }

    /// Sending a request to a remote resolver failed.
    pub fn fidl_error(err: String) -> (e: Self)
        ensures
            e@ == ResolverErrorView::FidlError(err@),
    {
        ResolverError::FidlError(err)
    }
}

/// The errors that a remote resolver answers a resolve request with.
#[derive(Debug, Clone, Copy, PartialEq, Eq, Structural)]
pub enum RemoteResolverError {
    Internal,
    Io,
    InvalidArgs,
    NotSupported,
    ManifestNotFound,
    PackageNotFound,
    NoSpace,
    ResourceUnavailable,
    InvalidManifest,
    ConfigValuesNotFound,
}

/// How a remote error is written in messages: its variant's name.
pub open spec fn remote_error_name(err: RemoteResolverError) -> Seq<char> {
    match err {
        RemoteResolverError::Internal => "Internal"@,
        RemoteResolverError::Io => "Io"@,
        RemoteResolverError::InvalidArgs => "InvalidArgs"@,
        RemoteResolverError::NotSupported => "NotSupported"@,
        RemoteResolverError::ManifestNotFound => "ManifestNotFound"@,
        RemoteResolverError::PackageNotFound => "PackageNotFound"@,
        RemoteResolverError::NoSpace => "NoSpace"@,
        RemoteResolverError::ResourceUnavailable => "ResourceUnavailable"@,
        RemoteResolverError::InvalidManifest => "InvalidManifest"@,
        RemoteResolverError::ConfigValuesNotFound => "ConfigValuesNotFound"@,
    }
}

/// The message of an error that carries a remote resolver's answer.
pub open spec fn remote_error_message(err: RemoteResolverError) -> Seq<char> {
    "remote resolver responded with "@ + remote_error_name(err)
}

/// The local error that a remote resolver's answer becomes.
pub open spec fn error_from_remote(err: RemoteResolverError) -> ResolverErrorView {
    let m = remote_error_message(err);
    match err {
        RemoteResolverError::Internal => ResolverErrorView::Internal(m),
        RemoteResolverError::Io => ResolverErrorView::Io(m),
        RemoteResolverError::PackageNotFound
        | RemoteResolverError::NoSpace
        | RemoteResolverError::ResourceUnavailable
        | RemoteResolverError::NotSupported => ResolverErrorView::PackageNotFound(m),
        RemoteResolverError::ManifestNotFound => ResolverErrorView::ManifestNotFound(m),
        RemoteResolverError::InvalidArgs => ResolverErrorView::MalformedUrl(m),
        RemoteResolverError::InvalidManifest => ResolverErrorView::ManifestInvalid(m),
        RemoteResolverError::ConfigValuesNotFound => ResolverErrorView::ConfigValuesIo(
            STATUS_NOT_FOUND,
        ),
    }
}

fn remote_error_name_str(err: RemoteResolverError) -> (name: &'static str)
    ensures
        name@ == remote_error_name(err),
{
    match err {
        RemoteResolverError::Internal => "Internal",
        RemoteResolverError::Io => "Io",
        RemoteResolverError::InvalidArgs => "InvalidArgs",
        RemoteResolverError::NotSupported => "NotSupported",
        RemoteResolverError::ManifestNotFound => "ManifestNotFound",
        RemoteResolverError::PackageNotFound => "PackageNotFound",
        RemoteResolverError::NoSpace => "NoSpace",
        RemoteResolverError::ResourceUnavailable => "ResourceUnavailable",
        RemoteResolverError::InvalidManifest => "InvalidManifest",
        RemoteResolverError::ConfigValuesNotFound => "ConfigValuesNotFound",
    }
}

/// The kinds of failure that a component instance reports when it is asked
/// for its parent or its resolved state.
#[derive(Debug, Clone, Copy, PartialEq, Eq, Structural)]
pub enum ComponentInstanceErrorKind {
    ComponentManagerInstanceUnavailable,
    InstanceNotFound,
    PolicyCheckerNotFound,
    ComponentIdIndexNotFound,
    ResolveFailed,
    UnresolveFailed,
    NoAbsoluteUrl,
    MalformedUrl,
}

/// A failure reported by a component instance: its kind and its debug
/// rendering, which becomes the message of the resolver error it turns into.
#[derive(Debug, Clone)]
pub struct ComponentInstanceError {
    pub kind: ComponentInstanceErrorKind,
    pub description: String,
}

/// The local error that a component instance's failure becomes.
pub open spec fn error_from_instance(
    kind: ComponentInstanceErrorKind,
    description: Seq<char>,
) -> ResolverErrorView {
    match kind {
        ComponentInstanceErrorKind::NoAbsoluteUrl => ResolverErrorView::NoParentContext(description),
        ComponentInstanceErrorKind::MalformedUrl => ResolverErrorView::MalformedUrl(description),
        _ => ResolverErrorView::Internal(description),
    }
}

impl ResolverError {
    /// Converts a remote resolver's error answer into a local error whose
    /// message names the answer.
    pub fn from_remote_error(err: RemoteResolverError) -> (e: Self)
        ensures
            e@ == error_from_remote(err),
    {
        let mut m = String::from_str("remote resolver responded with ");
        m.append(remote_error_name_str(err));
        match err {
            RemoteResolverError::Internal => ResolverError::internal(m),
            RemoteResolverError::Io => ResolverError::io(m),
            RemoteResolverError::PackageNotFound
            | RemoteResolverError::NoSpace
            | RemoteResolverError::ResourceUnavailable
            | RemoteResolverError::NotSupported => ResolverError::package_not_found(m),
            RemoteResolverError::ManifestNotFound => ResolverError::manifest_not_found(m),
            RemoteResolverError::InvalidArgs => ResolverError::malformed_url(m),
            RemoteResolverError::InvalidManifest => ResolverError::ManifestInvalid(m),
            RemoteResolverError::ConfigValuesNotFound => ResolverError::ConfigValuesIo(
                STATUS_NOT_FOUND,
            ),
        }
    }

    /// Converts a component instance's failure into a local error carrying
    /// the failure's description.
    pub fn from_instance_error(err: ComponentInstanceError) -> (e: Self)
        ensures
            e@ == error_from_instance(err.kind, err.description@),
    {
        match err.kind {
            ComponentInstanceErrorKind::NoAbsoluteUrl => ResolverError::NoParentContext(
                err.description,
            ),
            ComponentInstanceErrorKind::MalformedUrl => ResolverError::MalformedUrl(
                err.description,
            ),
            _ => ResolverError::Internal(err.description),
        }
    }
}

// The messages of the converted errors are built at run time, so Verus knows
// them by their characters only: the conversions state their result by its
// view in their own `ensures`, and claim no value-level result through the
// trait's spec.
impl From<RemoteResolverError> for ResolverError {
    fn from(err: RemoteResolverError) -> (e: ResolverError)
        ensures
            e@ == error_from_remote(err),
    {
        ResolverError::from_remote_error(err)
    }
}

impl vstd::std_specs::convert::FromSpecImpl<RemoteResolverError> for ResolverError {
    open spec fn obeys_from_spec() -> bool {
        false
    }

    open spec fn from_spec(err: RemoteResolverError) -> ResolverError {
        choose|e: ResolverError| #[trigger] e.view() == error_from_remote(err)
    }
}

impl From<ComponentInstanceError> for ResolverError {
    fn from(err: ComponentInstanceError) -> (e: ResolverError)
        ensures
            e@ == error_from_instance(err.kind, err.description@),
    {
        ResolverError::from_instance_error(err)
    }
}

impl vstd::std_specs::convert::FromSpecImpl<ComponentInstanceError> for ResolverError {
    open spec fn obeys_from_spec() -> bool {
        false
    }

    open spec fn from_spec(err: ComponentInstanceError) -> ResolverError {
        choose|e: ResolverError| #[trigger] e.view() == error_from_instance(err.kind, err.description@)
    }
}

} // verus!
