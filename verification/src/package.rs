use vstd::prelude::*;

use crate::context::ComponentResolutionContext;
use crate::error::ResolverError;

verus! {

/// A package as a resolver answers it: each field may be absent. `D` is the
/// handle through which the package's directory is reached.
pub struct Package<D> {
    pub url: Option<String>,
    pub directory: Option<D>,
}

/// A package of a resolved component, with both its URL and its directory.
pub struct ResolvedPackage<D> {
    /// The package URL.
    pub url: String,
    /// The handle of the package directory.
    pub directory: D,
}

/// What resolving a component yields: which resolver resolved it, the URL it
/// was resolved with, the context for resolving its children, its declaration
/// (`Decl`), its package and its configuration values (`Config`).
pub struct ResolvedComponent<Decl, Config, D> {
    /// Which resolver resolved this component (for logs and debugging only).
    pub resolved_by: String,
    /// The URL used to resolve this component.
    pub resolved_url: String,
    /// The context, returned by the resolver, to resolve this component's
    /// children with.
    pub context_to_resolve_children: Option<ComponentResolutionContext>,
    pub decl: Decl,
    pub package: Option<ResolvedPackage<D>>,
    pub config_values: Option<Config>,
}

/// A package resolves when it has both a URL and a directory; a missing URL
/// is reported before a missing directory.
pub open spec fn resolve_package<D>(package: Package<D>) -> Result<ResolvedPackage<D>, ResolverError> {
    match package.url {
        None => Err(ResolverError::PackageUrlMissing),
        Some(url) => match package.directory {
            None => Err(ResolverError::PackageDirectoryMissing),
            Some(directory) => Ok(ResolvedPackage { url, directory }),
        },
    }
}

impl<D> TryFrom<Package<D>> for ResolvedPackage<D> {
    type Error = ResolverError;

    fn try_from(package: Package<D>) -> (resolved: Result<ResolvedPackage<D>, ResolverError>) {
        let url = match package.url {
            Some(url) => url,
            None => return Err(ResolverError::PackageUrlMissing),
        };
        let directory = match package.directory {
            Some(directory) => directory,
            None => return Err(ResolverError::PackageDirectoryMissing),
        };
        Ok(ResolvedPackage { url, directory })
    }
}

impl<D> vstd::std_specs::convert::TryFromSpecImpl<Package<D>> for ResolvedPackage<D> {
    open spec fn obeys_try_from_spec() -> bool {
        true
    }

    open spec fn try_from_spec(package: Package<D>) -> Result<ResolvedPackage<D>, ResolverError> {
        resolve_package(package)
    }
}

} // verus!
