//! Component URL resolution: the addresses that the component framework
//! computes from component URLs, the resolution context that a resolver hands
//! to the children of a component, and the errors of resolution.
//!
//! An address is computed from a URL in steps (`ancestry`): the URL alone
//! either gives the address or says which ancestor completes it; the caller,
//! who walks the component tree, hands that ancestor back.

pub mod address;
pub mod ancestry;
pub mod context;
pub mod error;
pub mod laws;
pub mod package;
pub mod url_parsing;

pub use address::{parse_relative_url, parsed_relative_url, ComponentAddress, ComponentAddressKind};
pub use ancestry::{
    from_direct_parent, from_packaged_ancestor, from_url_step, parent_from_lookup,
    relative_url_step, FromUrlStep, ParentLookup, ResolvedAncestorComponent,
};
pub use context::{bytes_equal, ComponentResolutionContext};
pub use error::{
    ComponentInstanceError, ComponentInstanceErrorKind, RemoteResolverError, ResolverError,
    STATUS_NOT_FOUND,
};
pub use package::{Package, ResolvedComponent, ResolvedPackage};
pub use url_parsing::{ParsedUrl, UrlParseFailure};
