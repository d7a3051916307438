use routing::{
    bytes_equal, from_direct_parent, from_packaged_ancestor, from_url_step, parent_from_lookup,
    parse_relative_url, parsed_relative_url, ComponentAddress, ComponentAddressKind, ComponentInstanceError,
    ComponentInstanceErrorKind, ComponentResolutionContext, FromUrlStep, Package, ParentLookup,
    ParsedUrl, RemoteResolverError, ResolvedAncestorComponent, ResolvedPackage, ResolverError,
    UrlParseFailure,
    STATUS_NOT_FOUND,
};

fn context(bytes: &[u8]) -> ComponentResolutionContext {
    ComponentResolutionContext(bytes.to_vec())
}

#[test]
fn relative_url_is_not_absolute() {
    match ComponentAddress::from_absolute_url("subpackage#meta/comp.cm") {
        Err(ResolverError::RelativeUrlNotExpected(url)) => {
            assert_eq!(url, "subpackage#meta/comp.cm")
        }
        other => panic!("unexpected {:?}", other),
    }
}

#[test]
fn absolute_url_with_empty_host_is_malformed() {
    match ComponentAddress::from_absolute_url("http://") {
        Err(ResolverError::MalformedUrl(message)) => assert_eq!(message, "empty host"),
        other => panic!("unexpected {:?}", other),
    }
}

#[test]
fn absolute_url_without_host_is_malformed() {
    match ComponentAddress::from_absolute_url("unix:/run/foo.socket") {
        Err(ResolverError::MalformedUrl(message)) => assert_eq!(
            message,
            "Parsed `host` was invalid (`None`) from URL 'unix:/run/foo.socket'."
        ),
        other => panic!("unexpected {:?}", other),
    }
}

#[test]
fn absolute_urls_with_empty_paths() {
    match ComponentAddress::from_absolute_url("foo:") {
        Err(ResolverError::MalformedUrl(message)) => {
            assert_eq!(message, "Parsed `host` was invalid (`None`) from URL 'foo:'.")
        }
        other => panic!("unexpected {:?}", other),
    }
    let address = ComponentAddress::from_absolute_url("fuchsia-pkg://fuchsia.com#meta/comp.cm")
        .unwrap();
    assert_eq!(address.path(), "");
    assert_eq!(address.host(), "fuchsia.com");
    assert_eq!(address.url(), "fuchsia-pkg://fuchsia.com#meta/comp.cm");
    assert_eq!(
        address,
        ComponentAddress::new_absolute("fuchsia-pkg", "fuchsia.com", "", None, Some("meta/comp.cm"))
    );
}

#[test]
fn relative_paths_never_start_with_a_slash() {
    match from_url_step(".//x#meta/c.cm") {
        FromUrlStep::Done(Err(ResolverError::MalformedUrl(message))) => {
            assert_eq!(message, ".//x#meta/c.cm")
        }
        other => panic!("unexpected {:?}", matches!(other, FromUrlStep::Done(_))),
    }
    match from_url_step("//foo") {
        FromUrlStep::Done(Err(ResolverError::MalformedUrl(message))) => assert_eq!(message, "//foo"),
        other => panic!("unexpected {:?}", matches!(other, FromUrlStep::Done(_))),
    }
    match from_url_step("//foo?q") {
        FromUrlStep::Done(Err(ResolverError::MalformedUrl(message))) => {
            assert_eq!(message, "//foo?q")
        }
        other => panic!("unexpected {:?}", matches!(other, FromUrlStep::Done(_))),
    }
    match from_url_step("//foo?q#x") {
        FromUrlStep::Done(Err(ResolverError::MalformedUrl(message))) => assert_eq!(
            message,
            "Query strings are not allowed in relative component URLs: //foo?q#x"
        ),
        other => panic!("unexpected {:?}", matches!(other, FromUrlStep::Done(_))),
    }
    assert!(matches!(
        from_url_step("//foo#meta/c.cm"),
        FromUrlStep::NeedsDirectParent { resource: Some(r) } if r == "meta/c.cm"
    ));
}

#[test]
fn url_leaves_out_an_empty_path_after_a_host() {
    let address = ComponentAddress::new_absolute("fuchsia-pkg", "fuchsia.com", "", None, None);
    assert_eq!(address.url(), "fuchsia-pkg://fuchsia.com");
    let address = ComponentAddress::new_absolute("fuchsia-boot", "", "", None, Some("meta/a.cm"));
    assert_eq!(address.url(), "fuchsia-boot:///#meta/a.cm");
    let address =
        ComponentAddress::new_absolute("s", "h", "p/q", Some("a=b"), Some("meta/c.cm"));
    assert_eq!(address.url(), "s://h/p/q?a=b#meta/c.cm");
}

#[test]
fn relative_url_without_resource() {
    let address = ComponentAddress::new_relative_path("sub", None, "fuchsia-pkg", context(b"ctx"));
    assert_eq!(address.url(), "sub");
    assert_eq!(address.query(), None);
    assert_eq!(address.to_url_and_context(), ("sub", Some(&context(b"ctx"))));
}

#[test]
fn equality_ignores_original_url_only() {
    let parsed = ComponentAddress::from_absolute_url("fuchsia-pkg://fuchsia.com/p#meta/c.cm")
        .unwrap();
    let built = ComponentAddress::new_absolute("fuchsia-pkg", "fuchsia.com", "p", None, Some("meta/c.cm"));
    assert_eq!(parsed, built);
    let other_host =
        ComponentAddress::new_absolute("fuchsia-pkg", "example.com", "p", None, Some("meta/c.cm"));
    assert_ne!(parsed, other_host);
    let relative = ComponentAddress::new_relative_path("p", Some("meta/c.cm"), "fuchsia-pkg", context(b""));
    assert_ne!(built, relative);
    let other_context = ComponentAddress::new_relative_path("p", Some("meta/c.cm"), "fuchsia-pkg", context(b"x"));
    assert_ne!(relative, other_context);
    let same = built.clone_with_new_resource(Some("meta/c.cm"));
    assert_eq!(same, built);
    assert_eq!(same.original_url(), None);
}

#[test]
fn parse_relative_url_joins_to_the_base() {
    let parsed = parse_relative_url("subpackage#meta/comp.cm").unwrap();
    assert_eq!(parsed.scheme, "relative");
    assert_eq!(parsed.path, "/subpackage");
    assert_eq!(parsed.fragment.as_deref(), Some("meta/comp.cm"));
    assert_eq!(parsed.query, None);
}

#[test]
fn parse_relative_url_refuses_absolute_urls() {
    match parse_relative_url("fuchsia-pkg://fuchsia.com/p") {
        Err(ResolverError::MalformedUrl(message)) => assert_eq!(
            message,
            "Error parsing a relative URL given absolute URL 'fuchsia-pkg://fuchsia.com/p'."
        ),
        other => panic!("unexpected {:?}", other),
    }
    match parse_relative_url("http://") {
        Err(ResolverError::MalformedUrl(message)) => assert_eq!(
            message,
            "Unexpected error while parsing a component URL 'http://': EmptyHost."
        ),
        other => panic!("unexpected {:?}", other),
    }
}

#[test]
fn first_step_of_each_kind_of_url() {
    match from_url_step("fuchsia-pkg://fuchsia.com/p#meta/c.cm") {
        FromUrlStep::Done(Ok(address)) => {
            assert!(address.is_absolute());
            assert_eq!(address.path(), "p");
        }
        other => panic!("unexpected {:?}", matches!(other, FromUrlStep::Done(_))),
    }
    match from_url_step("#meta/c.cm") {
        FromUrlStep::NeedsDirectParent { resource } => {
            assert_eq!(resource.as_deref(), Some("meta/c.cm"))
        }
        other => panic!("unexpected {:?}", matches!(other, FromUrlStep::Done(_))),
    }
    match from_url_step("sub#meta/c.cm") {
        FromUrlStep::NeedsPackagedAncestor { path, resource } => {
            assert_eq!(path, "sub");
            assert_eq!(resource.as_deref(), Some("meta/c.cm"));
        }
        other => panic!("unexpected {:?}", matches!(other, FromUrlStep::Done(_))),
    }
    match from_url_step("sub?q=1#meta/c.cm") {
        FromUrlStep::Done(Err(ResolverError::MalformedUrl(message))) => assert_eq!(
            message,
            "Query strings are not allowed in relative component URLs: sub?q=1#meta/c.cm"
        ),
        other => panic!("unexpected {:?}", matches!(other, FromUrlStep::Done(_))),
    }
    match from_url_step("") {
        FromUrlStep::Done(Err(ResolverError::MalformedUrl(message))) => {
            assert_eq!(message, "")
        }
        other => panic!("unexpected {:?}", matches!(other, FromUrlStep::Done(_))),
    }
}

#[test]
fn resource_url_takes_the_parent_package() {
    let parent = ResolvedAncestorComponent::new(
        ComponentAddress::new_absolute("fuchsia-pkg", "fuchsia.com", "p", None, Some("meta/a.cm")),
        Some(context(b"c")),
    );
    let address = from_direct_parent("#meta/b.cm", &parent, Some("meta/b.cm"));
    assert_eq!(address.url(), "fuchsia-pkg://fuchsia.com/p#meta/b.cm");
    assert_eq!(address.original_url(), Some("#meta/b.cm"));
}

#[test]
fn relative_path_takes_the_ancestor_scheme_and_context() {
    let ancestor = ResolvedAncestorComponent::new(
        ComponentAddress::new_absolute("fuchsia-pkg", "fuchsia.com", "p", None, Some("meta/a.cm")),
        Some(context(b"c")),
    );
    let address = from_packaged_ancestor("sub#meta/b.cm", &ancestor, "sub", Some("meta/b.cm"))
        .unwrap();
    assert!(address.is_relative_path());
    assert_eq!(address.scheme(), "fuchsia-pkg");
    assert_eq!(address.context(), &context(b"c"));
    assert_eq!(address.url(), "sub#meta/b.cm");
    assert_eq!(address.original_url(), Some("sub#meta/b.cm"));

    let without_context = ResolvedAncestorComponent::new(
        ComponentAddress::new_absolute("fuchsia-pkg", "fuchsia.com", "p", None, None),
        None,
    );
    match from_packaged_ancestor("sub#meta/b.cm", &without_context, "sub", Some("meta/b.cm")) {
        Err(ResolverError::RelativeUrlMissingContext(message)) => {
            assert!(message.starts_with("Relative path component URL 'sub#meta/b.cm' cannot be resolved because its ancestor did not provide a resolution context. The ancestor's component address is "));
            assert!(message.ends_with('.'));
        }
        other => panic!("unexpected {:?}", other),
    }
}

#[test]
fn realm_builder_components_are_skipped() {
    let realm = ComponentAddress::new_absolute("realm-builder", "", "", None, None);
    assert!(ResolvedAncestorComponent::if_packaged(realm, None).is_none());
    let packaged = ComponentAddress::new_absolute("fuchsia-pkg", "fuchsia.com", "p", None, None);
    let found = ResolvedAncestorComponent::if_packaged(packaged, Some(context(b"x"))).unwrap();
    assert_eq!(found.address.scheme(), "fuchsia-pkg");
    assert_eq!(found.context_to_resolve_children, Some(context(b"x")));
}

#[test]
fn parent_lookup_errors() {
    assert_eq!(parent_from_lookup(ParentLookup::Component(5u8), "/a", "u").unwrap(), 5);
    match parent_from_lookup::<u8>(ParentLookup::AboveRoot, "/a", "fuchsia-pkg://x/y") {
        Err(ResolverError::NoParentContext(m)) => {
            assert_eq!(m, "Component /a (fuchsia-pkg://x/y) has no parent for context.")
        }
        other => panic!("unexpected {:?}", other),
    }
    match parent_from_lookup::<u8>(ParentLookup::Failed("Gone".to_string()), "/a", "u") {
        Err(ResolverError::NoParentContext(m)) => {
            assert_eq!(m, "Component /a (u) has no parent for context: Gone.")
        }
        other => panic!("unexpected {:?}", other),
    }
}

#[test]
fn remote_errors_map_to_local_ones() {
    match ResolverError::from(RemoteResolverError::Internal) {
        ResolverError::Internal(m) => assert_eq!(m, "remote resolver responded with Internal"),
        other => panic!("unexpected {:?}", other),
    }
    match ResolverError::from(RemoteResolverError::NoSpace) {
        ResolverError::PackageNotFound(m) => {
            assert_eq!(m, "remote resolver responded with NoSpace")
        }
        other => panic!("unexpected {:?}", other),
    }
    match ResolverError::from(RemoteResolverError::InvalidArgs) {
        ResolverError::MalformedUrl(m) => {
            assert_eq!(m, "remote resolver responded with InvalidArgs")
        }
        other => panic!("unexpected {:?}", other),
    }
    match ResolverError::from(RemoteResolverError::InvalidManifest) {
        ResolverError::ManifestInvalid(m) => {
            assert_eq!(m, "remote resolver responded with InvalidManifest")
        }
        other => panic!("unexpected {:?}", other),
    }
    assert!(matches!(
        ResolverError::from(RemoteResolverError::ConfigValuesNotFound),
        ResolverError::ConfigValuesIo(STATUS_NOT_FOUND)
    ));
    assert!(matches!(
        ResolverError::from(RemoteResolverError::ManifestNotFound),
        ResolverError::ManifestNotFound(_)
    ));
}

#[test]
fn instance_errors_map_to_local_ones() {
    let err = ComponentInstanceError {
        kind: ComponentInstanceErrorKind::NoAbsoluteUrl,
        description: "NoAbsoluteUrl".to_string(),
    };
    assert!(matches!(ResolverError::from(err), ResolverError::NoParentContext(m) if m == "NoAbsoluteUrl"));
    let err = ComponentInstanceError {
        kind: ComponentInstanceErrorKind::InstanceNotFound,
        description: "x".to_string(),
    };
    assert!(matches!(ResolverError::from(err), ResolverError::Internal(m) if m == "x"));
    let err = ComponentInstanceError {
        kind: ComponentInstanceErrorKind::MalformedUrl,
        description: "y".to_string(),
    };
    assert!(matches!(ResolverError::from(err), ResolverError::MalformedUrl(m) if m == "y"));
}

#[test]
fn incomplete_packages_do_not_resolve() {
    let missing_url: Package<u32> = Package { url: None, directory: Some(1) };
    assert!(matches!(ResolvedPackage::try_from(missing_url), Err(ResolverError::PackageUrlMissing)));
    let missing_dir: Package<u32> = Package { url: Some("u".to_string()), directory: None };
    assert!(matches!(
        ResolvedPackage::try_from(missing_dir),
        Err(ResolverError::PackageDirectoryMissing)
    ));
    let neither: Package<u32> = Package { url: None, directory: None };
    assert!(matches!(ResolvedPackage::try_from(neither), Err(ResolverError::PackageUrlMissing)));
}

#[test]
fn context_conversions_keep_the_bytes() {
    let c = ComponentResolutionContext::from(vec![1u8, 2, 3]);
    assert_eq!(c.as_bytes(), &[1u8, 2, 3]);
    let borrowed: &[u8] = (&c).into();
    assert_eq!(borrowed, &[1u8, 2, 3]);
    let copied: Vec<u8> = (&c).into();
    assert_eq!(copied, vec![1u8, 2, 3]);
    let from_slice = ComponentResolutionContext::from(&[1u8, 2, 3][..]);
    assert_eq!(from_slice, c);
    let back: Vec<u8> = c.into();
    assert_eq!(back, vec![1u8, 2, 3]);
    assert_eq!(ComponentResolutionContext(vec![9]).into_bytes(), vec![9]);
    let original = ComponentResolutionContext(vec![b'4', b'5', b'6']);
    assert_eq!(original.clone().into_bytes(), vec![b'4', b'5', b'6']);
    assert_eq!(original.as_bytes(), &[b'4', b'5', b'6']);
    assert!(bytes_equal(&[1, 2], &[1, 2]));
    assert!(!bytes_equal(&[1, 2], &[1, 3]));
    assert!(!bytes_equal(&[1], &[1, 3]));
}

#[test]
fn error_constructors_keep_their_message() {
    assert!(matches!(ResolverError::internal("a".to_string()), ResolverError::Internal(m) if m == "a"));
    assert!(matches!(ResolverError::io("a".to_string()), ResolverError::Io(m) if m == "a"));
    assert!(matches!(ResolverError::manifest_not_found("a".to_string()), ResolverError::ManifestNotFound(m) if m == "a"));
    assert!(matches!(ResolverError::package_not_found("a".to_string()), ResolverError::PackageNotFound(m) if m == "a"));
    assert!(matches!(ResolverError::manifest_invalid("a".to_string()), ResolverError::ManifestInvalid(m) if m == "a"));
    assert!(matches!(ResolverError::config_values_invalid("a".to_string()), ResolverError::ConfigValuesInvalid(m) if m == "a"));
    assert!(matches!(ResolverError::malformed_url("a".to_string()), ResolverError::MalformedUrl(m) if m == "a"));
    assert!(matches!(ResolverError::no_parent_context("a".to_string()), ResolverError::NoParentContext(m) if m == "a"));
    assert!(matches!(ResolverError::routing_error("a".to_string()), ResolverError::RoutingError(m) if m == "a"));
    assert!(matches!(ResolverError::fidl_error("a".to_string()), ResolverError::FidlError(m) if m == "a"));
}

fn parsed(path: &str, query: Option<&str>, fragment: Option<&str>) -> ParsedUrl {
    ParsedUrl {
        scheme: "relative".to_string(),
        host: None,
        path: path.to_string(),
        query: query.map(str::to_string),
        fragment: fragment.map(str::to_string),
    }
}

fn failure(without_base: bool, debug: &str) -> UrlParseFailure {
    UrlParseFailure { without_base, display: "d".to_string(), debug: debug.to_string() }
}

#[test]
fn relative_parse_from_given_outcomes() {
    let ok = parsed_relative_url("x", Err(failure(true, "")), Some(Ok(parsed("/x", None, None))));
    assert_eq!(ok.unwrap().path, "/x");
    match parsed_relative_url("x", Err(failure(true, "")), Some(Err(failure(false, "Boom")))) {
        Err(ResolverError::MalformedUrl(m)) => {
            assert_eq!(m, "Error parsing a relative component URL 'x': Boom.")
        }
        other => panic!("unexpected {:?}", other),
    }
    match parsed_relative_url("x", Err(failure(false, "Bad")), None) {
        Err(ResolverError::MalformedUrl(m)) => {
            assert_eq!(m, "Unexpected error while parsing a component URL 'x': Bad.")
        }
        other => panic!("unexpected {:?}", other),
    }
    match parsed_relative_url("x", Ok(parsed("/x", None, None)), None) {
        Err(ResolverError::MalformedUrl(m)) => {
            assert_eq!(m, "Error parsing a relative URL given absolute URL 'x'.")
        }
        other => panic!("unexpected {:?}", other),
    }
}

#[test]
fn relative_step_from_given_parse() {
    assert!(matches!(
        routing::relative_url_step("sub", parsed("/sub", None, None)),
        FromUrlStep::NeedsPackagedAncestor { path, resource: None } if path == "sub"
    ));
    assert!(matches!(
        routing::relative_url_step("#r", parsed("/", None, Some("r"))),
        FromUrlStep::NeedsDirectParent { resource: Some(r) } if r == "r"
    ));
    assert!(matches!(
        routing::relative_url_step("a//b", parsed("//b", None, None)),
        FromUrlStep::Done(Err(ResolverError::MalformedUrl(m))) if m == "a//b"
    ));
    assert!(matches!(
        routing::relative_url_step("", parsed("", None, None)),
        FromUrlStep::Done(Err(ResolverError::MalformedUrl(m))) if m.is_empty()
    ));
    assert!(matches!(
        routing::relative_url_step("", parsed("/", None, None)),
        FromUrlStep::Done(Err(ResolverError::MalformedUrl(m))) if m.is_empty()
    ));
}

#[test]
fn absolute_address_from_given_parse() {
    let given = ParsedUrl {
        scheme: "fuchsia-pkg".to_string(),
        host: Some("fuchsia.com".to_string()),
        path: "/p".to_string(),
        query: Some("q".to_string()),
        fragment: None,
    };
    let address = ComponentAddress::from_parsed_absolute_url("u", Ok(given)).unwrap();
    assert_eq!(address.url(), "fuchsia-pkg://fuchsia.com/p?q");
    assert_eq!(address.original_url(), Some("u"));
    assert!(matches!(
        ComponentAddress::from_parsed_absolute_url("u", Err(failure(true, ""))),
        Err(ResolverError::RelativeUrlNotExpected(m)) if m == "u"
    ));
    assert!(matches!(
        ComponentAddress::from_parsed_absolute_url("u", Err(failure(false, ""))),
        Err(ResolverError::MalformedUrl(m)) if m == "d"
    ));
}
