# routing

Component URL resolution, verified with Verus.

- `src/context.rs`: the resolution context that a resolver returns with a
  resolved component, for resolving that component's children.
- `src/address.rs`: `ComponentAddress`, the address computed from a component
  URL (absolute, or a relative path completed by an ancestor), its
  resolver-ready URL, and the parsing of absolute and relative URLs.
- `src/ancestry.rs`: the steps that compute an address from a URL and the
  ancestors of the component: what the URL alone gives, and how the direct
  parent or the first packaged ancestor completes it.
- `src/url_parsing.rs`: the calls into the `url` crate, behind trusted
  wrappers whose outcomes are named.
- `src/error.rs`, `src/package.rs`: resolver errors and their conversions;
  resolved packages and components.
- `src/laws.rs`: properties that span these functions.
- `app/`: the asynchronous walk of the component tree and the
  `std::error::Error` form of the resolver error.
