use vstd::prelude::*;

verus! {

/// The value that a resolver returns with a resolved component, to be handed
/// back to the resolver when it resolves a relative path URL of one of that
/// component's children. Its bytes are opaque to everything but the resolver
/// that made it; one that supports no relative path URLs may return any
/// value, typically an empty one.
#[derive(Debug)]
pub struct ComponentResolutionContext(pub Vec<u8>);

impl View for ComponentResolutionContext {
    type V = Seq<u8>;

    open spec fn view(&self) -> Seq<u8> {
        self.0@
    }
}

impl ComponentResolutionContext {
    /// Converts this context into its byte vector, the form in which it is
    /// passed with a relative component URL in a resolve request.
    pub fn into_bytes(self) -> (bytes: Vec<u8>)
        ensures
            bytes@ == self@,
    {
        self.0
    }

    /// Returns the bytes of this context.
    pub fn as_bytes(&self) -> (bytes: &[u8])
        ensures
            bytes@ == self@,
    {
        self.0.as_slice()
    }
}

/// Byte-wise comparison of two slices.
pub fn bytes_equal(a: &[u8], b: &[u8]) -> (same: bool)
    ensures
        same == (a@ == b@),
{
    if a.len() != b.len() {
        return false;
    }
    let mut i: usize = 0;
    while i < a.len()
        invariant
            a@.len() == b@.len(),
            i <= a@.len(),
            forall|j: int| 0 <= j < i ==> a@[j] == b@[j],
        decreases a@.len() - i,
    {
        if a[i] != b[i] {
            return false;
        }
        i = i + 1;
    }
    assert(a@ =~= b@);
    true
}

impl Clone for ComponentResolutionContext {
    fn clone(&self) -> (copy: ComponentResolutionContext)
        ensures
            copy@ == self@,
    {
        let copy = ComponentResolutionContext(self.0.clone());
        assert(copy@ =~= self@);
        copy
    }
}

impl PartialEq for ComponentResolutionContext {
    fn eq(&self, other: &Self) -> (same: bool) {
        bytes_equal(self.0.as_slice(), other.0.as_slice())
    }
}

impl Eq for ComponentResolutionContext {}

impl vstd::std_specs::cmp::PartialEqSpecImpl for ComponentResolutionContext {
    open spec fn obeys_eq_spec() -> bool {
        true
    }

    open spec fn eq_spec(&self, other: &ComponentResolutionContext) -> bool {
        self@ == other@
    }
}

impl From<Vec<u8>> for ComponentResolutionContext {
    fn from(context: Vec<u8>) -> (made: ComponentResolutionContext) {
        ComponentResolutionContext(context)
    }
}

impl vstd::std_specs::convert::FromSpecImpl<Vec<u8>> for ComponentResolutionContext {
    open spec fn obeys_from_spec() -> bool {
        true
    }

    open spec fn from_spec(context: Vec<u8>) -> ComponentResolutionContext {
        ComponentResolutionContext(context)
    }
}

impl From<ComponentResolutionContext> for Vec<u8> {
    fn from(context: ComponentResolutionContext) -> (bytes: Vec<u8>) {
        context.0
    }
}

impl vstd::std_specs::convert::FromSpecImpl<ComponentResolutionContext> for Vec<u8> {
    open spec fn obeys_from_spec() -> bool {
        true
    }

    open spec fn from_spec(context: ComponentResolutionContext) -> Vec<u8> {
        context.0
    }
}

impl From<&[u8]> for ComponentResolutionContext {
    fn from(context: &[u8]) -> (made: ComponentResolutionContext)
        ensures
            made@ == context@,
    {
        ComponentResolutionContext(vstd::slice::slice_to_vec(context))
    }
}

// A `Vec` or a slice is known to Verus by its contents, not as a value: the
// conversions that copy or borrow bytes state their contents in their own
// `ensures`, and claim no value-level result through the trait's spec.
impl vstd::std_specs::convert::FromSpecImpl<&[u8]> for ComponentResolutionContext {
    open spec fn obeys_from_spec() -> bool {
        false
    }

    open spec fn from_spec(context: &[u8]) -> ComponentResolutionContext {
        ComponentResolutionContext(choose|bytes: Vec<u8>| bytes@ == context@)
    }
}

impl From<&ComponentResolutionContext> for Vec<u8> {
    fn from(context: &ComponentResolutionContext) -> (bytes: Vec<u8>)
        ensures
            bytes@ == context@,
    {
        let bytes = context.0.clone();
        assert(bytes@ =~= context@);
        bytes
    }
}

impl vstd::std_specs::convert::FromSpecImpl<&ComponentResolutionContext> for Vec<u8> {
    open spec fn obeys_from_spec() -> bool {
        false
    }

    open spec fn from_spec(context: &ComponentResolutionContext) -> Vec<u8> {
        context.0
    }
}

impl<'a> From<&'a ComponentResolutionContext> for &'a [u8] {
    fn from(context: &'a ComponentResolutionContext) -> (bytes: &'a [u8])
        ensures
            bytes@ == context@,
    {
        context.as_bytes()
    }
}

impl<'a> vstd::std_specs::convert::FromSpecImpl<&'a ComponentResolutionContext> for &'a [u8] {
    open spec fn obeys_from_spec() -> bool {
        false
    }

    open spec fn from_spec(context: &'a ComponentResolutionContext) -> &'a [u8] {
        choose|bytes: &'a [u8]| bytes@ == context@
    }
}

} // verus!
