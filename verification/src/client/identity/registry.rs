//! Bindings of resolvers to authentication schemes, and the snapshot of
//! bindings that serves one attempt.

use crate::client::auth::AuthSchemeId;
use crate::client::identity::resolver::SharedIdentityResolver;
use vstd::prelude::*;

verus! {

/// What a binding says: the resolver `resolver` serves the scheme named
/// `scheme`.
pub struct Binding {
    /// The name of the scheme.
    pub scheme: Seq<char>,
    /// The resolver that serves it.
    pub resolver: SharedIdentityResolver,
}

/// The resolver of the first binding in `bindings` that is for `scheme`, or
/// `None` if no binding is for it.
pub open spec fn first_resolver_for(
    bindings: Seq<Binding>,
    scheme: Seq<char>,
) -> Option<SharedIdentityResolver>
    decreases bindings.len(),
{
    if bindings.len() == 0 {
        None
    } else if bindings[0].scheme == scheme {
        Some(bindings[0].resolver)
    } else {
        first_resolver_for(bindings.drop_first(), scheme)
    }
}

/// First match: a binding for `scheme` that no binding for `scheme` stands
/// before is the one whose resolver is found.
pub proof fn lemma_first_binding_is_found(bindings: Seq<Binding>, scheme: Seq<char>, index: int)
    requires
        0 <= index < bindings.len(),
        bindings[index].scheme == scheme,
        forall|earlier: int| 0 <= earlier < index ==> bindings[earlier].scheme != scheme,
    ensures
        first_resolver_for(bindings, scheme) == Some(bindings[index].resolver),
    decreases index,
{
    if index > 0 {
        let rest = bindings.drop_first();
        assert forall|earlier: int|
            0 <= earlier < index - 1 implies rest[earlier].scheme != scheme by {
            assert(rest[earlier] == bindings[earlier + 1]);
        }
        lemma_first_binding_is_found(rest, scheme, index - 1);
    }
}

/// What is found is the resolver of a binding for `scheme` that no binding
/// for `scheme` stands before.
pub proof fn lemma_found_is_first_binding(
    bindings: Seq<Binding>,
    scheme: Seq<char>,
) -> (index: int)
    requires
        first_resolver_for(bindings, scheme) is Some,
    ensures
        0 <= index < bindings.len(),
        bindings[index].scheme == scheme,
        forall|earlier: int| 0 <= earlier < index ==> bindings[earlier].scheme != scheme,
        first_resolver_for(bindings, scheme) == Some(bindings[index].resolver),
    decreases bindings.len(),
{
    if bindings[0].scheme == scheme {
        0
    } else {
        let rest = bindings.drop_first();
        let index_in_rest = lemma_found_is_first_binding(rest, scheme);
        assert forall|earlier: int|
            0 <= earlier < index_in_rest + 1 implies bindings[earlier].scheme != scheme by {
            if earlier > 0 {
                assert(rest[earlier - 1] == bindings[earlier]);
            }
        }
        index_in_rest + 1
    }
}

/// A lookup finds nothing exactly when no binding is for the scheme.
pub proof fn lemma_nothing_found_iff_unbound(bindings: Seq<Binding>, scheme: Seq<char>)
    ensures
        first_resolver_for(bindings, scheme) is None <==> forall|index: int|
            0 <= index < bindings.len() ==> bindings[index].scheme != scheme,
    decreases bindings.len(),
{
    if bindings.len() > 0 {
        let rest = bindings.drop_first();
        lemma_nothing_found_iff_unbound(rest, scheme);
        if bindings[0].scheme != scheme {
            if first_resolver_for(rest, scheme) is None {
                assert forall|index: int|
                    0 <= index < bindings.len() implies bindings[index].scheme != scheme by {
                    if index > 0 {
                        assert(rest[index - 1] == bindings[index]);
                    }
                }
            } else {
                let index = choose|index: int|
                    0 <= index < rest.len() && rest[index].scheme == scheme;
                assert(bindings[index + 1] == rest[index]);
            }
        }
    }
}

/// Without bindings, no scheme has a resolver.
pub proof fn lemma_nothing_found_without_bindings(bindings: Seq<Binding>, scheme: Seq<char>)
    requires
        bindings.len() == 0,
    ensures
        first_resolver_for(bindings, scheme) is None,
{
}

/// Bindings that come later are shadowed, never merged: they are consulted
/// only for a scheme that no earlier binding is for.
pub proof fn lemma_later_bindings_are_shadowed(
    earlier: Seq<Binding>,
    later: Seq<Binding>,
    scheme: Seq<char>,
)
    ensures
        first_resolver_for(earlier + later, scheme) == match first_resolver_for(earlier, scheme) {
            Some(resolver) => Some(resolver),
            None => first_resolver_for(later, scheme),
        },
    decreases earlier.len(),
{
    if earlier.len() == 0 {
        assert(earlier + later =~= later);
    } else {
        assert((earlier + later).drop_first() =~= earlier.drop_first() + later);
        lemma_later_bindings_are_shadowed(earlier.drop_first(), later, scheme);
    }
}

/// An identity resolver paired with an auth scheme ID that it resolves for.
#[derive(Debug)]
pub struct ConfiguredIdentityResolver {
    auth_scheme: AuthSchemeId,
    identity_resolver: SharedIdentityResolver,
}

impl View for ConfiguredIdentityResolver {
    type V = Binding;

    closed spec fn view(&self) -> Binding {
        Binding { scheme: self.auth_scheme@, resolver: self.identity_resolver }
    }
}

impl ConfiguredIdentityResolver {
    /// Creates a new [`ConfiguredIdentityResolver`] from the given auth
    /// scheme and identity resolver.
    pub fn new(
        auth_scheme: AuthSchemeId,
        identity_resolver: SharedIdentityResolver,
    ) -> (binding: Self)
        ensures
            binding@ == (Binding { scheme: auth_scheme@, resolver: identity_resolver }),
    {
        Self { auth_scheme, identity_resolver }
    }

    /// Returns the auth scheme ID.
    pub fn scheme_id(&self) -> (id: AuthSchemeId)
        ensures
            id@ == self@.scheme,
    {
        self.auth_scheme
    }

    /// Returns the identity resolver.
    pub fn identity_resolver(&self) -> (resolver: SharedIdentityResolver)
        ensures
            resolver == self@.resolver,
    {
        self.identity_resolver.clone()
    }
}

impl Clone for ConfiguredIdentityResolver {
    fn clone(&self) -> (copy: Self)
        ensures
            copy@ == self@,
    {
        Self { auth_scheme: self.auth_scheme, identity_resolver: self.identity_resolver.clone() }
    }
}

/// The bindings that are in force for one attempt, in the order in which
/// they were found when the attempt began.
#[derive(Debug)]
pub struct IdentityResolvers {
    identity_resolvers: Vec<ConfiguredIdentityResolver>,
}

impl View for IdentityResolvers {
    type V = Seq<Binding>;

    closed spec fn view(&self) -> Seq<Binding> {
        self.identity_resolvers@.map_values(|binding: ConfiguredIdentityResolver| binding@)
    }
}

impl IdentityResolvers {
    /// A snapshot of `resolvers`: copies of the bindings, in their order.
    ///
    /// No binding at all is no error: every lookup then finds nothing.
    pub fn new(resolvers: &[ConfiguredIdentityResolver]) -> (snapshot: Self)
        ensures
            snapshot@.len() == resolvers@.len(),
            forall|i: int|
                #![trigger snapshot@[i]]
                #![trigger resolvers@[i]]
                0 <= i < resolvers@.len() ==> snapshot@[i] == resolvers@[i]@,
    {
        let mut identity_resolvers: Vec<ConfiguredIdentityResolver> = Vec::new();
        let mut i: usize = 0;
        while i < resolvers.len()
            invariant
                i <= resolvers.len(),
                identity_resolvers@.len() == i,
                forall|k: int| 0 <= k < i ==> identity_resolvers@[k]@ == resolvers@[k]@,
            decreases resolvers.len() - i,
        {
            identity_resolvers.push(resolvers[i].clone());
            i += 1;
        }
        Self { identity_resolvers }
    }

    /// The resolver for the scheme `scheme_id`: that of the first binding
    /// for the scheme. Later bindings for the same scheme are shadowed.
    pub fn identity_resolver(
        &self,
        scheme_id: AuthSchemeId,
    ) -> (resolver: Option<SharedIdentityResolver>)
        ensures
            resolver == first_resolver_for(self@, scheme_id@),
    {
        let mut i: usize = 0;
        assert(self@.skip(0) =~= self@);
        while i < self.identity_resolvers.len()
            invariant
                i <= self.identity_resolvers.len(),
                first_resolver_for(self@, scheme_id@) == first_resolver_for(
                    self@.skip(i as int),
                    scheme_id@,
                ),
            decreases self.identity_resolvers.len() - i,
        {
            let pair = &self.identity_resolvers[i];
            proof {
                let rest = self@.skip(i as int);
                assert(rest.drop_first() =~= self@.skip(i + 1));
            }
            if pair.scheme_id() == scheme_id {
                return Some(pair.identity_resolver());
            }
            i += 1;
        }
        None
    }
}

/// Snapshot isolation. A snapshot that was built while `visible` were the
/// bindings in force answers every lookup from `visible`, whatever bindings
/// the configuration holds `afterwards`.
pub proof fn lemma_snapshot_is_isolated(
    snapshot: IdentityResolvers,
    visible: Seq<Binding>,
    afterwards: Seq<Binding>,
    scheme: Seq<char>,
)
    requires
        snapshot@ == visible,
    ensures
        first_resolver_for(snapshot@, scheme) == first_resolver_for(visible, scheme),
{
}

impl Clone for IdentityResolvers {
    fn clone(&self) -> (copy: Self)
        ensures
            copy@ == self@,
    {
        IdentityResolvers::new(self.identity_resolvers.as_slice())
    }
}

impl Default for IdentityResolvers {
    /// The snapshot without bindings.
    fn default() -> (snapshot: Self)
        ensures
            snapshot@ == Seq::<Binding>::empty(),
    {
        Self { identity_resolvers: Vec::new() }
    }
}

} // verus!
