//! How bindings and snapshots are kept in a layer of the configuration:
//! bindings accumulate, a snapshot replaces the one before it.

use crate::client::auth::AuthSchemeId;
use crate::client::identity::registry::{
    first_resolver_for, Binding, ConfiguredIdentityResolver, IdentityResolvers,
};
use crate::client::identity::resolver::SharedIdentityResolver;
use aws_smithy_types::config_bag::{Layer, Storable, StoreAppend, StoreReplace};
use vstd::prelude::*;

verus! {

/// `aws_smithy_types::config_bag::Layer`: one layer of the configuration, a
/// store with one slot for each type of value.
#[verifier::external_type_specification]
#[verifier::external_body]
pub struct ExLayer(Layer);

/// `aws_smithy_types::config_bag::StoreAppend`: marks a type whose values
/// accumulate in their slot.
#[verifier::external_type_specification]
#[verifier::external_body]
#[verifier::reject_recursive_types(U)]
pub struct ExStoreAppend<U>(StoreAppend<U>);

/// `aws_smithy_types::config_bag::StoreReplace`: marks a type of which the
/// slot holds one value, the one stored last.
#[verifier::external_type_specification]
#[verifier::external_body]
#[verifier::reject_recursive_types(U)]
pub struct ExStoreReplace<U>(StoreReplace<U>);

/// Bindings accumulate: storing one keeps those stored before.
impl Storable for ConfiguredIdentityResolver {
    type Storer = StoreAppend<Self>;
}

/// A snapshot replaces the snapshot stored before it.
impl Storable for IdentityResolvers {
    type Storer = StoreReplace<Self>;
}

/// The bindings that `Layer::load` yields from `layer`, in the order in
/// which it yields them: the one stored last comes first.
pub uninterp spec fn bindings_loaded_from(layer: Layer) -> Seq<Binding>;

/// The snapshot that `Layer::load` yields from `layer`, if it yields one.
pub uninterp spec fn snapshot_loaded_from(layer: Layer) -> Option<Seq<Binding>>;

/// `Layer::store_append`: afterwards the layer yields `binding` and then
/// what it yielded before. The slot of the snapshot is left alone.
#[verifier::external_body]
fn store_append_binding(layer: &mut Layer, binding: ConfiguredIdentityResolver)
    ensures
        bindings_loaded_from(*final(layer)) == seq![binding@] + bindings_loaded_from(*old(layer)),
        snapshot_loaded_from(*final(layer)) == snapshot_loaded_from(*old(layer)),
{
    layer.store_append(binding);
}

/// `Layer::load` for bindings, each binding that it yields copied into the
/// result.
#[verifier::external_body]
fn load_bindings(layer: &Layer) -> (found: Vec<ConfiguredIdentityResolver>)
    ensures
        found@.len() == bindings_loaded_from(*layer).len(),
        forall|i: int|
            #![trigger found@[i]]
            #![trigger bindings_loaded_from(*layer)[i]]
            0 <= i < found@.len() ==> found@[i]@ == bindings_loaded_from(*layer)[i],
{
    layer.load::<ConfiguredIdentityResolver>().cloned().collect()
}

/// `Layer::store_put`: afterwards the layer yields `snapshot`. The slot of
/// the bindings is left alone.
#[verifier::external_body]
fn store_put_snapshot(layer: &mut Layer, snapshot: IdentityResolvers)
    ensures
        snapshot_loaded_from(*final(layer)) == Some(snapshot@),
        bindings_loaded_from(*final(layer)) == bindings_loaded_from(*old(layer)),
{
    layer.store_put(snapshot);
}

/// `Layer::load` for the snapshot, copied into the result if there is one.
#[verifier::external_body]
fn load_snapshot(layer: &Layer) -> (found: Option<IdentityResolvers>)
    ensures
        match found {
            Some(snapshot) => snapshot_loaded_from(*layer) == Some(snapshot@),
            None => snapshot_loaded_from(*layer) is None,
        },
{
    layer.load::<IdentityResolvers>().cloned()
}

/// The bindings registered in `layer`, the one registered first coming
/// first.
pub open spec fn registered_bindings(layer: Layer) -> Seq<Binding> {
    bindings_loaded_from(layer).reverse()
}

/// The snapshot kept in `layer`, if one is kept there.
pub open spec fn stored_snapshot(layer: Layer) -> Option<Seq<Binding>> {
    snapshot_loaded_from(layer)
}

/// Whether `after` is the layer `before` with `binding` registered in it:
/// `binding` comes after the bindings of `before`, which all remain, and the
/// snapshot kept in the layer is as it was.
pub open spec fn appends(before: Layer, binding: Binding, after: Layer) -> bool {
    &&& registered_bindings(after) == registered_bindings(before).push(binding)
    &&& stored_snapshot(after) == stored_snapshot(before)
}

/// Whether `after` is the layer `before` with `snapshot` kept in it:
/// `snapshot` is the snapshot kept, whatever was kept before, and the
/// bindings registered in the layer are as they were.
pub open spec fn replaces(before: Layer, snapshot: Seq<Binding>, after: Layer) -> bool {
    &&& stored_snapshot(after) == Some(snapshot)
    &&& registered_bindings(after) == registered_bindings(before)
}

/// Registers `identity_resolver` for the scheme `auth_scheme_id` in `layer`,
/// after the bindings that are registered there already. None of those is
/// removed, whatever its scheme.
pub fn register_identity_resolver(
    layer: &mut Layer,
    auth_scheme_id: AuthSchemeId,
    identity_resolver: SharedIdentityResolver,
)
    ensures
        appends(
            *old(layer),
            Binding { scheme: auth_scheme_id@, resolver: identity_resolver },
            *final(layer),
        ),
{
    let binding = ConfiguredIdentityResolver::new(auth_scheme_id, identity_resolver);
    store_append_binding(layer, binding);
    proof {
        let before = bindings_loaded_from(*old(layer));
        assert((seq![binding@] + before).reverse() =~= before.reverse().push(binding@));
    }
}

/// The bindings registered in `layer`, in the order in which they were
/// registered.
pub fn registered_identity_resolvers(layer: &Layer) -> (found: Vec<ConfiguredIdentityResolver>)
    ensures
        found@.len() == registered_bindings(*layer).len(),
        forall|i: int|
            #![trigger found@[i]]
            #![trigger registered_bindings(*layer)[i]]
            0 <= i < found@.len() ==> found@[i]@ == registered_bindings(*layer)[i],
{
    let mut loaded = load_bindings(layer);
    let ghost newest_first = loaded@;
    let mut found: Vec<ConfiguredIdentityResolver> = Vec::new();
    while loaded.len() > 0
        invariant
            loaded@ == newest_first.take(loaded@.len() as int),
            found@.len() + loaded@.len() == newest_first.len(),
            forall|k: int|
                0 <= k < found@.len() ==> found@[k] == newest_first[newest_first.len() - 1 - k],
        decreases loaded@.len(),
    {
        let binding = loaded.pop().unwrap();
        found.push(binding);
    }
    found
}

/// Keeps `snapshot` in `layer` in place of the snapshot kept there before.
pub fn store_identity_resolvers(layer: &mut Layer, snapshot: IdentityResolvers)
    ensures
        replaces(*old(layer), snapshot@, *final(layer)),
{
    store_put_snapshot(layer, snapshot);
}

/// A copy of the snapshot kept in `layer`, if one is kept there.
pub fn stored_identity_resolvers(layer: &Layer) -> (found: Option<IdentityResolvers>)
    ensures
        match found {
            Some(snapshot) => stored_snapshot(*layer) == Some(snapshot@),
            None => stored_snapshot(*layer) is None,
        },
{
    load_snapshot(layer)
}

/// Bindings accumulate. Of two bindings registered one after the other in a
/// layer, both can be read afterwards, in the order of their registration
/// and after what was registered before them.
pub proof fn lemma_registered_bindings_accumulate(
    start: Layer,
    first: Binding,
    between: Layer,
    second: Binding,
    end: Layer,
)
    requires
        appends(start, first, between),
        appends(between, second, end),
    ensures
        registered_bindings(end) == registered_bindings(start) + seq![first, second],
        stored_snapshot(end) == stored_snapshot(start),
{
}

/// A snapshot replaces. Of two snapshots kept one after the other in a
/// layer, the second alone can be read afterwards.
pub proof fn lemma_stored_snapshot_is_replaced(
    start: Layer,
    first: Seq<Binding>,
    between: Layer,
    second: Seq<Binding>,
    end: Layer,
)
    requires
        replaces(start, first, between),
        replaces(between, second, end),
    ensures
        stored_snapshot(end) == Some(second),
        registered_bindings(end) == registered_bindings(start),
{
}

/// A snapshot that is kept in a layer is isolated from the bindings: it
/// answers every lookup as before when a binding is registered in the layer
/// afterwards.
pub proof fn lemma_stored_snapshot_is_isolated(
    before: Layer,
    snapshot: Seq<Binding>,
    binding: Binding,
    after: Layer,
    scheme: Seq<char>,
)
    requires
        stored_snapshot(before) == Some(snapshot),
        appends(before, binding, after),
    ensures
        stored_snapshot(after) == Some(snapshot),
        first_resolver_for(stored_snapshot(after)->0, scheme) == first_resolver_for(
            snapshot,
            scheme,
        ),
{
}

} // verus!
