use aws_smithy_async::future::now_or_later::NowOrLater;
use aws_smithy_types::config_bag::{ConfigBag, Layer};
use smithy_identity::client::auth::AuthSchemeId;
use smithy_identity::client::identity::storage::{
    register_identity_resolver, registered_identity_resolvers, store_identity_resolvers,
    stored_identity_resolvers,
};
use smithy_identity::client::identity::{
    ConfiguredIdentityResolver, Identity, IdentityResolver, IdentityResolvers,
    SharedIdentityResolver,
};
use smithy_identity::client::orchestrator::Future;
use std::future::Future as StdFuture;
use std::pin::Pin;
use std::task::{Context, Poll, Waker};

/// Answers at once, with the name it was made with.
#[derive(Debug)]
struct Labelled(&'static str);

impl IdentityResolver for Labelled {
    fn resolve_identity(&self, _config_bag: &ConfigBag) -> Future<Identity> {
        Future {
            inner: NowOrLater::ready(Ok(Identity::new(self.0, None))),
        }
    }
}

fn labelled(name: &'static str) -> SharedIdentityResolver {
    SharedIdentityResolver::new(Labelled(name))
}

fn label_of(found: &SharedIdentityResolver) -> &'static str {
    let mut outcome = found.resolve_identity(&ConfigBag::base()).inner;
    let mut context = Context::from_waker(Waker::noop());
    match StdFuture::poll(Pin::new(&mut outcome), &mut context) {
        Poll::Ready(Ok(identity)) => *identity.data::<&'static str>().expect("a name"),
        _ => panic!("the resolver did not answer"),
    }
}

fn label_found(found: Option<SharedIdentityResolver>) -> Option<&'static str> {
    found.map(|found| label_of(&found))
}

/// Each binding as the name of its scheme and the name of its resolver.
fn described(bindings: &[ConfiguredIdentityResolver]) -> Vec<(&'static str, &'static str)> {
    bindings
        .iter()
        .map(|binding| {
            (
                binding.scheme_id().as_str(),
                label_of(&binding.identity_resolver()),
            )
        })
        .collect()
}

fn sigv4_id() -> AuthSchemeId {
    AuthSchemeId::new("sigv4")
}

fn bearer_id() -> AuthSchemeId {
    AuthSchemeId::new("bearer")
}

fn oauth_id() -> AuthSchemeId {
    AuthSchemeId::new("oauth")
}

#[test]
fn nothing_is_registered_in_a_new_layer() {
    let layer = Layer::new("empty");
    assert!(registered_identity_resolvers(&layer).is_empty());
    assert!(stored_identity_resolvers(&layer).is_none());
}

#[test]
fn one_registered_binding_can_be_read() {
    let mut layer = Layer::new("client");
    register_identity_resolver(&mut layer, sigv4_id(), labelled("R1"));
    assert_eq!(
        described(&registered_identity_resolvers(&layer)),
        vec![("sigv4", "R1")]
    );
}

#[test]
fn two_registered_bindings_are_both_readable_in_the_order_of_registration() {
    let mut layer = Layer::new("client");
    register_identity_resolver(&mut layer, sigv4_id(), labelled("R1"));
    register_identity_resolver(&mut layer, bearer_id(), labelled("R2"));
    assert_eq!(
        described(&registered_identity_resolvers(&layer)),
        vec![("sigv4", "R1"), ("bearer", "R2")]
    );
}

#[test]
fn a_binding_for_a_scheme_that_is_bound_already_removes_nothing() {
    let mut layer = Layer::new("client");
    register_identity_resolver(&mut layer, sigv4_id(), labelled("R1"));
    register_identity_resolver(&mut layer, bearer_id(), labelled("R2"));
    register_identity_resolver(&mut layer, sigv4_id(), labelled("R3"));
    assert_eq!(
        described(&registered_identity_resolvers(&layer)),
        vec![("sigv4", "R1"), ("bearer", "R2"), ("sigv4", "R3")]
    );

    let snapshot = IdentityResolvers::new(&registered_identity_resolvers(&layer));
    assert_eq!(label_found(snapshot.identity_resolver(sigv4_id())), Some("R1"));
    assert_eq!(label_found(snapshot.identity_resolver(bearer_id())), Some("R2"));
    assert_eq!(label_found(snapshot.identity_resolver(oauth_id())), None);
}

#[test]
fn registering_is_appending_to_the_slot_of_the_bindings() {
    let mut layer = Layer::new("client");
    register_identity_resolver(&mut layer, sigv4_id(), labelled("R1"));
    register_identity_resolver(&mut layer, bearer_id(), labelled("R2"));
    let newest_first: Vec<ConfiguredIdentityResolver> = layer
        .load::<ConfiguredIdentityResolver>()
        .cloned()
        .collect();
    assert_eq!(
        described(&newest_first),
        vec![("bearer", "R2"), ("sigv4", "R1")]
    );
}

#[test]
fn bindings_stored_by_the_store_itself_are_read_as_registered() {
    let mut layer = Layer::new("client");
    layer.store_append(ConfiguredIdentityResolver::new(oauth_id(), labelled("R1")));
    layer.store_append(ConfiguredIdentityResolver::new(sigv4_id(), labelled("R2")));
    layer.store_append(ConfiguredIdentityResolver::new(bearer_id(), labelled("R3")));
    assert_eq!(
        described(&registered_identity_resolvers(&layer)),
        vec![("oauth", "R1"), ("sigv4", "R2"), ("bearer", "R3")]
    );
}

#[test]
fn bindings_are_registered_again_after_the_slot_was_cleared() {
    let mut layer = Layer::new("client");
    register_identity_resolver(&mut layer, sigv4_id(), labelled("R1"));
    layer.clear::<ConfiguredIdentityResolver>();
    assert!(registered_identity_resolvers(&layer).is_empty());
    register_identity_resolver(&mut layer, bearer_id(), labelled("R2"));
    assert_eq!(
        described(&registered_identity_resolvers(&layer)),
        vec![("bearer", "R2")]
    );
}

#[test]
fn reading_the_bindings_leaves_them_registered() {
    let mut layer = Layer::new("client");
    register_identity_resolver(&mut layer, sigv4_id(), labelled("R1"));
    register_identity_resolver(&mut layer, bearer_id(), labelled("R2"));
    let first = described(&registered_identity_resolvers(&layer));
    let second = described(&registered_identity_resolvers(&layer));
    assert_eq!(first, second);
    assert_eq!(second, vec![("sigv4", "R1"), ("bearer", "R2")]);
}

#[test]
fn a_stored_snapshot_can_be_read() {
    let mut layer = Layer::new("attempt");
    let snapshot = IdentityResolvers::new(&[
        ConfiguredIdentityResolver::new(sigv4_id(), labelled("R1")),
        ConfiguredIdentityResolver::new(bearer_id(), labelled("R2")),
    ]);
    store_identity_resolvers(&mut layer, snapshot);
    let found = stored_identity_resolvers(&layer).expect("a snapshot");
    assert_eq!(label_found(found.identity_resolver(sigv4_id())), Some("R1"));
    assert_eq!(label_found(found.identity_resolver(bearer_id())), Some("R2"));
    assert_eq!(label_found(found.identity_resolver(oauth_id())), None);
}

#[test]
fn of_two_stored_snapshots_only_the_second_is_readable() {
    let mut layer = Layer::new("attempt");
    let first =
        IdentityResolvers::new(&[ConfiguredIdentityResolver::new(sigv4_id(), labelled("R1"))]);
    let second =
        IdentityResolvers::new(&[ConfiguredIdentityResolver::new(bearer_id(), labelled("R2"))]);
    store_identity_resolvers(&mut layer, first);
    store_identity_resolvers(&mut layer, second);

    let found = stored_identity_resolvers(&layer).expect("a snapshot");
    assert_eq!(label_found(found.identity_resolver(bearer_id())), Some("R2"));
    assert_eq!(label_found(found.identity_resolver(sigv4_id())), None);
}

#[test]
fn storing_a_snapshot_is_putting_it_in_its_slot() {
    let mut layer = Layer::new("attempt");
    store_identity_resolvers(
        &mut layer,
        IdentityResolvers::new(&[ConfiguredIdentityResolver::new(sigv4_id(), labelled("R1"))]),
    );
    let found = layer.load::<IdentityResolvers>().expect("a snapshot");
    assert_eq!(label_found(found.identity_resolver(sigv4_id())), Some("R1"));
}

#[test]
fn an_empty_snapshot_is_stored_like_any_other() {
    let mut layer = Layer::new("attempt");
    store_identity_resolvers(
        &mut layer,
        IdentityResolvers::new(&[ConfiguredIdentityResolver::new(sigv4_id(), labelled("R1"))]),
    );
    store_identity_resolvers(&mut layer, IdentityResolvers::new(&[]));
    let found = stored_identity_resolvers(&layer).expect("a snapshot");
    assert!(found.identity_resolver(sigv4_id()).is_none());
}

#[test]
fn bindings_and_snapshot_are_kept_apart() {
    let mut layer = Layer::new("client");
    register_identity_resolver(&mut layer, sigv4_id(), labelled("R1"));
    store_identity_resolvers(
        &mut layer,
        IdentityResolvers::new(&[ConfiguredIdentityResolver::new(bearer_id(), labelled("R2"))]),
    );
    register_identity_resolver(&mut layer, oauth_id(), labelled("R3"));

    assert_eq!(
        described(&registered_identity_resolvers(&layer)),
        vec![("sigv4", "R1"), ("oauth", "R3")]
    );
    let found = stored_identity_resolvers(&layer).expect("a snapshot");
    assert_eq!(label_found(found.identity_resolver(bearer_id())), Some("R2"));
    assert_eq!(label_found(found.identity_resolver(sigv4_id())), None);
    assert_eq!(label_found(found.identity_resolver(oauth_id())), None);
}

#[test]
fn a_snapshot_is_unaffected_by_bindings_registered_after_it_was_built() {
    let mut layer = Layer::new("client");
    register_identity_resolver(&mut layer, bearer_id(), labelled("R1"));
    let snapshot = IdentityResolvers::new(&registered_identity_resolvers(&layer));

    register_identity_resolver(&mut layer, sigv4_id(), labelled("R2"));
    layer.clear::<ConfiguredIdentityResolver>();
    register_identity_resolver(&mut layer, bearer_id(), labelled("R3"));

    assert_eq!(label_found(snapshot.identity_resolver(bearer_id())), Some("R1"));
    assert_eq!(label_found(snapshot.identity_resolver(sigv4_id())), None);

    let later = IdentityResolvers::new(&registered_identity_resolvers(&layer));
    assert_eq!(label_found(later.identity_resolver(bearer_id())), Some("R3"));
}

#[test]
fn a_stored_snapshot_read_earlier_is_unaffected_by_a_later_store() {
    let mut layer = Layer::new("attempt");
    store_identity_resolvers(
        &mut layer,
        IdentityResolvers::new(&[ConfiguredIdentityResolver::new(sigv4_id(), labelled("R1"))]),
    );
    let read_earlier = stored_identity_resolvers(&layer).expect("a snapshot");
    store_identity_resolvers(
        &mut layer,
        IdentityResolvers::new(&[ConfiguredIdentityResolver::new(sigv4_id(), labelled("R2"))]),
    );
    assert_eq!(label_found(read_earlier.identity_resolver(sigv4_id())), Some("R1"));
    let read_later = stored_identity_resolvers(&layer).expect("a snapshot");
    assert_eq!(label_found(read_later.identity_resolver(sigv4_id())), Some("R2"));
}
