//! Resolvers: what produces identities.

use crate::client::identity::{share_again, Identity};
use crate::client::orchestrator::Future;
use aws_smithy_types::config_bag::ConfigBag;
use std::fmt::{Debug, Error, Formatter};
use std::sync::Arc;
use vstd::prelude::*;

verus! {

/// `aws_smithy_types::config_bag::ConfigBag`: the layered configuration that
/// is in force while a request is attempted.
#[verifier::external_type_specification]
#[verifier::external_body]
pub struct ExConfigBag(ConfigBag);

/// `std::fmt::Formatter`: where a value writes itself for diagnostics.
#[verifier::external_type_specification]
#[verifier::external_body]
pub struct ExFormatter<'a>(Formatter<'a>);

/// `std::fmt::Error`: that writing to a formatter failed.
#[verifier::external_type_specification]
#[verifier::external_body]
pub struct ExFormatError(Error);

/// Resolves an identity for a request.
///
/// A resolver may be called from several attempts at once, and what it
/// answers may differ from call to call.
pub trait IdentityResolver: Send + Sync + Debug {
    /// Whether `outcome` can be what this resolver answers under
    /// `config_bag`. A resolver that says nothing of itself can answer
    /// anything.
    open spec fn resolves(&self, config_bag: &ConfigBag, outcome: Future<Identity>) -> bool {
        true
    }

    /// Starts resolving an identity under the configuration `config_bag`.
    fn resolve_identity(&self, config_bag: &ConfigBag) -> (outcome: Future<Identity>)
        ensures
            self.resolves(config_bag, outcome),
    ;
}

/// Whether `resolver` answers in one way only under each configuration.
pub open spec fn is_deterministic<R: IdentityResolver>(resolver: R) -> bool {
    forall|config_bag: ConfigBag, first: Future<Identity>, second: Future<Identity>|
        #![trigger resolver.resolves(&config_bag, first), resolver.resolves(&config_bag, second)]
        resolver.resolves(&config_bag, first) && resolver.resolves(&config_bag, second) ==> first
            == second
}

/// `format!` with `{:?}`: what `value` prints for diagnostics.
#[verifier::external_body]
fn debug_text<T: Debug>(value: &T) -> String {
    format!("{:?}", value)
}

/// `Formatter::write_str`.
#[verifier::external_body]
fn write_text(formatter: &mut Formatter<'_>, text: &str) -> Result<(), Error> {
    formatter.write_str(text)
}

/// A resolver as a handle holds it.
///
/// [`IdentityResolver`] asks of a resolver that it can print itself, and the
/// verifier forms no trait object of a trait that asks so. This trait asks
/// the same of a resolver but for the printing, of which it wants the text.
/// Every resolver meets it.
trait ResolverObject: Send + Sync {
    /// [`IdentityResolver::resolves`].
    spec fn answers(&self, config_bag: &ConfigBag, outcome: Future<Identity>) -> bool;

    /// [`IdentityResolver::resolve_identity`].
    fn answer(&self, config_bag: &ConfigBag) -> (outcome: Future<Identity>)
        ensures
            self.answers(config_bag, outcome),
    ;

    /// What the resolver prints for diagnostics.
    fn describe(&self) -> String;
}

impl<R: IdentityResolver> ResolverObject for R {
    spec fn answers(&self, config_bag: &ConfigBag, outcome: Future<Identity>) -> bool {
        self.resolves(config_bag, outcome)
    }

    fn answer(&self, config_bag: &ConfigBag) -> (outcome: Future<Identity>) {
        self.resolve_identity(config_bag)
    }

    fn describe(&self) -> String {
        debug_text(self)
    }
}

/// Container for a shared identity resolver.
///
/// The handle stands for a resolver of any type. It can be copied and sent
/// to other threads; every copy refers to the one resolver.
pub struct SharedIdentityResolver(Arc<Box<dyn ResolverObject>>);

/// Whether `shared` is a handle on `resolver`: it can answer what `resolver`
/// can, and nothing else.
pub open spec fn forwards_to<R: IdentityResolver>(
    shared: SharedIdentityResolver,
    resolver: R,
) -> bool {
    forall|config_bag: ConfigBag, outcome: Future<Identity>| #[trigger]
        shared.resolves(&config_bag, outcome) <==> resolver.resolves(&config_bag, outcome)
}

impl SharedIdentityResolver {
    /// Creates a new [`SharedIdentityResolver`] from the given resolver.
    pub fn new<R: IdentityResolver + 'static>(resolver: R) -> (shared: Self)
        ensures
            forwards_to(shared, resolver),
    {
        let behind: Box<dyn ResolverObject> = Box::new(resolver);
        SharedIdentityResolver(Arc::new(behind))
    }
}

impl IdentityResolver for SharedIdentityResolver {
    /// A handle can answer what the resolver behind it can.
    closed spec fn resolves(&self, config_bag: &ConfigBag, outcome: Future<Identity>) -> bool {
        self.0.answers(config_bag, outcome)
    }

    /// Hands the call on to the resolver behind the handle, and the answer
    /// back.
    fn resolve_identity(&self, config_bag: &ConfigBag) -> (outcome: Future<Identity>) {
        self.0.answer(config_bag)
    }
}

impl Clone for SharedIdentityResolver {
    /// Another handle on the same resolver.
    fn clone(&self) -> (copy: Self)
        ensures
            copy == *self,
    {
        SharedIdentityResolver(share_again(&self.0))
    }
}

impl Debug for SharedIdentityResolver {
    /// Prints the resolver behind the handle, in brackets behind the
    /// handle's own name.
    fn fmt(&self, formatter: &mut Formatter<'_>) -> Result<(), Error> {
        let behind = self.0.describe();
        match write_text(formatter, "SharedIdentityResolver(") {
            Ok(()) => {},
            Err(error) => {
                return Err(error);
            },
        }
        match write_text(formatter, behind.as_str()) {
            Ok(()) => {},
            Err(error) => {
                return Err(error);
            },
        }
        write_text(formatter, ")")
    }
}

/// A copy of a handle resolves as the handle does: where the resolver behind
/// them answers in one way only, both give the same outcome under the same
/// configuration.
pub proof fn lemma_copy_resolves_alike<R: IdentityResolver>(
    resolver: R,
    shared: SharedIdentityResolver,
    copy: SharedIdentityResolver,
    config_bag: ConfigBag,
    outcome: Future<Identity>,
    outcome_of_copy: Future<Identity>,
)
    requires
        forwards_to(shared, resolver),
        is_deterministic(resolver),
        copy == shared,
        shared.resolves(&config_bag, outcome),
        copy.resolves(&config_bag, outcome_of_copy),
    ensures
        outcome_of_copy == outcome,
{
}

} // verus!
