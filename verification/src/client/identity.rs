//! Identities: the credential material that authenticates a request, what
//! resolves it, and the bindings of resolvers to authentication schemes.

pub mod registry;
pub mod resolver;
pub mod storage;

pub use registry::{ConfiguredIdentityResolver, IdentityResolvers};
pub use resolver::{IdentityResolver, SharedIdentityResolver};

use std::any::Any;
use std::sync::Arc;
use std::time::SystemTime;
use vstd::prelude::*;

verus! {

/// `std::time::SystemTime`: a point in time. Nothing is assumed of it beyond
/// its being a value that can be copied and compared in specifications.
#[verifier::external_type_specification]
#[verifier::external_body]
pub struct ExSystemTime(SystemTime);

/// `Arc::clone`: another pointer to the value that `shared` points to.
#[verifier::external_body]
pub(crate) fn share_again<T>(shared: &Arc<T>) -> (again: Arc<T>)
    ensures
        again == *shared,
{
    Arc::clone(shared)
}

/// Every type whose values can be the payload of an identity.
///
/// The trait object `dyn Payload` appears in specifications only, where it
/// stands for a value together with its type: two payloads are the same
/// trait object exactly when they are the same value of the same type.
pub trait Payload {

}

impl<T: 'static> Payload for T {

}

/// The payload `value`, with its type forgotten.
pub open spec fn as_payload<T: 'static>(value: T) -> Box<dyn Payload> {
    let payload: Box<dyn Payload> = Box::new(value);
    payload
}

/// Whether `T` and `U` are different types of payload: no value of `T` is,
/// as a payload, a value of `U`.
pub open spec fn distinct_payload_types<T: 'static, U: 'static>() -> bool {
    forall|left: T, right: U| as_payload(left) != as_payload(right)
}

/// A payload whose type is known only when the program runs.
///
/// It holds a `Box<dyn Any + Send + Sync>`, a type that the verifier cannot
/// read; [`payload_held`] names what is in the box.
#[verifier::external_body]
#[derive(Debug)]
pub struct ErasedPayload {
    inner: Box<dyn Any + Send + Sync>,
}

/// The payload that `erased` holds.
pub uninterp spec fn payload_held(erased: ErasedPayload) -> Box<dyn Payload>;

/// `Box::new`, with the box then taken as one of a value of unknown type:
/// the result holds `value`, and nothing else.
#[verifier::external_body]
fn erase_payload<T: Send + Sync + 'static>(value: T) -> (erased: ErasedPayload)
    ensures
        payload_held(erased) == as_payload(value),
        forall|other: T| payload_held(erased) == as_payload(other) ==> other == value,
{
    ErasedPayload { inner: Box::new(value) }
}

/// `<dyn Any>::downcast_ref`: a reference to the value that `erased` holds
/// if that value is of type `T`, and `None` if it is of another type.
#[verifier::external_body]
fn payload_ref<T: 'static>(erased: &ErasedPayload) -> (found: Option<&T>)
    ensures
        forall|held: T| payload_held(*erased) == as_payload(held) ==> found == Some(&held),
        found matches Some(value) ==> payload_held(*erased) == as_payload(*value),
{
    erased.inner.downcast_ref::<T>()
}

/// Credential material of a type that the caller chooses, with an optional
/// expiration.
///
/// An identity never changes once it is made. Copies share the payload.
#[derive(Debug)]
pub struct Identity {
    data: Arc<ErasedPayload>,
    expiration: Option<SystemTime>,
}

impl Identity {
    /// The payload as a value of type `T`: `Some` if the identity was made
    /// from a `T`, and `None` if it was made from a value of another type.
    pub closed spec fn payload<T: 'static>(&self) -> Option<T> {
        if exists|value: T| payload_held(*self.data) == as_payload(value) {
            Some(choose|value: T| payload_held(*self.data) == as_payload(value))
        } else {
            None
        }
    }

    /// The time at which this identity expires, if it ever does.
    pub closed spec fn expires(&self) -> Option<SystemTime> {
        self.expiration
    }

    /// The identity that holds `data` and expires at `expiration`.
    pub fn new<T: Send + Sync + 'static>(
        data: T,
        expiration: Option<SystemTime>,
    ) -> (identity: Self)
        ensures
            identity.payload::<T>() == Some(data),
            identity.expires() == expiration,
    {
        Identity { data: Arc::new(erase_payload(data)), expiration }
    }

    /// The payload, if it is of type `T`.
    ///
    /// Asking for a type other than the payload's is no error: the answer is
    /// `None`.
    pub fn data<T: 'static>(&self) -> (payload: Option<&T>)
        ensures
            match payload {
                Some(found) => self.payload::<T>() == Some(*found),
                None => self.payload::<T>() is None,
            },
    {
        payload_ref(&self.data)
    }

    /// The time at which this identity expires, if it ever does.
    pub fn expiration(&self) -> (expiration: Option<&SystemTime>)
        ensures
            match expiration {
                Some(time) => self.expires() == Some(*time),
                None => self.expires() is None,
            },
    {
        self.expiration.as_ref()
    }

    /// An identity has a payload of one type only: where it has one of type
    /// `T`, it has none of any other type `U`.
    pub proof fn lemma_payload_of_one_type<T: 'static, U: 'static>(&self)
        requires
            self.payload::<T>() is Some,
            distinct_payload_types::<T, U>(),
        ensures
            self.payload::<U>() is None,
    {
    }
}

impl Clone for Identity {
    /// A copy that shares the payload and has the same expiration.
    fn clone(&self) -> (copy: Self)
        ensures
            copy == *self,
    {
        Identity { data: share_again(&self.data), expiration: self.expiration }
    }
}

} // verus!
