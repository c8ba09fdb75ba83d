//! What the request orchestrator and the resolvers exchange.

use aws_smithy_async::future::now_or_later::{BoxFuture, NowOrLater};
use std::error::Error;
use vstd::prelude::*;

verus! {

/// Why an asynchronous operation failed.
pub type BoxError = Box<dyn Error + Send + Sync>;

/// The outcome of an asynchronous operation: a `T`, or the reason why there
/// is none, either at hand already or still to come.
///
/// It holds a `NowOrLater` of `aws_smithy_async`, over a boxed future that
/// the verifier cannot read; to the verifier a `Future` is a value that is
/// handed on unchanged. Code that awaits the outcome takes `inner`.
#[verifier::external_body]
#[verifier::reject_recursive_types(T)]
pub struct Future<T> {
    pub inner: NowOrLater<Result<T, BoxError>, BoxFuture<'static, Result<T, BoxError>>>,
}

} // verus!
