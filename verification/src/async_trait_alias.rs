//! Short names for futures, by whether they may be sent to another thread
//! and shared between threads.

use vstd::prelude::*;
use std::future::Future;

verus! {

/// A future with the output `O`.
pub trait Async<O>: Future<Output = O> {
}

impl<T, O> Async<O> for T where T: Future<Output = O> {
}

/// A future that may move to another thread.
pub trait AsyncSend<O>: Send + Async<O> {
}

impl<T, O> AsyncSend<O> for T where T: Async<O> + Send {
}

/// A future that may be shared between threads.
pub trait AsyncSync<O>: Sync + Async<O> {
}

impl<T, O> AsyncSync<O> for T where T: Async<O> + Sync {
}

/// A future that may both move to another thread and be shared.
pub trait AsyncSendSync<O>: Send + Async<O> + Sync {
}

impl<T, O> AsyncSendSync<O> for T where T: Async<O> + Send + Sync {
}

} // verus!
