//! Arity-polymorphic handler invocation, and the dispatcher that binds one
//! handler to one extract-then-invoke cycle against a borrowed store.
//!
//! [`Handler`] gives every callable of arity 0, 1 or 2 one uniform call
//! contract; it is implemented once per arity for every plain `Fn` callable
//! and performs pure forwarding. [`Dispatcher`] pairs a handler with the
//! parameter tuple shape it expects: each [`Dispatcher::run`] materializes
//! that tuple from the store through the extraction protocol and invokes the
//! handler exactly once.

use crate::extensions::Extensions;
use crate::extract::PickUp;
use crate::extract::PickUpOrDefault;
use core::marker::PhantomData;
use vstd::prelude::*;

verus! {

/// A callable over a fixed-arity tuple of extracted values, invoked
/// uniformly through one call contract.
pub trait Handler<T, R>: Sized {
    /// When the underlying callable may be invoked on `param`.
    spec fn pre(&self, param: T) -> bool;

    /// Which results the underlying callable may produce from `param`.
    spec fn post(&self, param: T, r: R) -> bool;

    /// Apply the underlying callable to the unpacked tuple and return its
    /// result unmodified.
    fn call(&self, param: T) -> (r: R)
        requires
            self.pre(param),
        ensures
            self.post(param, r),
    ;
}

impl<F: Fn() -> R, R> Handler<(), R> for F {
    open spec fn pre(&self, param: ()) -> bool {
        call_requires(*self, ())
    }

    open spec fn post(&self, param: (), r: R) -> bool {
        call_ensures(*self, (), r)
    }

    fn call(&self, param: ()) -> (r: R) {
        (self)()
    }
}

impl<F: Fn(A) -> R, A, R> Handler<(A,), R> for F {
    open spec fn pre(&self, param: (A,)) -> bool {
        call_requires(*self, param)
    }

    open spec fn post(&self, param: (A,), r: R) -> bool {
        call_ensures(*self, param, r)
    }

    fn call(&self, param: (A,)) -> (r: R) {
        (self)(param.0)
    }
}

impl<F: Fn(A, B) -> R, A, B, R> Handler<(A, B), R> for F {
    open spec fn pre(&self, param: (A, B)) -> bool {
        call_requires(*self, param)
    }

    open spec fn post(&self, param: (A, B), r: R) -> bool {
        call_ensures(*self, param, r)
    }

    fn call(&self, param: (A, B)) -> (r: R) {
        (self)(param.0, param.1)
    }
}

/// Binds one handler to the parameter tuple shape `T` and result shape `R`
/// it expects; immutable after construction.
///
/// A dispatcher never owns the store: each `run` borrows it immutably, so
/// dispatch never mutates the store and a dispatcher may run repeatedly
/// against any store.
pub struct Dispatcher<T, R, F> {
    /// The bound handler.
    pub handler: F,
    /// Marks the parameter and result shape the handler is bound to; carries
    /// no runtime payload.
    pub shape: PhantomData<(T, R)>,
}

impl<T, R, F> Dispatcher<T, R, F> {
    /// Bind `handler` into a new dispatcher.
    pub fn new(handler: F) -> (d: Dispatcher<T, R, F>)
        ensures
            d.handler == handler,
    {
        Dispatcher { handler, shape: PhantomData }
    }
}

impl<T: PickUp, R, F: Handler<T, R>> Dispatcher<T, R, F> {
    /// One synchronous extract-then-invoke cycle under the reporting policy.
    ///
    /// The caller must hand in a store whose contents resolve the whole
    /// parameter tuple: a failed reporting-policy extraction is fatal for the
    /// call, and surfacing it belongs to the surrounding application, not to
    /// this core. On such a store, the handler is invoked exactly once on the
    /// extracted tuple and its result is returned unchanged.
    pub fn run(&self, bag: &Extensions) -> (r: R)
        requires
            T::spec_pick(bag@) is Ok,
            self.handler.pre(T::spec_pick(bag@)->Ok_0),
        ensures
            self.handler.post(T::spec_pick(bag@)->Ok_0, r),
    {
        match T::pick_up(bag) {
            Ok(param) => self.handler.call(param),
            Err(_) => vstd::pervasive::unreached(),
        }
    }
}

impl<T: PickUpOrDefault, R, F: Handler<T, R>> Dispatcher<T, R, F> {
    /// One synchronous extract-then-invoke cycle under the defaulting
    /// policy.
    ///
    /// Defaulting extraction cannot fail, so every call invokes the handler
    /// exactly once, on the extracted tuple, and returns its result
    /// unchanged.
    pub fn run_or_default(&self, bag: &Extensions) -> (r: R)
        requires
            self.handler.pre(T::spec_pick_or_default(bag@)),
        ensures
            self.handler.post(T::spec_pick_or_default(bag@), r),
    {
        let param = T::pick_up_or_default(bag);
        self.handler.call(param)
    }
}

} // verus!
