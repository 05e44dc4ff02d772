//! A typed handler-invocation core: a heterogeneous, type-indexed value store
//! paired with a generic extraction protocol and arity-polymorphic dispatch.
//!
//! A caller populates an [`extensions::Extensions`] store with at most one
//! value per type, then binds a handler of arity 0, 1 or 2 into a
//! [`dispatch::Dispatcher`], which materializes the handler's parameter tuple
//! from the store and invokes the handler once per `run`.

pub mod dispatch;
pub mod extensions;
pub mod extract;
pub mod laws;
