//! Verified core of a cached publish/observe library.
//!
//! A `CachedPublisher` remembers the last value it was notified with and hands
//! each subscriber, on every notification, an input vector that carries the
//! value at the subscriber's own input index. An `Observer` keeps the latest
//! value received on each of its inputs, asks for its transform only once every
//! input has been received, stores what the transform produced, and republishes
//! it to its own subscribers.
//!
//! Values are shared pointers (`Arc<T>`, where `T` may be unsized, such as
//! `dyn Any + Send + Sync`). Locking, futures and the calls into subscriber
//! trait objects are left to the caller, which performs the actions that the
//! functions here return.

pub mod error;
pub mod inputs;
pub mod laws;
pub mod observer;
pub mod publisher;
mod shared;

pub use error::ObserverError;
pub use observer::Observer;
pub use publisher::CachedPublisher;


