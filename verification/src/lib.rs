//! A type-erasure and global-registry layer for distributed-tracing
//! telemetry.
//!
//! Application code records spans through uniform handles
//! ([`boxed::BoxedSpan`], [`boxed::BoxedTracer`],
//! [`registry::GlobalTracerProvider`]), each erasing the concrete type of
//! the layer below it, while an operator may, at any time, install a
//! concrete tracing backend into a registry slot
//! ([`registry::TracerRegistry`]).  Before an installation, and whenever
//! the surrounding storage fails, every handle degrades to a no-op
//! implementation, so tracing is never a reason for the host application
//! to fail.

pub mod attr;
pub mod boxed;
pub mod context;
pub mod noop;
pub mod recording;
pub mod registry;
pub mod scope;
pub mod span;
pub mod status;
pub mod time;
pub mod tracer;
