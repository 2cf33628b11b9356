//! Service identity for telemetry: resolves the service name and version from
//! the process environment, with fallbacks, and merges them with the SDK's
//! defaults and the detected operating system into one resource.

pub mod env;
pub mod otel;
pub mod resource;
