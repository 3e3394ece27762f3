//! Verified core of the Polywrap client: manifest migration, msgpack values and
//! the URI and resolver types that the native bindings expose.
pub mod manifest;
pub mod msgpack;
pub mod native;
pub mod ffi_c;
