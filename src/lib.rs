//! Host-side support for WebAssembly modules built against the Emscripten
//! runtime ABI: the initial linear-memory layout, its initialisation, and the
//! table of imports such modules link against.

pub mod layout;
pub mod memory;
pub mod imports;
pub mod symbols;
pub mod env;
