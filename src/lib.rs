//! Decisions and generated text of the step that produces FFI bindings for
//! mbedTLS: the aggregate header, the generator's options, the bindings file
//! and its module stub, and the order in which they are produced.

pub mod aggregate;
pub mod naming;
pub mod outputs;
pub mod options;
pub mod step;
