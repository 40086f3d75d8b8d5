//! Client requests to a dynamic-instrumentation supervisor and its tools:
//! the request frames, the request codes and the decoding of result words.

pub mod codes;
pub mod frame;
pub mod leak;
pub mod request;
pub mod text;
pub mod trap;
pub mod word;
