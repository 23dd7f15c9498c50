//! Reflective access to COM Automation type libraries: a plain-value model of
//! a library's records, the rendering of type descriptors, the inspection of
//! records, methods and parameters, the marshalling and unpacking of
//! late-bound calls, and the emission of language bindings.
pub mod dispatch;
pub mod emit;
pub mod error;
pub mod inspect;
pub mod laws;
pub mod model;
pub mod render;
pub mod typelib;
pub mod util;
