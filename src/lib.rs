//! A verified model of the trait-object bridge: how a shared reference to an
//! implementation of a polymorphic interface crosses a C-compatible boundary
//! as an opaque handle, and back.
pub mod button;
pub mod callback;
pub mod handles;
pub mod scaffold;
pub mod symbols;
pub mod wire;
