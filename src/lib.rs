//! Typed callables over Godot's dynamic `Callable`: handles of known arity, binding of
//! trailing arguments, connection flags and the values exchanged when declaring and
//! connecting signals.

pub mod bind;
pub mod bindings;
pub mod callable_static;
pub mod flags;
pub mod host;
pub mod signal;
