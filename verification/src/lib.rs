//! A host-invoked command handler: given a named action and a payload, it
//! builds a declarative list of side-effects for the host to execute, without
//! performing any I/O itself.

pub mod dispatch;
pub mod effect;
pub mod laws;
pub mod value;
