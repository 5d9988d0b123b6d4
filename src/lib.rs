//! Host-side representation of value types whose layout and behaviour belong to the
//! engine: fixed-size word storage, a publish-once table of engine entry points, and
//! a construction protocol through which every new value is produced by exactly one
//! engine call.

pub mod layout;
pub mod builtin;
pub mod table;
pub mod construct;
pub mod convert;
