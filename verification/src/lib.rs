//! An interactive task-list core: a versioned schema-migration engine and the
//! session state machines of a terminal task manager, verified against an
//! explicit model of the backing store.

pub mod add;
pub mod banner;
pub mod input;
pub mod migrate;
pub mod render;
pub mod session;
pub mod store;
mod text;
