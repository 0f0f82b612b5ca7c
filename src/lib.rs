//! Loading an implementation of a capability interface from a dynamic module,
//! with the instance's lifetime bound to the module that backs its code.
pub mod container;
pub mod plugin;

pub use container::LoadedPlugin;
