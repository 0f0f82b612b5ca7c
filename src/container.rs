//! The container that owns a plugin instance together with the module whose
//! code backs it.
use vstd::prelude::*;

verus! {

/// A plugin instance and the open module it was created from.
///
/// Teardown finalizes the instance first, while the module is still mapped,
/// and only then releases the module. The order is that of the fields below:
/// Rust drops a struct's fields in declaration order, on every exit path
/// (scope end, early return, error propagation and unwinding alike), so no
/// path can release the module while the instance is alive.
pub struct LoadedPlugin<Plugin: ?Sized> {
    plugin: Box<Plugin>,
    library: libloading::Library,
}

impl<Plugin: ?Sized> LoadedPlugin<Plugin> {
    /// The plugin instance held by the container.
    pub closed spec fn instance(&self) -> &Plugin {
        &*self.plugin
    }

    /// The module handle held by the container.
    pub closed spec fn module(&self) -> libloading::Library {
        self.library
    }

    /// Binds an instance to the module that created it.
    pub(crate) fn new(plugin: Box<Plugin>, library: libloading::Library) -> (r: Self)
        ensures
            r.instance() == &*plugin,
            r.module() == library,
    {
        LoadedPlugin { plugin, library }
    }

    /// Exclusive access to the plugin instance.
    pub fn plugin_mut(&mut self) -> (r: &mut Plugin)
        ensures
            &*r == old(self).instance(),
            final(self).module() == old(self).module(),
            final(self).instance() == &*final(r),
    {
        &mut *self.plugin
    }
}

impl<Plugin: ?Sized> std::ops::Deref for LoadedPlugin<Plugin> {
    type Target = Plugin;

    /// Shared access to the plugin instance.
    fn deref(&self) -> (r: &Plugin)
        ensures
            r == self.instance(),
    {
        &*self.plugin
    }
}

} // verus!
