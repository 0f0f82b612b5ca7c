//! The loading protocol: the factory export a module provides, and the ways
//! loading can fail.
use vstd::prelude::*;

use crate::container::LoadedPlugin;

verus! {

/// The loader's handle on an open module; released when dropped or closed.
#[verifier::external_type_specification]
#[verifier::external_body]
pub struct ExLibrary(libloading::Library);

/// A diagnostic reported by the loader.
#[verifier::external_type_specification]
#[verifier::external_body]
pub struct ExLoaderError(libloading::Error);

/// Why a module could not be loaded; each variant carries the loader's diagnostic.
#[derive(Debug)]
pub enum LoadingError {
    /// The module could not be opened.
    OpeningError(libloading::Error),
    /// The module was opened but does not export the factory.
    InterfaceGettingError(libloading::Error),
}

impl LoadingError {
    /// The loader's diagnostic behind the failure.
    pub fn cause(&self) -> (r: &libloading::Error)
        ensures
            match self {
                LoadingError::OpeningError(e) => r == e,
                LoadingError::InterfaceGettingError(e) => r == e,
            },
    {
        match self {
            LoadingError::OpeningError(e) => e,
            LoadingError::InterfaceGettingError(e) => e,
        }
    }
}

/// The name under which a module exports its factory: a function with no
/// arguments that returns an owning pointer to a new plugin instance.
pub const FACTORY_SYMBOL: &'static str = "get_interface";

/// Relies on libloading::Library::close: consumes the handle and unloads the
/// module. Whether the loader reports an error is not promised either way.
pub assume_specification[ libloading::Library::close ](lib: libloading::Library) -> (r: Result<
    (),
    libloading::Error,
>);

/// Every outcome that `open` may have is a handle.
pub open spec fn opens_never_fail<Open>(open: Open) -> bool where
    Open: FnOnce() -> Result<libloading::Library, libloading::Error>,
 {
    forall|o: Result<libloading::Library, libloading::Error>| #[trigger] open.ensures((), o) ==> o is Ok
}

/// Every outcome that `open` may have is an error.
pub open spec fn opens_always_fail<Open>(open: Open) -> bool where
    Open: FnOnce() -> Result<libloading::Library, libloading::Error>,
 {
    forall|o: Result<libloading::Library, libloading::Error>| #[trigger] open.ensures((), o) ==> o is Err
}

/// On every handle, every outcome that `lookup` may have is a factory.
pub open spec fn lookups_never_fail<Factory, Lookup>(lookup: Lookup) -> bool where
    Lookup: FnOnce(&libloading::Library) -> Result<Factory, libloading::Error>,
 {
    forall|l: &libloading::Library, o: Result<Factory, libloading::Error>|
        #[trigger] lookup.ensures((l,), o) ==> o is Ok
}

/// On every handle, every outcome that `lookup` may have is an error.
pub open spec fn lookups_always_fail<Factory, Lookup>(lookup: Lookup) -> bool where
    Lookup: FnOnce(&libloading::Library) -> Result<Factory, libloading::Error>,
 {
    forall|l: &libloading::Library, o: Result<Factory, libloading::Error>|
        #[trigger] lookup.ensures((l,), o) ==> o is Err
}

/// Loads a plugin through the three steps of the loading protocol.
///
/// `open` opens the module; `lookup` resolves the factory in the open module;
/// `invoke` calls the factory and takes ownership of the instance it returns.
/// A module that cannot be opened gives `OpeningError` and nothing is held.
/// A module without the factory gives `InterfaceGettingError`, and the module
/// is released before returning. Otherwise the container holds the instance
/// and the module it came from.
pub fn load_with<Factory, Plugin: ?Sized, Open, Lookup, Invoke>(
    open: Open,
    lookup: Lookup,
    invoke: Invoke,
) -> (r: Result<LoadedPlugin<Plugin>, LoadingError>) where
    Open: FnOnce() -> Result<libloading::Library, libloading::Error>,
    Lookup: FnOnce(&libloading::Library) -> Result<Factory, libloading::Error>,
    Invoke: FnOnce(Factory) -> Box<Plugin>,

    requires
        open.requires(()),
        forall|l: &libloading::Library| lookup.requires((l,)),
        forall|f: Factory| invoke.requires((f,)),
    ensures
        r matches Err(LoadingError::OpeningError(e)) ==> open.ensures((), Err(e)),
        r matches Err(LoadingError::InterfaceGettingError(e)) ==> exists|l: libloading::Library|
            open.ensures((), Ok(l)) && lookup.ensures((&l,), Err(e)),
        r matches Ok(c) ==> exists|l: libloading::Library, f: Factory, b: Box<Plugin>|
            open.ensures((), Ok(l)) && lookup.ensures((&l,), Ok(f)) && invoke.ensures((f,), b)
                && c.module() == l && c.instance() == &*b,
        opens_never_fail(open) && lookups_never_fail(lookup) ==> r is Ok,
        opens_always_fail(open) ==> r matches Err(LoadingError::OpeningError(_)),
        opens_never_fail(open) && lookups_always_fail(lookup) ==> r matches Err(
            LoadingError::InterfaceGettingError(_),
        ),
{
    let library = match open() {
        Ok(library) => library,
        Err(e) => return Err(LoadingError::OpeningError(e)),
    };
    let factory = match lookup(&library) {
        Ok(factory) => factory,
        Err(e) => {
            let _ = library.close();
            return Err(LoadingError::InterfaceGettingError(e));
        },
    };
    let plugin = invoke(factory);
    Ok(LoadedPlugin::new(plugin, library))
}

} // verus!
