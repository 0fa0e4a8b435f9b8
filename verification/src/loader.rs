//! Handles to the three vendor libraries.
//!
//! A handle owns a shared reference to a loaded library. The OS loader itself
//! is reached through the closures that `load`, `load_from` and `get` take:
//! the embedding code makes the call, the handle decides what is asked for
//! and what the answer becomes.

use crate::error::LoadError;
use crate::platform::Platform;
use crate::text::{lemma_lossy_text_round_trip, lossy_text};
use std::sync::Arc;
use vstd::prelude::*;

verus! {

/// A shared library that the OS loader holds open. Opaque here.
#[verifier::external_type_specification]
#[verifier::external_body]
pub struct ExLibrary(libloading::Library);

/// An export of a loaded library, bound to the borrow it was looked up
/// through. Opaque here.
#[verifier::external_type_specification]
#[verifier::external_body]
#[verifier::reject_recursive_types(T)]
pub struct ExSymbol<'lib, T: 'lib>(libloading::Symbol<'lib, T>);

/// Which of the three vendor libraries is meant.
#[derive(Clone, Copy, Debug, PartialEq, Eq, Structural)]
pub enum LibraryKind {
    /// The hardware encoder API.
    Encoder,
    /// The GPU driver API.
    Driver,
    /// The hardware decoder API.
    Decoder,
}

/// The file name under which a library is looked for on a platform.
pub open spec fn default_name_text(kind: LibraryKind, platform: Platform) -> Seq<char> {
    match (kind, platform) {
        (LibraryKind::Encoder, Platform::LinuxX86_64) => "libnvidia-encode.so.1"@,
        (LibraryKind::Encoder, Platform::WindowsX86_64) => "nvEncodeAPI64.dll"@,
        (LibraryKind::Driver, Platform::LinuxX86_64) => "libcuda.so.1"@,
        (LibraryKind::Driver, Platform::WindowsX86_64) => "nvcuda.dll"@,
        (LibraryKind::Decoder, Platform::LinuxX86_64) => "libnvcuvid.so.1"@,
        (LibraryKind::Decoder, Platform::WindowsX86_64) => "nvcuvid.dll"@,
    }
}

/// The file name under which a library is looked for on a platform when no
/// path is given.
pub fn default_name(kind: LibraryKind, platform: Platform) -> (r: &'static str)
    ensures
        r@ == default_name_text(kind, platform),
{
    match (kind, platform) {
        (LibraryKind::Encoder, Platform::LinuxX86_64) => "libnvidia-encode.so.1",
        (LibraryKind::Encoder, Platform::WindowsX86_64) => "nvEncodeAPI64.dll",
        (LibraryKind::Driver, Platform::LinuxX86_64) => "libcuda.so.1",
        (LibraryKind::Driver, Platform::WindowsX86_64) => "nvcuda.dll",
        (LibraryKind::Decoder, Platform::LinuxX86_64) => "libnvcuvid.so.1",
        (LibraryKind::Decoder, Platform::WindowsX86_64) => "nvcuvid.dll",
    }
}

/// What the answer of the OS loader to an open request becomes: the library,
/// shared, or a load failure that carries the loader's error.
pub open spec fn load_outcome(
    opened: Result<libloading::Library, libloading::Error>,
) -> Result<libloading::Library, LoadError> {
    match opened {
        Ok(library) => Ok(library),
        Err(cause) => Err(LoadError::Library(cause)),
    }
}

/// What the answer of the OS loader to a lookup of `name` becomes: the symbol
/// as it is, or a lookup failure that carries the name as text and the
/// loader's error.
pub open spec fn lookup_outcome<S>(
    name: Seq<u8>,
    found: Result<S, libloading::Error>,
    result: Result<S, LoadError>,
) -> bool {
    match found {
        Ok(symbol) => result == Ok::<S, LoadError>(symbol),
        Err(cause) => result matches Err(LoadError::Symbol { name: text, source }) && text@
            == lossy_text(name) && source == cause,
    }
}

/// A failed lookup reports the loader's error and the requested name; a
/// name that is valid UTF-8 is reported byte for byte.
pub proof fn lemma_lookup_failure_reports_name<S>(
    name: Seq<u8>,
    cause: libloading::Error,
    result: Result<S, LoadError>,
)
    requires
        vstd::utf8::valid_utf8(name),
        lookup_outcome(name, Err::<S, libloading::Error>(cause), result),
    ensures
        result matches Err(LoadError::Symbol { name: text, source }) && vstd::utf8::encode_utf8(
            text@,
        ) == name && source == cause,
{
    lemma_lossy_text_round_trip(name);
}

/// Turns the answer of the OS loader to an open request into a shared
/// library or a load failure.
pub fn finish_load(opened: Result<libloading::Library, libloading::Error>) -> (r: Result<
    Arc<libloading::Library>,
    LoadError,
>)
    ensures
        match load_outcome(opened) {
            Ok(library) => r matches Ok(shared) && *shared == library,
            Err(failure) => r == Err::<Arc<libloading::Library>, LoadError>(failure),
        },
{
    match opened {
        Ok(library) => Ok(Arc::new(library)),
        Err(cause) => Err(LoadError::Library(cause)),
    }
}

/// Turns the answer of the OS loader to a lookup of `name` into the symbol or
/// a lookup failure.
pub fn finish_lookup<S>(name: &[u8], found: Result<S, libloading::Error>) -> (r: Result<
    S,
    LoadError,
>)
    ensures
        lookup_outcome(name@, found, r),
{
    match found {
        Ok(symbol) => Ok(symbol),
        Err(cause) => Err(LoadError::symbol(name, cause)),
    }
}

/// Handle to the encoder library.
///
/// The library stays loaded as long as the handle, a clone of it, or a shared
/// reference taken from it with `library_arc` exists.
pub struct NvencLib {
    lib: Arc<libloading::Library>,
}

impl NvencLib {
    /// The loaded library that the handle keeps alive.
    pub closed spec fn image(&self) -> libloading::Library {
        *self.lib
    }

    /// The file name that `load` asks the OS loader for.
    pub fn default_name(platform: Platform) -> (r: &'static str)
        ensures
            r@ == default_name_text(LibraryKind::Encoder, platform),
    {
        default_name(LibraryKind::Encoder, platform)
    }

    /// A handle to a library that is already open.
    pub fn from_library(library: libloading::Library) -> (r: Self)
        ensures
            r.image() == library,
    {
        NvencLib { lib: Arc::new(library) }
    }

    /// Loads the encoder library under its default name for `platform`,
    /// which the OS searches for by its own rules. `open` makes the call to
    /// the OS loader; it is called once, with that name.
    pub fn load<F>(platform: Platform, open: F) -> (r: Result<Self, LoadError>) where
        F: FnOnce(&'static str) -> Result<libloading::Library, libloading::Error>,

        requires
            forall|name: &'static str|
                name@ == default_name_text(LibraryKind::Encoder, platform) ==> #[trigger]
                open.requires((name,)),
        ensures
            exists|name: &'static str, opened: Result<libloading::Library, libloading::Error>|
                name@ == default_name_text(LibraryKind::Encoder, platform) && #[trigger]
                open.ensures((name,), opened) && match load_outcome(opened) {
                    Ok(library) => r matches Ok(handle) && handle.image() == library,
                    Err(failure) => r == Err::<Self, LoadError>(failure),
                },
    {
        Self::load_from(Self::default_name(platform), open)
    }

    /// Loads the encoder library from the file that `path` names. `open`
    /// makes the call to the OS loader; it is called once, with `path`.
    pub fn load_from<P, F>(path: P, open: F) -> (r: Result<Self, LoadError>) where
        F: FnOnce(P) -> Result<libloading::Library, libloading::Error>,

        requires
            open.requires((path,)),
        ensures
            exists|opened: Result<libloading::Library, libloading::Error>| #[trigger]
                open.ensures((path,), opened) && match load_outcome(opened) {
                    Ok(library) => r matches Ok(handle) && handle.image() == library,
                    Err(failure) => r == Err::<Self, LoadError>(failure),
                },
    {
        match finish_load(open(path)) {
            Ok(lib) => Ok(NvencLib { lib }),
            Err(failure) => Err(failure),
        }
    }

    /// Looks up the export `name` of the loaded library. `find` makes the
    /// lookup; it is called once, with the handle's library and `name`, and
    /// is where the caller asserts the type `T` of the export. The symbol
    /// lives no longer than the borrow of the handle.
    pub fn get<'a, T, F>(&'a self, name: &[u8], find: F) -> (r: Result<
        libloading::Symbol<'a, T>,
        LoadError,
    >) where
        F: FnOnce(&'a libloading::Library, &[u8]) -> Result<
            libloading::Symbol<'a, T>,
            libloading::Error,
        >,

        requires
            find.requires((&self.image(), name)),
        ensures
            exists|found: Result<libloading::Symbol<'a, T>, libloading::Error>| #[trigger]
                find.ensures((&self.image(), name), found) && lookup_outcome(name@, found, r),
    {
        finish_lookup(name, find(&self.lib, name))
    }

    /// The loaded library, borrowed for as long as the handle is.
    pub fn library(&self) -> (r: &libloading::Library)
        ensures
            *r == self.image(),
    {
        &self.lib
    }

    /// Another owning reference to the loaded library. The library stays
    /// loaded while it exists, whatever becomes of the handle.
    pub fn library_arc(&self) -> (r: Arc<libloading::Library>)
        ensures
            *r == self.image(),
    {
        Arc::clone(&self.lib)
    }
}

impl Clone for NvencLib {
    /// Another handle to the same loaded library.
    fn clone(&self) -> (r: Self)
        ensures
            r.image() == self.image(),
    {
        NvencLib { lib: Arc::clone(&self.lib) }
    }
}

/// Handle to the driver library.
///
/// The library stays loaded as long as the handle, a clone of it, or a shared
/// reference taken from it with `library_arc` exists.
pub struct CudaLib {
    lib: Arc<libloading::Library>,
}

impl CudaLib {
    /// The loaded library that the handle keeps alive.
    pub closed spec fn image(&self) -> libloading::Library {
        *self.lib
    }

    /// The file name that `load` asks the OS loader for.
    pub fn default_name(platform: Platform) -> (r: &'static str)
        ensures
            r@ == default_name_text(LibraryKind::Driver, platform),
    {
        default_name(LibraryKind::Driver, platform)
    }

    /// A handle to a library that is already open.
    pub fn from_library(library: libloading::Library) -> (r: Self)
        ensures
            r.image() == library,
    {
        CudaLib { lib: Arc::new(library) }
    }

    /// Loads the driver library under its default name for `platform`,
    /// which the OS searches for by its own rules. `open` makes the call to
    /// the OS loader; it is called once, with that name.
    pub fn load<F>(platform: Platform, open: F) -> (r: Result<Self, LoadError>) where
        F: FnOnce(&'static str) -> Result<libloading::Library, libloading::Error>,

        requires
            forall|name: &'static str|
                name@ == default_name_text(LibraryKind::Driver, platform) ==> #[trigger]
                open.requires((name,)),
        ensures
            exists|name: &'static str, opened: Result<libloading::Library, libloading::Error>|
                name@ == default_name_text(LibraryKind::Driver, platform) && #[trigger]
                open.ensures((name,), opened) && match load_outcome(opened) {
                    Ok(library) => r matches Ok(handle) && handle.image() == library,
                    Err(failure) => r == Err::<Self, LoadError>(failure),
                },
    {
        Self::load_from(Self::default_name(platform), open)
    }

    /// Loads the driver library from the file that `path` names. `open`
    /// makes the call to the OS loader; it is called once, with `path`.
    pub fn load_from<P, F>(path: P, open: F) -> (r: Result<Self, LoadError>) where
        F: FnOnce(P) -> Result<libloading::Library, libloading::Error>,

        requires
            open.requires((path,)),
        ensures
            exists|opened: Result<libloading::Library, libloading::Error>| #[trigger]
                open.ensures((path,), opened) && match load_outcome(opened) {
                    Ok(library) => r matches Ok(handle) && handle.image() == library,
                    Err(failure) => r == Err::<Self, LoadError>(failure),
                },
    {
        match finish_load(open(path)) {
            Ok(lib) => Ok(CudaLib { lib }),
            Err(failure) => Err(failure),
        }
    }

    /// Looks up the export `name` of the loaded library. `find` makes the
    /// lookup; it is called once, with the handle's library and `name`, and
    /// is where the caller asserts the type `T` of the export. The symbol
    /// lives no longer than the borrow of the handle.
    pub fn get<'a, T, F>(&'a self, name: &[u8], find: F) -> (r: Result<
        libloading::Symbol<'a, T>,
        LoadError,
    >) where
        F: FnOnce(&'a libloading::Library, &[u8]) -> Result<
            libloading::Symbol<'a, T>,
            libloading::Error,
        >,

        requires
            find.requires((&self.image(), name)),
        ensures
            exists|found: Result<libloading::Symbol<'a, T>, libloading::Error>| #[trigger]
                find.ensures((&self.image(), name), found) && lookup_outcome(name@, found, r),
    {
        finish_lookup(name, find(&self.lib, name))
    }

    /// The loaded library, borrowed for as long as the handle is.
    pub fn library(&self) -> (r: &libloading::Library)
        ensures
            *r == self.image(),
    {
        &self.lib
    }

    /// Another owning reference to the loaded library. The library stays
    /// loaded while it exists, whatever becomes of the handle.
    pub fn library_arc(&self) -> (r: Arc<libloading::Library>)
        ensures
            *r == self.image(),
    {
        Arc::clone(&self.lib)
    }
}

impl Clone for CudaLib {
    /// Another handle to the same loaded library.
    fn clone(&self) -> (r: Self)
        ensures
            r.image() == self.image(),
    {
        CudaLib { lib: Arc::clone(&self.lib) }
    }
}

/// Handle to the decoder library.
///
/// The library stays loaded as long as the handle, a clone of it, or a shared
/// reference taken from it with `library_arc` exists.
pub struct CuvidLib {
    lib: Arc<libloading::Library>,
}

impl CuvidLib {
    /// The loaded library that the handle keeps alive.
    pub closed spec fn image(&self) -> libloading::Library {
        *self.lib
    }

    /// The file name that `load` asks the OS loader for.
    pub fn default_name(platform: Platform) -> (r: &'static str)
        ensures
            r@ == default_name_text(LibraryKind::Decoder, platform),
    {
        default_name(LibraryKind::Decoder, platform)
    }

    /// A handle to a library that is already open.
    pub fn from_library(library: libloading::Library) -> (r: Self)
        ensures
            r.image() == library,
    {
        CuvidLib { lib: Arc::new(library) }
    }

    /// Loads the decoder library under its default name for `platform`,
    /// which the OS searches for by its own rules. `open` makes the call to
    /// the OS loader; it is called once, with that name.
    pub fn load<F>(platform: Platform, open: F) -> (r: Result<Self, LoadError>) where
        F: FnOnce(&'static str) -> Result<libloading::Library, libloading::Error>,

        requires
            forall|name: &'static str|
                name@ == default_name_text(LibraryKind::Decoder, platform) ==> #[trigger]
                open.requires((name,)),
        ensures
            exists|name: &'static str, opened: Result<libloading::Library, libloading::Error>|
                name@ == default_name_text(LibraryKind::Decoder, platform) && #[trigger]
                open.ensures((name,), opened) && match load_outcome(opened) {
                    Ok(library) => r matches Ok(handle) && handle.image() == library,
                    Err(failure) => r == Err::<Self, LoadError>(failure),
                },
    {
        Self::load_from(Self::default_name(platform), open)
    }

    /// Loads the decoder library from the file that `path` names. `open`
    /// makes the call to the OS loader; it is called once, with `path`.
    pub fn load_from<P, F>(path: P, open: F) -> (r: Result<Self, LoadError>) where
        F: FnOnce(P) -> Result<libloading::Library, libloading::Error>,

        requires
            open.requires((path,)),
        ensures
            exists|opened: Result<libloading::Library, libloading::Error>| #[trigger]
                open.ensures((path,), opened) && match load_outcome(opened) {
                    Ok(library) => r matches Ok(handle) && handle.image() == library,
                    Err(failure) => r == Err::<Self, LoadError>(failure),
                },
    {
        match finish_load(open(path)) {
            Ok(lib) => Ok(CuvidLib { lib }),
            Err(failure) => Err(failure),
        }
    }

    /// Looks up the export `name` of the loaded library. `find` makes the
    /// lookup; it is called once, with the handle's library and `name`, and
    /// is where the caller asserts the type `T` of the export. The symbol
    /// lives no longer than the borrow of the handle.
    pub fn get<'a, T, F>(&'a self, name: &[u8], find: F) -> (r: Result<
        libloading::Symbol<'a, T>,
        LoadError,
    >) where
        F: FnOnce(&'a libloading::Library, &[u8]) -> Result<
            libloading::Symbol<'a, T>,
            libloading::Error,
        >,

        requires
            find.requires((&self.image(), name)),
        ensures
            exists|found: Result<libloading::Symbol<'a, T>, libloading::Error>| #[trigger]
                find.ensures((&self.image(), name), found) && lookup_outcome(name@, found, r),
    {
        finish_lookup(name, find(&self.lib, name))
    }

    /// The loaded library, borrowed for as long as the handle is.
    pub fn library(&self) -> (r: &libloading::Library)
        ensures
            *r == self.image(),
    {
        &self.lib
    }

    /// Another owning reference to the loaded library. The library stays
    /// loaded while it exists, whatever becomes of the handle.
    pub fn library_arc(&self) -> (r: Arc<libloading::Library>)
        ensures
            *r == self.image(),
    {
        Arc::clone(&self.lib)
    }
}

impl Clone for CuvidLib {
    /// Another handle to the same loaded library.
    fn clone(&self) -> (r: Self)
        ensures
            r.image() == self.image(),
    {
        CuvidLib { lib: Arc::clone(&self.lib) }
    }
}

} // verus!
