//! Verified core of a versioned, dynamically loaded binding layer for the
//! NVIDIA video libraries: the encoder API, the CUDA driver API and the
//! decoder API.
//!
//! The crate decides everything that can be decided without touching the
//! operating system: which SDK version a build selected, which file a library
//! is looked for under, what a failed load or lookup is reported as, and which
//! library a handle keeps alive. The calls into the OS loader are handed in by
//! the embedding code as closures, so every function here is verified for
//! whatever the loader answers.

pub mod error;
pub mod gate;
pub mod loader;
pub mod platform;
pub mod text;
pub mod version;

pub use error::LoadError;
pub use gate::{gate, GateError};
pub use loader::{CudaLib, CuvidLib, LibraryKind, NvencLib};
pub use platform::Platform;
pub use version::SdkVersion;
