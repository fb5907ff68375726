//! Bootstrap of a native extension module.
//!
//! When the host runtime loads the extension, the bootstrap publishes one
//! binding into the module's namespace: the package version that the build
//! declares, under the name `__version__`. Nothing else is published.
//!
//! [`namespace`] holds a namespace as a finite map from names to text,
//! [`host`] is the boundary to the Python runtime, [`handle`] ties a module
//! of the host to the record of what was published into it, and
//! [`bootstrap`] is the initialization routine together with the laws that
//! hold of a load.

pub mod bootstrap;
pub mod error;
pub mod handle;
pub mod host;
pub mod namespace;
