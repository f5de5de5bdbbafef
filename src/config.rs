//! The build configuration and install layout that a metadata document is made from.

use vstd::prelude::*;

verus! {

/// How the library's header is generated and installed.
#[derive(Debug, Clone)]
pub struct HeaderCApiConfig {
    pub name: String,
    /// Whether the header is installed in a subdirectory named after the package.
    pub subdirectory: bool,
    pub generation: bool,
}

/// The package identity written into the metadata file.
#[derive(Debug, Clone)]
pub struct PkgConfigCApiConfig {
    pub name: String,
    pub description: String,
    pub version: String,
}

/// The library file that is linked against.
#[derive(Debug, Clone)]
pub struct LibraryCApiConfig {
    /// The name passed to the linker as `-l<name>`.
    pub name: String,
    pub version: String,
}

/// Description of a library's C-compatible interface.
#[derive(Debug, Clone)]
pub struct CApiConfig {
    pub header: HeaderCApiConfig,
    pub pkg_config: PkgConfigCApiConfig,
    pub library: LibraryCApiConfig,
}

/// The directories an install places files in, as displayed paths.
#[derive(Debug, Clone)]
pub struct InstallPaths {
    pub prefix: String,
    pub includedir: String,
    pub libdir: String,
}

} // verus!
