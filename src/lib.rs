//! Generation of pkg-config metadata files (`.pc`) for a C-compatible library.

mod cli;
mod config;
mod layout;
mod pkg_config_gen;
mod text;

pub use config::{CApiConfig, HeaderCApiConfig, InstallPaths, LibraryCApiConfig, PkgConfigCApiConfig};
pub use layout::{
    lemma_default_flag_lines, lemma_fields_once_in_order, lemma_join_single_line,
    lemma_optional_lines, lemma_render_deterministic, single_line, single_line_all,
};
pub use pkg_config_gen::{default_cflags, default_libs, PkgConfig, PkgConfigView};
pub use text::{join, join_strings, lemma_terminated_push, only_line_starting, starts_with, terminated, texts};
