//! Resolution of the files a Typst compilation asks for: resolver chains,
//! caching, registry packages, embedded packages and the bundling pre-pass.

pub mod archive;
pub mod cached_file_resolver;
pub mod conversions;
pub mod dependency_walk;
pub mod embedded_package_resolver;
pub mod error;
pub mod file_resolver;
pub mod file_system_resolver;
pub mod font_searcher_options;
pub mod ident;
pub mod imports;
pub mod manifest;
pub mod package_resolver;
pub mod paths;
pub mod specifier;
pub mod table;
pub mod text;
pub mod typst_kit_options;
pub mod util;
