//! Host-side logic: finding libraries and backends, loading embedded modules.

pub mod backend;
pub mod backend_laws;
pub mod embedded;
pub mod linker;
pub mod loading_laws;
pub mod nvjitlink;
pub mod path;
