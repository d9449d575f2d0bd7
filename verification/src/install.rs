//! The installation of a package, from the probe of the archive cache to the
//! commit of the database entry.

pub mod machine;
pub mod pipeline;
pub mod laws;
pub mod log;
