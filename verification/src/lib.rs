//! Package installation core: the rules by which a package archive is fetched,
//! checked, unpacked and recorded, and by which the package database is brought
//! back to a consistent state at boot.

pub mod archive;
pub mod cache;
pub mod context;
pub mod database;
pub mod error;
pub mod hash;
pub mod health_check;
pub mod id;
pub mod install;
pub mod model;
pub mod paths;
pub mod progress;
pub mod reconcile;
pub mod text;
