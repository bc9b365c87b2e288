//! Resolution and download planning for mod packs hosted on the Modrinth
//! registry: release selection, dependency walking, rate-limit handling,
//! artifact placement and the split of work between concurrent workers.

pub mod text;
pub mod files;
pub mod model;
pub mod modrinth;
pub mod select;
pub mod ratelimit;
pub mod artifact;
pub mod resolve;
pub mod dispatch;
pub mod install;

pub use model::{External, ModPackDescriptor, Target};
