//! Resolution of well-known system directories through their fixed
//! platform identifiers.
//!
//! A well-known directory (a user's profile, downloads, or roaming
//! settings folder) is named to the operating system by a fixed 128-bit
//! identifier. This crate holds the catalog that maps each symbolic
//! directory name to its identifier, and the resolution protocol that
//! turns one native lookup into a path or a well-defined absence:
//! branching on the lookup status, guarding the reported length against
//! negative and oversized values before any read, and handing the
//! platform-owned buffer back exactly once on every path.

pub mod guid;
pub mod known_folder;
pub mod path;
pub mod resolver;

pub use guid::Guid;
pub use known_folder::KnownFolder;
pub use path::ResolvedPath;
pub use resolver::Resolution;
pub use resolver::SimulatedPlatform;
pub use resolver::get_known_folder_path;
pub use resolver::resolve;
