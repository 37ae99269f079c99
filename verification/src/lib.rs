//! The core of a read-only passthrough filesystem: one host directory is shown
//! through a mount, and every request against the mount is answered from the
//! host's own metadata and contents.
//!
//! The library decides; the program around it talks to the host. Each request
//! has a function that says which host object to consult (`*_path`) and a
//! function that turns the host's answer into the reply.

pub mod attr;
pub mod content;
pub mod fs;
pub mod listing;
pub mod registry;

pub use attr::{file_attr, ttl, FileAttr, FileKind, HostMetadata, Timestamp};
pub use content::read_window;
pub use fs::{FsError, PassthruFS, Target, ROOT_INO};
pub use listing::{DirEntry, HostEntry};
pub use registry::HandleRegistry;
