//! Verified core of a statement-filing pipeline: per-issuer discovery of
//! encrypted statement files, issuer-specific date extraction, deterministic
//! archive-path construction, and the ordered copy/delete policy that keeps
//! the inbox and the archive consistent when individual steps fail.

use vstd::prelude::*;

pub mod archive;
pub mod dates;
pub mod extract;
pub mod issuers;
pub mod lines;
pub mod pipeline;
pub mod text;

verus! {

/// Locations the pipeline works with: where statements arrive, where the
/// decrypted temporary copy lives, and where the archive tree is rooted.
pub struct Config {
    pub storage_mount_path_local: String,
    pub storage_mount_path_remote: String,
    pub temp_dir: String,
    pub inbox_dir: String,
}

} // verus!
