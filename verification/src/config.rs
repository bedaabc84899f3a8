//! Startup configuration: what the process is given on its command line,
//! already resolved to plain values. Parsing and canonicalization happen
//! outside the library; the relay itself only ever reads the real root.

use vstd::prelude::*;

verus! {

/// The resolved startup arguments.
pub struct Args {
    /// Fingerprint of the key selecting the content-transform identity.
    pub gpg_key_fingerprint: String,
    /// Canonical path of the source directory holding the real tree.
    pub encrypted_directory: Vec<u8>,
    /// Canonical path of the directory where the virtual tree is shown.
    pub mount_point: Vec<u8>,
    /// Unmount automatically when the process exits.
    pub auto_unmount: bool,
    /// Let the root user access the virtual tree.
    pub allow_root: bool,
}

} // verus!
