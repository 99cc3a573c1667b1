//! Version and platform information reported to the front end. The
//! caller reads the package metadata and the platform constants and
//! fills the record.

use vstd::prelude::*;

verus! {

/// The application version and system info shown to the user.
#[derive(Clone, Debug)]
pub struct AppVersionInfo {
    pub version: String,
    pub name: String,
    pub os: String,
    pub arch: String,
}

} // verus!
