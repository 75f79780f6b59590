//! The platform families that a configuration can address.

use vstd::prelude::*;

verus! {

/// The operating-system family that values are resolved for.
#[derive(Clone, Copy, Debug, PartialEq, Eq, Structural)]
pub enum Platform {
    Windows,
    Linux,
    Macos,
    Unix,
    /// Any identity that the configuration schema has no branch for.
    Other,
}

/// `str::eq` of `std`: two string slices are equal exactly when they hold
/// the same characters in the same order.
#[verifier::external_body]
fn same_text(a: &str, b: &str) -> (same: bool)
    ensures
        same == (a@ == b@),
{
    a == b
}

impl Platform {
    /// The platform that an operating-system name stands for.
    pub open spec fn of_name(name: Seq<char>) -> Platform {
        if name == "windows"@ {
            Platform::Windows
        } else if name == "linux"@ {
            Platform::Linux
        } else if name == "macos"@ {
            Platform::Macos
        } else if name == "unix"@ {
            Platform::Unix
        } else {
            Platform::Other
        }
    }

    /// Reads a platform from the name by which the host reports its
    /// operating system. Names are matched exactly; an unknown name is
    /// `Other`.
    pub fn from_name(name: &str) -> (platform: Platform)
        ensures
            platform == Platform::of_name(name@),
    {
        if same_text(name, "windows") {
            Platform::Windows
        } else if same_text(name, "linux") {
            Platform::Linux
        } else if same_text(name, "macos") {
            Platform::Macos
        } else if same_text(name, "unix") {
            Platform::Unix
        } else {
            Platform::Other
        }
    }
}

} // verus!
