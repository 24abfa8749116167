//! Data model of the device's listing response.

use vstd::prelude::*;

verus! {

/// One remote directory: its name and, in listing order, the names of the
/// files it holds.
pub struct Dir {
    pub name: String,
    pub files: Vec<String>,
}

/// One snapshot of the device's listing: an application-level status
/// (message and code) wrapped around the directories. The device signals
/// its own success or failure inside an HTTP 200 envelope, so this code is
/// distinct from the HTTP status.
pub struct Photos {
    pub error_message: String,
    pub error_code: u64,
    pub dirs: Vec<Dir>,
}

impl Photos {
    /// The application-level success sentinel: the listing is usable only
    /// when the embedded code is 200.
    pub open spec fn is_success(self) -> bool {
        self.error_code == 200
    }
}

/// How many files the directories `dirs[0], ..., dirs[d - 1]` hold in all:
/// the flat position of the first file of `dirs[d]` in a walk of the whole
/// listing.
pub open spec fn files_before(dirs: Seq<Dir>, d: int) -> nat
    decreases d,
{
    if d <= 0 {
        0
    } else {
        files_before(dirs, d - 1) + dirs[d - 1].files@.len()
    }
}

/// The number of files in the whole listing.
pub open spec fn total_files(dirs: Seq<Dir>) -> nat {
    files_before(dirs, dirs.len() as int)
}

} // verus!
