//! The run configuration, constructed once from the command line.

use vstd::prelude::*;

verus! {

/// One run of the tool: which host to talk to, where to mirror to, and
/// whether files already present locally are re-fetched.
pub struct Grsync {
    pub host: String,
    pub output_dir: String,
    pub force: bool,
}

impl Grsync {
    /// Builds the configuration from the three command-line inputs.
    pub fn from_cli(host: String, output_dir: String, force: bool) -> (r: Self)
        ensures
            r.host == host,
            r.output_dir == output_dir,
            r.force == force,
    {
        Self { host, output_dir, force }
    }
}

} // verus!
