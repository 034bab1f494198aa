//! Location of the process-wide log file, computed from a home
//! directory handed in once at startup rather than read from ambient
//! global state.

use vstd::prelude::*;

verus! {

/// Path of the log file under the given home directory.
pub fn get_log_file_path(home: &str) -> (r: String)
    ensures
        r@ == home@ + "/.ssedge/app.log"@,
{
    let mut out = home.to_owned();
    out.append("/.ssedge/app.log");
    out
}

} // verus!
