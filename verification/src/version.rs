//! The version of the application.

use vstd::prelude::*;
use vstd::string::*;

verus! {

/// The version that the application reports.
pub fn get_app_version() -> (v: String)
    ensures
        v@ == "0.2.0"@,
{
    String::from_str("0.2.0")
}

} // verus!
