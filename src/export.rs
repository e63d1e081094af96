use vstd::prelude::*;

verus! {

/// A request to write exported data to a file.
#[derive(Clone, Debug, PartialEq, Eq)]
pub struct ExportOptions {
    pub path: String,
    pub format: String,
    pub data: String,
}

/// The message a failed export returns.
pub fn export_failure_message(reason: &str) -> (r: String)
    ensures
        r@ == "Failed to export data: "@ + reason@,
{
    String::from_str("Failed to export data: ").concat(reason)
}

} // verus!
