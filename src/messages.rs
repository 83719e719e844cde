//! The diagnostics that the terminal reports when it cannot go on.

use vstd::prelude::*;

verus! {

/// The report of a failed open: it names the device and the underlying error.
pub open spec fn open_failure_text(port: Seq<char>, detail: Seq<char>) -> Seq<char> {
    "Failed to open \""@ + port + "\". Error: "@ + detail
}

/// The underlying error when the waiting window ends without success.
pub open spec fn timeout_text() -> Seq<char> {
    "Failed to open device after 10 seconds"@
}

/// Builds the report of a failed open of `port`, whose cause is `detail`.
pub fn open_failure_message(port: &str, detail: &str) -> (r: String)
    ensures
        r@ == open_failure_text(port@, detail@),
{
    let mut r = String::from_str("Failed to open \"");
    r.append(port);
    r.append("\". Error: ");
    r.append(detail);
    r
}

/// The underlying error when the waiting window ends without success.
pub fn timeout_detail() -> (r: String)
    ensures
        r@ == timeout_text(),
{
    String::from_str("Failed to open device after 10 seconds")
}

/// The report of a failed open holds the device path verbatim, right after
/// the opening quote.
pub proof fn lemma_report_names_device(port: Seq<char>, detail: Seq<char>)
    ensures
        open_failure_text(port, detail).subrange(16, 16 + port.len() as int) == port,
{
    reveal_strlit("Failed to open \"");
    let t = open_failure_text(port, detail);
    assert("Failed to open \""@.len() == 16);
    assert(t.subrange(16, 16 + port.len() as int) =~= port);
}

} // verus!
