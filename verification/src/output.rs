//! What the process says about a finished upload.

use vstd::prelude::*;
use vstd::string::StringExecFns;

verus! {

/// Exit code of a run that uploaded its image.
pub const EXIT_SUCCESS: i32 = 0;

/// Exit code of a run whose upload failed.
pub const EXIT_FAILURE: i32 = 1;

/// The line written to standard output for an uploaded image.
pub open spec fn output_line(url: Seq<char>) -> Seq<char> {
    "{\"imageUrl\": \""@ + url + "\"}"@
}

/// The title of the desktop notification.
pub open spec fn notification_summary() -> Seq<char> {
    "rs-uploader"@
}

/// The text of the desktop notification for an uploaded image.
pub open spec fn notification_body(url: Seq<char>) -> Seq<char> {
    "Uploaded, copied to clipboard: "@ + url
}

/// The line written to standard output for an uploaded image.
pub fn format_output_line(url: &str) -> (line: String)
    ensures
        line@ == output_line(url@),
{
    let mut line = String::from_str("{\"imageUrl\": \"");
    line.append(url);
    line.append("\"}");
    line
}

/// The title of the desktop notification.
pub fn format_notification_summary() -> (summary: String)
    ensures
        summary@ == notification_summary(),
{
    String::from_str("rs-uploader")
}

/// The text of the desktop notification for an uploaded image.
pub fn format_notification_body(url: &str) -> (body: String)
    ensures
        body@ == notification_body(url@),
{
    String::from_str("Uploaded, copied to clipboard: ").concat(url)
}

} // verus!
