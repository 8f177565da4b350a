//! The stored form of an execution: an exit code and the diagnostic text,
//! written as JSON by serde_json.

use vstd::prelude::*;
use crate::verdict::{only_error_message, verdict_text};

verus! {

/// The JSON text that serde_json writes for the pair `(exit_code, stderr)`.
pub uninterp spec fn entry_json(exit_code: i32, stderr: Seq<char>) -> Seq<char>;

/// The pair that serde_json reads back from `text`, if `text` holds one.
pub uninterp spec fn entry_read(text: Seq<char>) -> Option<(i32, Seq<char>)>;

/// Message returned for a stored entry that does not read back as a pair.
pub open spec fn unreadable_entry_message() -> Seq<char> {
    "Failed to parse result"@
}

/// The verdict `(success, message)` of a command that exited with
/// `exit_code` after writing `stderr`.
pub open spec fn exit_verdict(exit_code: i32, stderr: Seq<char>) -> (bool, Seq<char>) {
    (exit_code == 0, verdict_text(exit_code, stderr))
}

/// The verdict for what a decoding of a stored entry gave.
pub open spec fn decoded_verdict(decoded: Option<(i32, Seq<char>)>) -> (bool, Seq<char>) {
    match decoded {
        Some((code, stderr)) => exit_verdict(code, stderr),
        None => (false, unreadable_entry_message()),
    }
}

/// The verdict that a stored entry stands for.
pub open spec fn entry_verdict(text: Seq<char>) -> (bool, Seq<char>) {
    decoded_verdict(entry_read(text))
}

/// A verdict of success carries no message, whatever the process wrote to
/// its standard error; this holds of stored entries as well.
pub proof fn lemma_success_is_silent(exit_code: i32, stderr: Seq<char>, text: Seq<char>)
    ensures
        exit_code == 0 ==> exit_verdict(exit_code, stderr) == (true, Seq::<char>::empty()),
        entry_verdict(text).0 ==> entry_verdict(text).1.len() == 0,
{
}

/// A verdict of failure carries the process's standard error verbatim.
pub proof fn lemma_failure_keeps_stderr(exit_code: i32, stderr: Seq<char>)
    requires
        exit_code != 0,
    ensures
        exit_verdict(exit_code, stderr) == (false, stderr),
{
}

/// Relies on serde_json::to_string on an `(i32, &str)` pair: it writes a
/// two-element JSON array, which serde_json::from_str reads back as the same
/// pair (the integer is written in full, the string escaped reversibly). It
/// cannot fail for this type: the pair serialises as a sequence of a number
/// and a string, and writing into a `Vec` has no I/O error.
#[verifier::external_body]
fn write_entry_json(exit_code: i32, stderr: &str) -> (r: Option<String>)
    ensures
        r is Some,
        r matches Some(t) ==> t@ == entry_json(exit_code, stderr@),
        r matches Some(t) ==> entry_read(t@) == Some((exit_code, stderr@)),
{
    serde_json::to_string(&(exit_code, stderr)).ok()
}

/// Relies on serde_json::from_str for an `(i32, String)` pair: it yields the
/// pair held in `text`, or an error where `text` holds none.
#[verifier::external_body]
fn read_entry_json(text: &str) -> (r: Option<(i32, String)>)
    ensures
        r is Some <==> entry_read(text@) is Some,
        r matches Some(p) ==> entry_read(text@) == Some((p.0, p.1@)),
{
    serde_json::from_str::<(i32, String)>(text).ok()
}

/// Serialises an exit code and its diagnostic text for storage.
pub fn encode_entry(exit_code: i32, stderr: &str) -> (r: String)
    ensures
        r@ == entry_json(exit_code, stderr@),
        entry_read(r@) == Some((exit_code, stderr@)),
{
    let written = write_entry_json(exit_code, stderr);
    written.unwrap()
}

/// The verdict for the result of decoding a stored entry: a pair gives the
/// verdict of that exit, anything else the unreadable-entry message.
pub fn verdict_of_decoded(decoded: Option<(i32, String)>) -> (r: (bool, String))
    ensures
        (r.0, r.1@) == decoded_verdict(
            match decoded {
                Some(p) => Some((p.0, p.1@)),
                None => None,
            },
        ),
{
    match decoded {
        Some((code, stderr)) => (code == 0, only_error_message(stderr.as_str(), code)),
        None => (false, "Failed to parse result".to_owned()),
    }
}

/// Decodes a stored entry into the verdict it stands for.
pub fn decode_entry(text: &str) -> (r: (bool, String))
    ensures
        (r.0, r.1@) == entry_verdict(text@),
{
    let decoded = read_entry_json(text);
    verdict_of_decoded(decoded)
}

} // verus!
