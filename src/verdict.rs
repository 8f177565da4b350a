use vstd::prelude::*;

verus! {

/// The message a caller sees for a finished command: empty on success,
/// the command's diagnostic text otherwise.
pub open spec fn verdict_text(exit_code: i32, output: Seq<char>) -> Seq<char> {
    if exit_code == 0 {
        Seq::empty()
    } else {
        output
    }
}

/// Keeps `output` only when the command failed.
pub fn only_error_message(output: &str, exit_code: i32) -> (r: String)
    ensures
        r@ == verdict_text(exit_code, output@),
{
    if exit_code == 0 {
        String::new()
    } else {
        output.to_owned()
    }
}

} // verus!
