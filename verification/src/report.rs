//! The progress messages of a compression: what is read and what is written,
//! with dimensions and file size.  Printing them is the caller's part.

use vstd::prelude::*;
use vstd::string::*;
use crate::decimal::{digits, natural};

verus! {

/// A number of bytes as the `byte_unit` crate writes it in the decimal unit
/// that suits it, such as `512 B` or `1.23 MB`.
pub uninterp spec fn size_label(bytes: nat) -> Seq<char>;

/// `byte_unit::Byte::get_appropriate_unit` with decimal multiples, on the
/// `Byte` made of the number, written out through `Display`.
#[verifier::external_body]
fn size_text(bytes: usize) -> (text: String)
    ensures
        text@ == size_label(bytes as nat),
{
    byte_unit::Byte::from(bytes).get_appropriate_unit(false).to_string()
}

/// A message: a heading, then the path, the dimensions and the file size,
/// each on a line of its own.
pub open spec fn message(
    heading: Seq<char>,
    path: Seq<char>,
    width: nat,
    height: nat,
    bytes: nat,
) -> Seq<char> {
    heading + "\nPath: "@ + path + "\nSize: "@ + digits(width) + "x"@ + digits(height)
        + "\nFileSize: "@ + size_label(bytes)
}

/// The message before a compression.
pub open spec fn start_message(path: Seq<char>, width: nat, height: nat, bytes: nat) -> Seq<char> {
    message("===Start compression==="@, path, width, height, bytes)
}

/// The message after a compression; it begins with an empty line.
pub open spec fn finish_message(path: Seq<char>, width: nat, height: nat, bytes: nat) -> Seq<
    char,
> {
    message("\n===Finish compression==="@, path, width, height, bytes)
}

fn compose(heading: &str, path: &str, width: u64, height: u64, bytes: usize) -> (text: String)
    ensures
        text@ == message(heading@, path@, width as nat, height as nat, bytes as nat),
{
    let width_text = natural(width);
    let height_text = natural(height);
    let size = size_text(bytes);
    let text = String::from_str(heading);
    let text = text.concat("\nPath: ");
    let text = text.concat(path);
    let text = text.concat("\nSize: ");
    let text = text.concat(width_text.as_str());
    let text = text.concat("x");
    let text = text.concat(height_text.as_str());
    let text = text.concat("\nFileSize: ");
    text.concat(size.as_str())
}

/// Writes the message before a compression: the input, its dimensions and
/// its size.
pub fn start_report(path: &str, width: u64, height: u64, bytes: usize) -> (text: String)
    ensures
        text@ == start_message(path@, width as nat, height as nat, bytes as nat),
{
    compose("===Start compression===", path, width, height, bytes)
}

/// Writes the message after a compression: the output, its dimensions and
/// its size.
pub fn finish_report(path: &str, width: u64, height: u64, bytes: usize) -> (text: String)
    ensures
        text@ == finish_message(path@, width as nat, height as nat, bytes as nat),
{
    compose("\n===Finish compression===", path, width, height, bytes)
}

} // verus!
