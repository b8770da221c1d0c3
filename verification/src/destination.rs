//! Where a receipt goes, and what is said once it is there.

use vstd::prelude::*;
use vstd::string::*;

verus! {

/// The path a receipt is written to where none is asked for.
pub const DEFAULT_PATH: &'static str = "receipt.json";

/// Whether a directory has to be made before the receipt is written: only where
/// the destination has a parent, and that parent is not the empty path, which
/// stands for the directory one is in.
pub open spec fn directory_needed(parent: Option<Seq<char>>) -> bool {
    parent matches Some(dir) && dir.len() > 0
}

/// Decides whether the destination's parent directory, and with it every
/// ancestor that is missing, is to be made before the receipt is written.
/// `parent` is the directory part of the destination, `None` where it has none.
pub fn needs_directory(parent: Option<&str>) -> (needed: bool)
    ensures
        needed == directory_needed(
            match parent {
                Some(dir) => Some(dir@),
                None => None,
            },
        ),
{
    match parent {
        Some(dir) => !dir.is_empty(),
        None => false,
    }
}

/// The text of `written_message`.
pub open spec fn written_text(path: Seq<char>) -> Seq<char> {
    "Receipt written to: "@ + path
}

/// The line for standard output once the receipt is stored at `path`.
pub fn written_message(path: &str) -> (line: String)
    ensures
        line@ == written_text(path@),
{
    String::from_str("Receipt written to: ").concat(path)
}

} // verus!
