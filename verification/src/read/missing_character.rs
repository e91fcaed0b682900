use vstd::prelude::*;

use crate::read::error::ReadError;
use crate::read::scanner::Scanner;
use crate::read::scanner::spec_peek;

verus! {

/// The error reported where a required token is missing: `EndOfLine` when
/// the input is exhausted, otherwise the scanner's offset.
pub open spec fn spec_missing_character(s: Seq<char>, pos: int) -> ReadError {
    if spec_peek(s, pos) is None {
        ReadError::EndOfLine
    } else {
        ReadError::Character(pos as usize)
    }
}

/// Returns the error for a missing required token at the scanner's offset.
pub fn missing_character(scanner: &Scanner) -> (r: ReadError)
    requires
        scanner.wf(),
    ensures
        r == spec_missing_character(scanner.text(), scanner.at()),
{
    if scanner.is_done() {
        ReadError::EndOfLine
    } else {
        ReadError::Character(scanner.cursor())
    }
}

} // verus!
