use vstd::prelude::*;

verus! {

/// The value of a decimal digit character, or -1 for any other character.
pub open spec fn spec_digit(c: char) -> int {
    match c {
        '0' => 0,
        '1' => 1,
        '2' => 2,
        '3' => 3,
        '4' => 4,
        '5' => 5,
        '6' => 6,
        '7' => 7,
        '8' => 8,
        '9' => 9,
        _ => -1,
    }
}

/// True for the ASCII lower case letters.
pub open spec fn is_lower(c: char) -> bool {
    97 <= c as u32 <= 122
}

/// True for the ASCII upper case letters.
pub open spec fn is_upper(c: char) -> bool {
    65 <= c as u32 <= 90
}

/// Returns true for an ASCII lower case letter.
pub fn lower(c: char) -> (r: bool)
    ensures
        r == is_lower(c),
{
    let u = c as u32;
    97 <= u && u <= 122
}

/// Returns true for an ASCII upper case letter.
pub fn upper(c: char) -> (r: bool)
    ensures
        r == is_upper(c),
{
    let u = c as u32;
    65 <= u && u <= 90
}

/// Returns the value of a decimal digit character, or `None` for any other
/// character.
pub fn digit_of(c: char) -> (r: Option<u8>)
    ensures
        r == (if spec_digit(c) >= 0 {
            Some(spec_digit(c) as u8)
        } else {
            None::<u8>
        }),
{
    match c {
        '0' => Some(0),
        '1' => Some(1),
        '2' => Some(2),
        '3' => Some(3),
        '4' => Some(4),
        '5' => Some(5),
        '6' => Some(6),
        '7' => Some(7),
        '8' => Some(8),
        '9' => Some(9),
        _ => None,
    }
}

} // verus!
