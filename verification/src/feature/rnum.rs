use vstd::prelude::*;

use crate::feature::text::digit_char;
use crate::feature::text::digit_str;

verus! {

/// A ring closure number in 0..=99. A single digit prints as itself, a
/// two-digit number prints in the percent form `%dd`.
#[derive(Debug, PartialEq, Eq, Clone, Copy, Structural)]
pub struct Rnum(pub u8);

impl Rnum {
    /// Constructs a ring closure number.
    pub fn new(n: u8) -> (r: Rnum)
        requires
            n <= 99,
        ensures
            r == Rnum(n),
    {
        Rnum(n)
    }

    /// The text of this ring closure number in a SMILES string.
    pub open spec fn spec_text(self) -> Seq<char> {
        if self.0 < 10 {
            seq![digit_char(self.0 as int)]
        } else {
            seq!['%', digit_char(self.0 as int / 10), digit_char(self.0 as int % 10)]
        }
    }

    /// Renders this ring closure number as it appears in a SMILES string.
    pub fn to_string(&self) -> (r: String)
        requires
            self.0 <= 99,
        ensures
            r@ == self.spec_text(),
    {
        let mut out = String::new();
        if self.0 < 10 {
            out.append(digit_str(self.0));
        } else {
            proof {
                reveal_strlit("%");
            }
            out.append("%");
            out.append(digit_str(self.0 / 10));
            out.append(digit_str(self.0 % 10));
        }
        proof {
            assert(out@ =~= self.spec_text());
        }
        out
    }
}

} // verus!
