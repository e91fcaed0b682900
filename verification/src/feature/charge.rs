use vstd::prelude::*;

use crate::feature::text::digit_char;
use crate::feature::text::digit_str;

verus! {

/// A formal atomic charge between -15 and +15, inclusive.
#[derive(Debug, Clone, Copy, PartialEq, Eq, Structural)]
pub struct Charge {
    pub value: i8,
}

impl Charge {
    /// True when the value lies in the representable range.
    pub open spec fn spec_in_range(value: i8) -> bool {
        -15 <= value <= 15
    }

    /// Tries to construct a `Charge`, returning `None` if out of range.
    pub fn new(value: i8) -> (r: Option<Charge>)
        ensures
            r == if Charge::spec_in_range(value) {
                Some(Charge { value })
            } else {
                None::<Charge>
            },
    {
        if -15 <= value && value <= 15 {
            Some(Charge { value })
        } else {
            None
        }
    }

    /// Gets the underlying `i8` back.
    pub fn value(self) -> (r: i8)
        ensures
            r == self.value,
    {
        self.value
    }

    /// The text of this charge inside a bracket atom: a bare sign for +1 and
    /// -1, a signed decimal number otherwise.
    pub open spec fn spec_text(self) -> Seq<char> {
        if self.value == 0 {
            seq!['0']
        } else if self.value > 0 {
            seq!['+'] + Charge::spec_magnitude_text(self.value as int)
        } else {
            seq!['-'] + Charge::spec_magnitude_text(-self.value as int)
        }
    }

    /// Digits of a charge magnitude: 1 prints as nothing, 2..=15 in decimal.
    pub open spec fn spec_magnitude_text(m: int) -> Seq<char> {
        if m == 1 {
            Seq::empty()
        } else if m < 10 {
            seq![digit_char(m)]
        } else {
            seq!['1', digit_char(m - 10)]
        }
    }

    /// Renders this charge as it appears in a bracket atom.
    pub fn to_string(&self) -> (r: String)
        requires
            Charge::spec_in_range(self.value),
        ensures
            r@ == self.spec_text(),
    {
        let mut out = String::new();
        if self.value == 0 {
            out.append(digit_str(0));
            proof {
                assert(out@ =~= self.spec_text());
            }
            return out;
        }
        let magnitude: i8 = if self.value > 0 {
            proof {
                reveal_strlit("+");
            }
            out.append("+");
            self.value
        } else {
            proof {
                reveal_strlit("-");
            }
            out.append("-");
            -self.value
        };
        if magnitude >= 10 {
            out.append(digit_str(1));
            out.append(digit_str((magnitude - 10) as u8));
        } else if magnitude >= 2 {
            out.append(digit_str(magnitude as u8));
        }
        proof {
            assert(out@ =~= self.spec_text());
        }
        out
    }
}

} // verus!
