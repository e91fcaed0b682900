use vstd::prelude::*;

use crate::feature::text::digit_char;
use crate::feature::text::digit_str;

verus! {

/// The virtual hydrogen count written on a bracket atom, in 0..=9.
#[derive(Debug, PartialEq, Eq, Clone, Copy, Structural)]
pub enum VirtualHydrogen {
    H0,
    H1,
    H2,
    H3,
    H4,
    H5,
    H6,
    H7,
    H8,
    H9,
}

impl VirtualHydrogen {
    /// The hydrogen count this variant stands for.
    pub open spec fn spec_count(self) -> u8 {
        match self {
            VirtualHydrogen::H0 => 0,
            VirtualHydrogen::H1 => 1,
            VirtualHydrogen::H2 => 2,
            VirtualHydrogen::H3 => 3,
            VirtualHydrogen::H4 => 4,
            VirtualHydrogen::H5 => 5,
            VirtualHydrogen::H6 => 6,
            VirtualHydrogen::H7 => 7,
            VirtualHydrogen::H8 => 8,
            VirtualHydrogen::H9 => 9,
        }
    }

    /// Returns the hydrogen count this variant stands for.
    pub fn count(&self) -> (r: u8)
        ensures
            r == self.spec_count(),
    {
        match self {
            VirtualHydrogen::H0 => 0,
            VirtualHydrogen::H1 => 1,
            VirtualHydrogen::H2 => 2,
            VirtualHydrogen::H3 => 3,
            VirtualHydrogen::H4 => 4,
            VirtualHydrogen::H5 => 5,
            VirtualHydrogen::H6 => 6,
            VirtualHydrogen::H7 => 7,
            VirtualHydrogen::H8 => 8,
            VirtualHydrogen::H9 => 9,
        }
    }

    /// The variant for a count in 0..=9.
    pub fn from_digit(d: u8) -> (r: VirtualHydrogen)
        requires
            d <= 9,
        ensures
            r.spec_count() == d,
    {
        match d {
            0 => VirtualHydrogen::H0,
            1 => VirtualHydrogen::H1,
            2 => VirtualHydrogen::H2,
            3 => VirtualHydrogen::H3,
            4 => VirtualHydrogen::H4,
            5 => VirtualHydrogen::H5,
            6 => VirtualHydrogen::H6,
            7 => VirtualHydrogen::H7,
            8 => VirtualHydrogen::H8,
            _ => VirtualHydrogen::H9,
        }
    }

    /// Returns true if the count is zero, or false otherwise.
    pub fn is_zero(&self) -> (r: bool)
        ensures
            r == (self.spec_count() == 0),
    {
        match self {
            VirtualHydrogen::H0 => true,
            _ => false,
        }
    }

    /// The text of this count inside a bracket atom: nothing for 0, a bare
    /// `H` for 1, `H` and a digit otherwise.
    pub open spec fn spec_text(self) -> Seq<char> {
        if self.spec_count() == 0 {
            Seq::empty()
        } else if self.spec_count() == 1 {
            seq!['H']
        } else {
            seq!['H', digit_char(self.spec_count() as int)]
        }
    }

    /// Renders this count as it appears in a bracket atom.
    pub fn to_string(&self) -> (r: String)
        ensures
            r@ == self.spec_text(),
    {
        let mut out = String::new();
        let count = self.count();
        if count == 0 {
            proof {
                assert(out@ =~= self.spec_text());
            }
            return out;
        }
        proof {
            reveal_strlit("H");
        }
        out.append("H");
        if count >= 2 {
            out.append(digit_str(count));
        }
        proof {
            assert(out@ =~= self.spec_text());
        }
        out
    }
}

} // verus!
