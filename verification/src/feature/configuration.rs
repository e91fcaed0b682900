use vstd::prelude::*;

verus! {

/// A stereochemical configuration template written after an atom symbol
/// in a bracket atom. Most molecules use only `TH1` (counterclockwise,
/// written `@`) and `TH2` (clockwise, written `@@`). Each class also has
/// an `Unspecified` member, written as the bare class letters.
#[derive(Debug, PartialEq, Eq, Clone, Copy, Structural)]
pub enum Configuration {
    AL1,
    AL2,
    OH1,
    OH2,
    OH3,
    OH4,
    OH5,
    OH6,
    OH7,
    OH8,
    OH9,
    OH10,
    OH11,
    OH12,
    OH13,
    OH14,
    OH15,
    OH16,
    OH17,
    OH18,
    OH19,
    OH20,
    OH21,
    OH22,
    OH23,
    OH24,
    OH25,
    OH26,
    OH27,
    OH28,
    OH29,
    OH30,
    SP1,
    SP2,
    SP3,
    TB1,
    TB2,
    TB3,
    TB4,
    TB5,
    TB6,
    TB7,
    TB8,
    TB9,
    TB10,
    TB11,
    TB12,
    TB13,
    TB14,
    TB15,
    TB16,
    TB17,
    TB18,
    TB19,
    TB20,
    TH1,
    TH2,
    UnspecifiedTH,
    UnspecifiedAL,
    UnspecifiedTB,
    UnspecifiedOH,
    UnspecifiedSP,
}

impl Configuration {
    /// The text of this configuration in a SMILES string.
    pub open spec fn spec_text(self) -> Seq<char> {
        match self {
            Configuration::AL1 => seq!['@'],
            Configuration::AL2 => seq!['@', '@'],
            Configuration::OH1 => seq!['@', 'O', 'H', '1'],
            Configuration::OH2 => seq!['@', 'O', 'H', '2'],
            Configuration::OH3 => seq!['@', 'O', 'H', '3'],
            Configuration::OH4 => seq!['@', 'O', 'H', '4'],
            Configuration::OH5 => seq!['@', 'O', 'H', '5'],
            Configuration::OH6 => seq!['@', 'O', 'H', '6'],
            Configuration::OH7 => seq!['@', 'O', 'H', '7'],
            Configuration::OH8 => seq!['@', 'O', 'H', '8'],
            Configuration::OH9 => seq!['@', 'O', 'H', '9'],
            Configuration::OH10 => seq!['@', 'O', 'H', '1', '0'],
            Configuration::OH11 => seq!['@', 'O', 'H', '1', '1'],
            Configuration::OH12 => seq!['@', 'O', 'H', '1', '2'],
            Configuration::OH13 => seq!['@', 'O', 'H', '1', '3'],
            Configuration::OH14 => seq!['@', 'O', 'H', '1', '4'],
            Configuration::OH15 => seq!['@', 'O', 'H', '1', '5'],
            Configuration::OH16 => seq!['@', 'O', 'H', '1', '6'],
            Configuration::OH17 => seq!['@', 'O', 'H', '1', '7'],
            Configuration::OH18 => seq!['@', 'O', 'H', '1', '8'],
            Configuration::OH19 => seq!['@', 'O', 'H', '1', '9'],
            Configuration::OH20 => seq!['@', 'O', 'H', '2', '0'],
            Configuration::OH21 => seq!['@', 'O', 'H', '2', '1'],
            Configuration::OH22 => seq!['@', 'O', 'H', '2', '2'],
            Configuration::OH23 => seq!['@', 'O', 'H', '2', '3'],
            Configuration::OH24 => seq!['@', 'O', 'H', '2', '4'],
            Configuration::OH25 => seq!['@', 'O', 'H', '2', '5'],
            Configuration::OH26 => seq!['@', 'O', 'H', '2', '6'],
            Configuration::OH27 => seq!['@', 'O', 'H', '2', '7'],
            Configuration::OH28 => seq!['@', 'O', 'H', '2', '8'],
            Configuration::OH29 => seq!['@', 'O', 'H', '2', '9'],
            Configuration::OH30 => seq!['@', 'O', 'H', '3', '0'],
            Configuration::SP1 => seq!['@', 'S', 'P', '1'],
            Configuration::SP2 => seq!['@', 'S', 'P', '2'],
            Configuration::SP3 => seq!['@', 'S', 'P', '3'],
            Configuration::TB1 => seq!['@', 'T', 'B', '1'],
            Configuration::TB2 => seq!['@', 'T', 'B', '2'],
            Configuration::TB3 => seq!['@', 'T', 'B', '3'],
            Configuration::TB4 => seq!['@', 'T', 'B', '4'],
            Configuration::TB5 => seq!['@', 'T', 'B', '5'],
            Configuration::TB6 => seq!['@', 'T', 'B', '6'],
            Configuration::TB7 => seq!['@', 'T', 'B', '7'],
            Configuration::TB8 => seq!['@', 'T', 'B', '8'],
            Configuration::TB9 => seq!['@', 'T', 'B', '9'],
            Configuration::TB10 => seq!['@', 'T', 'B', '1', '0'],
            Configuration::TB11 => seq!['@', 'T', 'B', '1', '1'],
            Configuration::TB12 => seq!['@', 'T', 'B', '1', '2'],
            Configuration::TB13 => seq!['@', 'T', 'B', '1', '3'],
            Configuration::TB14 => seq!['@', 'T', 'B', '1', '4'],
            Configuration::TB15 => seq!['@', 'T', 'B', '1', '5'],
            Configuration::TB16 => seq!['@', 'T', 'B', '1', '6'],
            Configuration::TB17 => seq!['@', 'T', 'B', '1', '7'],
            Configuration::TB18 => seq!['@', 'T', 'B', '1', '8'],
            Configuration::TB19 => seq!['@', 'T', 'B', '1', '9'],
            Configuration::TB20 => seq!['@', 'T', 'B', '2', '0'],
            Configuration::TH1 => seq!['@'],
            Configuration::TH2 => seq!['@', '@'],
            Configuration::UnspecifiedTH => seq!['@', 'T', 'H'],
            Configuration::UnspecifiedAL => seq!['@', 'A', 'L'],
            Configuration::UnspecifiedTB => seq!['@', 'T', 'B'],
            Configuration::UnspecifiedOH => seq!['@', 'O', 'H'],
            Configuration::UnspecifiedSP => seq!['@', 'S', 'P'],
        }
    }

    /// Renders this configuration as it appears in a bracket atom.
    pub fn to_string(&self) -> (r: String)
        ensures
            r@ == self.spec_text(),
    {
        let text: &str = match self {
            Configuration::AL1 => { proof { reveal_strlit("@"); } "@" },
            Configuration::AL2 => { proof { reveal_strlit("@@"); } "@@" },
            Configuration::OH1 => { proof { reveal_strlit("@OH1"); } "@OH1" },
            Configuration::OH2 => { proof { reveal_strlit("@OH2"); } "@OH2" },
            Configuration::OH3 => { proof { reveal_strlit("@OH3"); } "@OH3" },
            Configuration::OH4 => { proof { reveal_strlit("@OH4"); } "@OH4" },
            Configuration::OH5 => { proof { reveal_strlit("@OH5"); } "@OH5" },
            Configuration::OH6 => { proof { reveal_strlit("@OH6"); } "@OH6" },
            Configuration::OH7 => { proof { reveal_strlit("@OH7"); } "@OH7" },
            Configuration::OH8 => { proof { reveal_strlit("@OH8"); } "@OH8" },
            Configuration::OH9 => { proof { reveal_strlit("@OH9"); } "@OH9" },
            Configuration::OH10 => { proof { reveal_strlit("@OH10"); } "@OH10" },
            Configuration::OH11 => { proof { reveal_strlit("@OH11"); } "@OH11" },
            Configuration::OH12 => { proof { reveal_strlit("@OH12"); } "@OH12" },
            Configuration::OH13 => { proof { reveal_strlit("@OH13"); } "@OH13" },
            Configuration::OH14 => { proof { reveal_strlit("@OH14"); } "@OH14" },
            Configuration::OH15 => { proof { reveal_strlit("@OH15"); } "@OH15" },
            Configuration::OH16 => { proof { reveal_strlit("@OH16"); } "@OH16" },
            Configuration::OH17 => { proof { reveal_strlit("@OH17"); } "@OH17" },
            Configuration::OH18 => { proof { reveal_strlit("@OH18"); } "@OH18" },
            Configuration::OH19 => { proof { reveal_strlit("@OH19"); } "@OH19" },
            Configuration::OH20 => { proof { reveal_strlit("@OH20"); } "@OH20" },
            Configuration::OH21 => { proof { reveal_strlit("@OH21"); } "@OH21" },
            Configuration::OH22 => { proof { reveal_strlit("@OH22"); } "@OH22" },
            Configuration::OH23 => { proof { reveal_strlit("@OH23"); } "@OH23" },
            Configuration::OH24 => { proof { reveal_strlit("@OH24"); } "@OH24" },
            Configuration::OH25 => { proof { reveal_strlit("@OH25"); } "@OH25" },
            Configuration::OH26 => { proof { reveal_strlit("@OH26"); } "@OH26" },
            Configuration::OH27 => { proof { reveal_strlit("@OH27"); } "@OH27" },
            Configuration::OH28 => { proof { reveal_strlit("@OH28"); } "@OH28" },
            Configuration::OH29 => { proof { reveal_strlit("@OH29"); } "@OH29" },
            Configuration::OH30 => { proof { reveal_strlit("@OH30"); } "@OH30" },
            Configuration::SP1 => { proof { reveal_strlit("@SP1"); } "@SP1" },
            Configuration::SP2 => { proof { reveal_strlit("@SP2"); } "@SP2" },
            Configuration::SP3 => { proof { reveal_strlit("@SP3"); } "@SP3" },
            Configuration::TB1 => { proof { reveal_strlit("@TB1"); } "@TB1" },
            Configuration::TB2 => { proof { reveal_strlit("@TB2"); } "@TB2" },
            Configuration::TB3 => { proof { reveal_strlit("@TB3"); } "@TB3" },
            Configuration::TB4 => { proof { reveal_strlit("@TB4"); } "@TB4" },
            Configuration::TB5 => { proof { reveal_strlit("@TB5"); } "@TB5" },
            Configuration::TB6 => { proof { reveal_strlit("@TB6"); } "@TB6" },
            Configuration::TB7 => { proof { reveal_strlit("@TB7"); } "@TB7" },
            Configuration::TB8 => { proof { reveal_strlit("@TB8"); } "@TB8" },
            Configuration::TB9 => { proof { reveal_strlit("@TB9"); } "@TB9" },
            Configuration::TB10 => { proof { reveal_strlit("@TB10"); } "@TB10" },
            Configuration::TB11 => { proof { reveal_strlit("@TB11"); } "@TB11" },
            Configuration::TB12 => { proof { reveal_strlit("@TB12"); } "@TB12" },
            Configuration::TB13 => { proof { reveal_strlit("@TB13"); } "@TB13" },
            Configuration::TB14 => { proof { reveal_strlit("@TB14"); } "@TB14" },
            Configuration::TB15 => { proof { reveal_strlit("@TB15"); } "@TB15" },
            Configuration::TB16 => { proof { reveal_strlit("@TB16"); } "@TB16" },
            Configuration::TB17 => { proof { reveal_strlit("@TB17"); } "@TB17" },
            Configuration::TB18 => { proof { reveal_strlit("@TB18"); } "@TB18" },
            Configuration::TB19 => { proof { reveal_strlit("@TB19"); } "@TB19" },
            Configuration::TB20 => { proof { reveal_strlit("@TB20"); } "@TB20" },
            Configuration::TH1 => { proof { reveal_strlit("@"); } "@" },
            Configuration::TH2 => { proof { reveal_strlit("@@"); } "@@" },
            Configuration::UnspecifiedTH => { proof { reveal_strlit("@TH"); } "@TH" },
            Configuration::UnspecifiedAL => { proof { reveal_strlit("@AL"); } "@AL" },
            Configuration::UnspecifiedTB => { proof { reveal_strlit("@TB"); } "@TB" },
            Configuration::UnspecifiedOH => { proof { reveal_strlit("@OH"); } "@OH" },
            Configuration::UnspecifiedSP => { proof { reveal_strlit("@SP"); } "@SP" },
        };
        let r = String::from_str(text);
        proof {
            assert(r@ =~= self.spec_text());
        }
        r
    }
}

} // verus!
