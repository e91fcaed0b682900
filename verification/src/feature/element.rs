use vstd::prelude::*;

verus! {

/// One of the 118 known chemical elements, identified by symbol.
#[derive(Debug, PartialEq, Eq, Clone, Copy, Structural)]
pub enum Element {
    H,
    He,
    Li,
    Be,
    B,
    C,
    N,
    O,
    F,
    Ne,
    Na,
    Mg,
    Al,
    Si,
    P,
    S,
    Cl,
    Ar,
    K,
    Ca,
    Sc,
    Ti,
    V,
    Cr,
    Mn,
    Fe,
    Co,
    Ni,
    Cu,
    Zn,
    Ga,
    Ge,
    As,
    Se,
    Br,
    Kr,
    Rb,
    Sr,
    Y,
    Zr,
    Nb,
    Mo,
    Tc,
    Ru,
    Rh,
    Pd,
    Ag,
    Cd,
    In,
    Sn,
    Sb,
    Te,
    I,
    Xe,
    Cs,
    Ba,
    La,
    Ce,
    Pr,
    Nd,
    Pm,
    Sm,
    Eu,
    Gd,
    Tb,
    Dy,
    Ho,
    Er,
    Tm,
    Yb,
    Lu,
    Hf,
    Ta,
    W,
    Re,
    Os,
    Ir,
    Pt,
    Au,
    Hg,
    Tl,
    Pb,
    Bi,
    Po,
    At,
    Rn,
    Fr,
    Ra,
    Ac,
    Th,
    Pa,
    U,
    Np,
    Pu,
    Am,
    Cm,
    Bk,
    Cf,
    Es,
    Fm,
    Md,
    No,
    Lr,
    Rf,
    Db,
    Sg,
    Bh,
    Hs,
    Mt,
    Ds,
    Rg,
    Cn,
    Nh,
    Fl,
    Mc,
    Lv,
    Ts,
    Og,
}

impl Element {
    /// The element's symbol, as a sequence of characters.
    pub open spec fn spec_symbol(self) -> Seq<char> {
        match self {
            Element::H => seq!['H'],
            Element::He => seq!['H', 'e'],
            Element::Li => seq!['L', 'i'],
            Element::Be => seq!['B', 'e'],
            Element::B => seq!['B'],
            Element::C => seq!['C'],
            Element::N => seq!['N'],
            Element::O => seq!['O'],
            Element::F => seq!['F'],
            Element::Ne => seq!['N', 'e'],
            Element::Na => seq!['N', 'a'],
            Element::Mg => seq!['M', 'g'],
            Element::Al => seq!['A', 'l'],
            Element::Si => seq!['S', 'i'],
            Element::P => seq!['P'],
            Element::S => seq!['S'],
            Element::Cl => seq!['C', 'l'],
            Element::Ar => seq!['A', 'r'],
            Element::K => seq!['K'],
            Element::Ca => seq!['C', 'a'],
            Element::Sc => seq!['S', 'c'],
            Element::Ti => seq!['T', 'i'],
            Element::V => seq!['V'],
            Element::Cr => seq!['C', 'r'],
            Element::Mn => seq!['M', 'n'],
            Element::Fe => seq!['F', 'e'],
            Element::Co => seq!['C', 'o'],
            Element::Ni => seq!['N', 'i'],
            Element::Cu => seq!['C', 'u'],
            Element::Zn => seq!['Z', 'n'],
            Element::Ga => seq!['G', 'a'],
            Element::Ge => seq!['G', 'e'],
            Element::As => seq!['A', 's'],
            Element::Se => seq!['S', 'e'],
            Element::Br => seq!['B', 'r'],
            Element::Kr => seq!['K', 'r'],
            Element::Rb => seq!['R', 'b'],
            Element::Sr => seq!['S', 'r'],
            Element::Y => seq!['Y'],
            Element::Zr => seq!['Z', 'r'],
            Element::Nb => seq!['N', 'b'],
            Element::Mo => seq!['M', 'o'],
            Element::Tc => seq!['T', 'c'],
            Element::Ru => seq!['R', 'u'],
            Element::Rh => seq!['R', 'h'],
            Element::Pd => seq!['P', 'd'],
            Element::Ag => seq!['A', 'g'],
            Element::Cd => seq!['C', 'd'],
            Element::In => seq!['I', 'n'],
            Element::Sn => seq!['S', 'n'],
            Element::Sb => seq!['S', 'b'],
            Element::Te => seq!['T', 'e'],
            Element::I => seq!['I'],
            Element::Xe => seq!['X', 'e'],
            Element::Cs => seq!['C', 's'],
            Element::Ba => seq!['B', 'a'],
            Element::La => seq!['L', 'a'],
            Element::Ce => seq!['C', 'e'],
            Element::Pr => seq!['P', 'r'],
            Element::Nd => seq!['N', 'd'],
            Element::Pm => seq!['P', 'm'],
            Element::Sm => seq!['S', 'm'],
            Element::Eu => seq!['E', 'u'],
            Element::Gd => seq!['G', 'd'],
            Element::Tb => seq!['T', 'b'],
            Element::Dy => seq!['D', 'y'],
            Element::Ho => seq!['H', 'o'],
            Element::Er => seq!['E', 'r'],
            Element::Tm => seq!['T', 'm'],
            Element::Yb => seq!['Y', 'b'],
            Element::Lu => seq!['L', 'u'],
            Element::Hf => seq!['H', 'f'],
            Element::Ta => seq!['T', 'a'],
            Element::W => seq!['W'],
            Element::Re => seq!['R', 'e'],
            Element::Os => seq!['O', 's'],
            Element::Ir => seq!['I', 'r'],
            Element::Pt => seq!['P', 't'],
            Element::Au => seq!['A', 'u'],
            Element::Hg => seq!['H', 'g'],
            Element::Tl => seq!['T', 'l'],
            Element::Pb => seq!['P', 'b'],
            Element::Bi => seq!['B', 'i'],
            Element::Po => seq!['P', 'o'],
            Element::At => seq!['A', 't'],
            Element::Rn => seq!['R', 'n'],
            Element::Fr => seq!['F', 'r'],
            Element::Ra => seq!['R', 'a'],
            Element::Ac => seq!['A', 'c'],
            Element::Th => seq!['T', 'h'],
            Element::Pa => seq!['P', 'a'],
            Element::U => seq!['U'],
            Element::Np => seq!['N', 'p'],
            Element::Pu => seq!['P', 'u'],
            Element::Am => seq!['A', 'm'],
            Element::Cm => seq!['C', 'm'],
            Element::Bk => seq!['B', 'k'],
            Element::Cf => seq!['C', 'f'],
            Element::Es => seq!['E', 's'],
            Element::Fm => seq!['F', 'm'],
            Element::Md => seq!['M', 'd'],
            Element::No => seq!['N', 'o'],
            Element::Lr => seq!['L', 'r'],
            Element::Rf => seq!['R', 'f'],
            Element::Db => seq!['D', 'b'],
            Element::Sg => seq!['S', 'g'],
            Element::Bh => seq!['B', 'h'],
            Element::Hs => seq!['H', 's'],
            Element::Mt => seq!['M', 't'],
            Element::Ds => seq!['D', 's'],
            Element::Rg => seq!['R', 'g'],
            Element::Cn => seq!['C', 'n'],
            Element::Nh => seq!['N', 'h'],
            Element::Fl => seq!['F', 'l'],
            Element::Mc => seq!['M', 'c'],
            Element::Lv => seq!['L', 'v'],
            Element::Ts => seq!['T', 's'],
            Element::Og => seq!['O', 'g'],
        }
    }

    /// Returns the symbol for the element.
    pub fn symbol(&self) -> (r: &'static str)
        ensures
            r@ == self.spec_symbol(),
    {
        match self {
            Element::H => { proof { reveal_strlit("H"); } "H" },
            Element::He => { proof { reveal_strlit("He"); } "He" },
            Element::Li => { proof { reveal_strlit("Li"); } "Li" },
            Element::Be => { proof { reveal_strlit("Be"); } "Be" },
            Element::B => { proof { reveal_strlit("B"); } "B" },
            Element::C => { proof { reveal_strlit("C"); } "C" },
            Element::N => { proof { reveal_strlit("N"); } "N" },
            Element::O => { proof { reveal_strlit("O"); } "O" },
            Element::F => { proof { reveal_strlit("F"); } "F" },
            Element::Ne => { proof { reveal_strlit("Ne"); } "Ne" },
            Element::Na => { proof { reveal_strlit("Na"); } "Na" },
            Element::Mg => { proof { reveal_strlit("Mg"); } "Mg" },
            Element::Al => { proof { reveal_strlit("Al"); } "Al" },
            Element::Si => { proof { reveal_strlit("Si"); } "Si" },
            Element::P => { proof { reveal_strlit("P"); } "P" },
            Element::S => { proof { reveal_strlit("S"); } "S" },
            Element::Cl => { proof { reveal_strlit("Cl"); } "Cl" },
            Element::Ar => { proof { reveal_strlit("Ar"); } "Ar" },
            Element::K => { proof { reveal_strlit("K"); } "K" },
            Element::Ca => { proof { reveal_strlit("Ca"); } "Ca" },
            Element::Sc => { proof { reveal_strlit("Sc"); } "Sc" },
            Element::Ti => { proof { reveal_strlit("Ti"); } "Ti" },
            Element::V => { proof { reveal_strlit("V"); } "V" },
            Element::Cr => { proof { reveal_strlit("Cr"); } "Cr" },
            Element::Mn => { proof { reveal_strlit("Mn"); } "Mn" },
            Element::Fe => { proof { reveal_strlit("Fe"); } "Fe" },
            Element::Co => { proof { reveal_strlit("Co"); } "Co" },
            Element::Ni => { proof { reveal_strlit("Ni"); } "Ni" },
            Element::Cu => { proof { reveal_strlit("Cu"); } "Cu" },
            Element::Zn => { proof { reveal_strlit("Zn"); } "Zn" },
            Element::Ga => { proof { reveal_strlit("Ga"); } "Ga" },
            Element::Ge => { proof { reveal_strlit("Ge"); } "Ge" },
            Element::As => { proof { reveal_strlit("As"); } "As" },
            Element::Se => { proof { reveal_strlit("Se"); } "Se" },
            Element::Br => { proof { reveal_strlit("Br"); } "Br" },
            Element::Kr => { proof { reveal_strlit("Kr"); } "Kr" },
            Element::Rb => { proof { reveal_strlit("Rb"); } "Rb" },
            Element::Sr => { proof { reveal_strlit("Sr"); } "Sr" },
            Element::Y => { proof { reveal_strlit("Y"); } "Y" },
            Element::Zr => { proof { reveal_strlit("Zr"); } "Zr" },
            Element::Nb => { proof { reveal_strlit("Nb"); } "Nb" },
            Element::Mo => { proof { reveal_strlit("Mo"); } "Mo" },
            Element::Tc => { proof { reveal_strlit("Tc"); } "Tc" },
            Element::Ru => { proof { reveal_strlit("Ru"); } "Ru" },
            Element::Rh => { proof { reveal_strlit("Rh"); } "Rh" },
            Element::Pd => { proof { reveal_strlit("Pd"); } "Pd" },
            Element::Ag => { proof { reveal_strlit("Ag"); } "Ag" },
            Element::Cd => { proof { reveal_strlit("Cd"); } "Cd" },
            Element::In => { proof { reveal_strlit("In"); } "In" },
            Element::Sn => { proof { reveal_strlit("Sn"); } "Sn" },
            Element::Sb => { proof { reveal_strlit("Sb"); } "Sb" },
            Element::Te => { proof { reveal_strlit("Te"); } "Te" },
            Element::I => { proof { reveal_strlit("I"); } "I" },
            Element::Xe => { proof { reveal_strlit("Xe"); } "Xe" },
            Element::Cs => { proof { reveal_strlit("Cs"); } "Cs" },
            Element::Ba => { proof { reveal_strlit("Ba"); } "Ba" },
            Element::La => { proof { reveal_strlit("La"); } "La" },
            Element::Ce => { proof { reveal_strlit("Ce"); } "Ce" },
            Element::Pr => { proof { reveal_strlit("Pr"); } "Pr" },
            Element::Nd => { proof { reveal_strlit("Nd"); } "Nd" },
            Element::Pm => { proof { reveal_strlit("Pm"); } "Pm" },
            Element::Sm => { proof { reveal_strlit("Sm"); } "Sm" },
            Element::Eu => { proof { reveal_strlit("Eu"); } "Eu" },
            Element::Gd => { proof { reveal_strlit("Gd"); } "Gd" },
            Element::Tb => { proof { reveal_strlit("Tb"); } "Tb" },
            Element::Dy => { proof { reveal_strlit("Dy"); } "Dy" },
            Element::Ho => { proof { reveal_strlit("Ho"); } "Ho" },
            Element::Er => { proof { reveal_strlit("Er"); } "Er" },
            Element::Tm => { proof { reveal_strlit("Tm"); } "Tm" },
            Element::Yb => { proof { reveal_strlit("Yb"); } "Yb" },
            Element::Lu => { proof { reveal_strlit("Lu"); } "Lu" },
            Element::Hf => { proof { reveal_strlit("Hf"); } "Hf" },
            Element::Ta => { proof { reveal_strlit("Ta"); } "Ta" },
            Element::W => { proof { reveal_strlit("W"); } "W" },
            Element::Re => { proof { reveal_strlit("Re"); } "Re" },
            Element::Os => { proof { reveal_strlit("Os"); } "Os" },
            Element::Ir => { proof { reveal_strlit("Ir"); } "Ir" },
            Element::Pt => { proof { reveal_strlit("Pt"); } "Pt" },
            Element::Au => { proof { reveal_strlit("Au"); } "Au" },
            Element::Hg => { proof { reveal_strlit("Hg"); } "Hg" },
            Element::Tl => { proof { reveal_strlit("Tl"); } "Tl" },
            Element::Pb => { proof { reveal_strlit("Pb"); } "Pb" },
            Element::Bi => { proof { reveal_strlit("Bi"); } "Bi" },
            Element::Po => { proof { reveal_strlit("Po"); } "Po" },
            Element::At => { proof { reveal_strlit("At"); } "At" },
            Element::Rn => { proof { reveal_strlit("Rn"); } "Rn" },
            Element::Fr => { proof { reveal_strlit("Fr"); } "Fr" },
            Element::Ra => { proof { reveal_strlit("Ra"); } "Ra" },
            Element::Ac => { proof { reveal_strlit("Ac"); } "Ac" },
            Element::Th => { proof { reveal_strlit("Th"); } "Th" },
            Element::Pa => { proof { reveal_strlit("Pa"); } "Pa" },
            Element::U => { proof { reveal_strlit("U"); } "U" },
            Element::Np => { proof { reveal_strlit("Np"); } "Np" },
            Element::Pu => { proof { reveal_strlit("Pu"); } "Pu" },
            Element::Am => { proof { reveal_strlit("Am"); } "Am" },
            Element::Cm => { proof { reveal_strlit("Cm"); } "Cm" },
            Element::Bk => { proof { reveal_strlit("Bk"); } "Bk" },
            Element::Cf => { proof { reveal_strlit("Cf"); } "Cf" },
            Element::Es => { proof { reveal_strlit("Es"); } "Es" },
            Element::Fm => { proof { reveal_strlit("Fm"); } "Fm" },
            Element::Md => { proof { reveal_strlit("Md"); } "Md" },
            Element::No => { proof { reveal_strlit("No"); } "No" },
            Element::Lr => { proof { reveal_strlit("Lr"); } "Lr" },
            Element::Rf => { proof { reveal_strlit("Rf"); } "Rf" },
            Element::Db => { proof { reveal_strlit("Db"); } "Db" },
            Element::Sg => { proof { reveal_strlit("Sg"); } "Sg" },
            Element::Bh => { proof { reveal_strlit("Bh"); } "Bh" },
            Element::Hs => { proof { reveal_strlit("Hs"); } "Hs" },
            Element::Mt => { proof { reveal_strlit("Mt"); } "Mt" },
            Element::Ds => { proof { reveal_strlit("Ds"); } "Ds" },
            Element::Rg => { proof { reveal_strlit("Rg"); } "Rg" },
            Element::Cn => { proof { reveal_strlit("Cn"); } "Cn" },
            Element::Nh => { proof { reveal_strlit("Nh"); } "Nh" },
            Element::Fl => { proof { reveal_strlit("Fl"); } "Fl" },
            Element::Mc => { proof { reveal_strlit("Mc"); } "Mc" },
            Element::Lv => { proof { reveal_strlit("Lv"); } "Lv" },
            Element::Ts => { proof { reveal_strlit("Ts"); } "Ts" },
            Element::Og => { proof { reveal_strlit("Og"); } "Og" },
        }
    }

    /// The element whose symbol is the given one or two letters, if any.
    pub open spec fn spec_from_symbol(c1: char, c2: Option<char>) -> Option<Element> {
        match (c1, c2) {
            ('H', None) => Some(Element::H),
            ('H', Some('e')) => Some(Element::He),
            ('L', Some('i')) => Some(Element::Li),
            ('B', Some('e')) => Some(Element::Be),
            ('B', None) => Some(Element::B),
            ('C', None) => Some(Element::C),
            ('N', None) => Some(Element::N),
            ('O', None) => Some(Element::O),
            ('F', None) => Some(Element::F),
            ('N', Some('e')) => Some(Element::Ne),
            ('N', Some('a')) => Some(Element::Na),
            ('M', Some('g')) => Some(Element::Mg),
            ('A', Some('l')) => Some(Element::Al),
            ('S', Some('i')) => Some(Element::Si),
            ('P', None) => Some(Element::P),
            ('S', None) => Some(Element::S),
            ('C', Some('l')) => Some(Element::Cl),
            ('A', Some('r')) => Some(Element::Ar),
            ('K', None) => Some(Element::K),
            ('C', Some('a')) => Some(Element::Ca),
            ('S', Some('c')) => Some(Element::Sc),
            ('T', Some('i')) => Some(Element::Ti),
            ('V', None) => Some(Element::V),
            ('C', Some('r')) => Some(Element::Cr),
            ('M', Some('n')) => Some(Element::Mn),
            ('F', Some('e')) => Some(Element::Fe),
            ('C', Some('o')) => Some(Element::Co),
            ('N', Some('i')) => Some(Element::Ni),
            ('C', Some('u')) => Some(Element::Cu),
            ('Z', Some('n')) => Some(Element::Zn),
            ('G', Some('a')) => Some(Element::Ga),
            ('G', Some('e')) => Some(Element::Ge),
            ('A', Some('s')) => Some(Element::As),
            ('S', Some('e')) => Some(Element::Se),
            ('B', Some('r')) => Some(Element::Br),
            ('K', Some('r')) => Some(Element::Kr),
            ('R', Some('b')) => Some(Element::Rb),
            ('S', Some('r')) => Some(Element::Sr),
            ('Y', None) => Some(Element::Y),
            ('Z', Some('r')) => Some(Element::Zr),
            ('N', Some('b')) => Some(Element::Nb),
            ('M', Some('o')) => Some(Element::Mo),
            ('T', Some('c')) => Some(Element::Tc),
            ('R', Some('u')) => Some(Element::Ru),
            ('R', Some('h')) => Some(Element::Rh),
            ('P', Some('d')) => Some(Element::Pd),
            ('A', Some('g')) => Some(Element::Ag),
            ('C', Some('d')) => Some(Element::Cd),
            ('I', Some('n')) => Some(Element::In),
            ('S', Some('n')) => Some(Element::Sn),
            ('S', Some('b')) => Some(Element::Sb),
            ('T', Some('e')) => Some(Element::Te),
            ('I', None) => Some(Element::I),
            ('X', Some('e')) => Some(Element::Xe),
            ('C', Some('s')) => Some(Element::Cs),
            ('B', Some('a')) => Some(Element::Ba),
            ('L', Some('a')) => Some(Element::La),
            ('C', Some('e')) => Some(Element::Ce),
            ('P', Some('r')) => Some(Element::Pr),
            ('N', Some('d')) => Some(Element::Nd),
            ('P', Some('m')) => Some(Element::Pm),
            ('S', Some('m')) => Some(Element::Sm),
            ('E', Some('u')) => Some(Element::Eu),
            ('G', Some('d')) => Some(Element::Gd),
            ('T', Some('b')) => Some(Element::Tb),
            ('D', Some('y')) => Some(Element::Dy),
            ('H', Some('o')) => Some(Element::Ho),
            ('E', Some('r')) => Some(Element::Er),
            ('T', Some('m')) => Some(Element::Tm),
            ('Y', Some('b')) => Some(Element::Yb),
            ('L', Some('u')) => Some(Element::Lu),
            ('H', Some('f')) => Some(Element::Hf),
            ('T', Some('a')) => Some(Element::Ta),
            ('W', None) => Some(Element::W),
            ('R', Some('e')) => Some(Element::Re),
            ('O', Some('s')) => Some(Element::Os),
            ('I', Some('r')) => Some(Element::Ir),
            ('P', Some('t')) => Some(Element::Pt),
            ('A', Some('u')) => Some(Element::Au),
            ('H', Some('g')) => Some(Element::Hg),
            ('T', Some('l')) => Some(Element::Tl),
            ('P', Some('b')) => Some(Element::Pb),
            ('B', Some('i')) => Some(Element::Bi),
            ('P', Some('o')) => Some(Element::Po),
            ('A', Some('t')) => Some(Element::At),
            ('R', Some('n')) => Some(Element::Rn),
            ('F', Some('r')) => Some(Element::Fr),
            ('R', Some('a')) => Some(Element::Ra),
            ('A', Some('c')) => Some(Element::Ac),
            ('T', Some('h')) => Some(Element::Th),
            ('P', Some('a')) => Some(Element::Pa),
            ('U', None) => Some(Element::U),
            ('N', Some('p')) => Some(Element::Np),
            ('P', Some('u')) => Some(Element::Pu),
            ('A', Some('m')) => Some(Element::Am),
            ('C', Some('m')) => Some(Element::Cm),
            ('B', Some('k')) => Some(Element::Bk),
            ('C', Some('f')) => Some(Element::Cf),
            ('E', Some('s')) => Some(Element::Es),
            ('F', Some('m')) => Some(Element::Fm),
            ('M', Some('d')) => Some(Element::Md),
            ('N', Some('o')) => Some(Element::No),
            ('L', Some('r')) => Some(Element::Lr),
            ('R', Some('f')) => Some(Element::Rf),
            ('D', Some('b')) => Some(Element::Db),
            ('S', Some('g')) => Some(Element::Sg),
            ('B', Some('h')) => Some(Element::Bh),
            ('H', Some('s')) => Some(Element::Hs),
            ('M', Some('t')) => Some(Element::Mt),
            ('D', Some('s')) => Some(Element::Ds),
            ('R', Some('g')) => Some(Element::Rg),
            ('C', Some('n')) => Some(Element::Cn),
            ('N', Some('h')) => Some(Element::Nh),
            ('F', Some('l')) => Some(Element::Fl),
            ('M', Some('c')) => Some(Element::Mc),
            ('L', Some('v')) => Some(Element::Lv),
            ('T', Some('s')) => Some(Element::Ts),
            ('O', Some('g')) => Some(Element::Og),
            _ => None,
        }
    }

    /// Looks an element up by its one- or two-letter symbol.
    pub fn from_symbol(c1: char, c2: Option<char>) -> (r: Option<Element>)
        ensures
            r == Element::spec_from_symbol(c1, c2),
    {
        match (c1, c2) {
            ('H', None) => Some(Element::H),
            ('H', Some('e')) => Some(Element::He),
            ('L', Some('i')) => Some(Element::Li),
            ('B', Some('e')) => Some(Element::Be),
            ('B', None) => Some(Element::B),
            ('C', None) => Some(Element::C),
            ('N', None) => Some(Element::N),
            ('O', None) => Some(Element::O),
            ('F', None) => Some(Element::F),
            ('N', Some('e')) => Some(Element::Ne),
            ('N', Some('a')) => Some(Element::Na),
            ('M', Some('g')) => Some(Element::Mg),
            ('A', Some('l')) => Some(Element::Al),
            ('S', Some('i')) => Some(Element::Si),
            ('P', None) => Some(Element::P),
            ('S', None) => Some(Element::S),
            ('C', Some('l')) => Some(Element::Cl),
            ('A', Some('r')) => Some(Element::Ar),
            ('K', None) => Some(Element::K),
            ('C', Some('a')) => Some(Element::Ca),
            ('S', Some('c')) => Some(Element::Sc),
            ('T', Some('i')) => Some(Element::Ti),
            ('V', None) => Some(Element::V),
            ('C', Some('r')) => Some(Element::Cr),
            ('M', Some('n')) => Some(Element::Mn),
            ('F', Some('e')) => Some(Element::Fe),
            ('C', Some('o')) => Some(Element::Co),
            ('N', Some('i')) => Some(Element::Ni),
            ('C', Some('u')) => Some(Element::Cu),
            ('Z', Some('n')) => Some(Element::Zn),
            ('G', Some('a')) => Some(Element::Ga),
            ('G', Some('e')) => Some(Element::Ge),
            ('A', Some('s')) => Some(Element::As),
            ('S', Some('e')) => Some(Element::Se),
            ('B', Some('r')) => Some(Element::Br),
            ('K', Some('r')) => Some(Element::Kr),
            ('R', Some('b')) => Some(Element::Rb),
            ('S', Some('r')) => Some(Element::Sr),
            ('Y', None) => Some(Element::Y),
            ('Z', Some('r')) => Some(Element::Zr),
            ('N', Some('b')) => Some(Element::Nb),
            ('M', Some('o')) => Some(Element::Mo),
            ('T', Some('c')) => Some(Element::Tc),
            ('R', Some('u')) => Some(Element::Ru),
            ('R', Some('h')) => Some(Element::Rh),
            ('P', Some('d')) => Some(Element::Pd),
            ('A', Some('g')) => Some(Element::Ag),
            ('C', Some('d')) => Some(Element::Cd),
            ('I', Some('n')) => Some(Element::In),
            ('S', Some('n')) => Some(Element::Sn),
            ('S', Some('b')) => Some(Element::Sb),
            ('T', Some('e')) => Some(Element::Te),
            ('I', None) => Some(Element::I),
            ('X', Some('e')) => Some(Element::Xe),
            ('C', Some('s')) => Some(Element::Cs),
            ('B', Some('a')) => Some(Element::Ba),
            ('L', Some('a')) => Some(Element::La),
            ('C', Some('e')) => Some(Element::Ce),
            ('P', Some('r')) => Some(Element::Pr),
            ('N', Some('d')) => Some(Element::Nd),
            ('P', Some('m')) => Some(Element::Pm),
            ('S', Some('m')) => Some(Element::Sm),
            ('E', Some('u')) => Some(Element::Eu),
            ('G', Some('d')) => Some(Element::Gd),
            ('T', Some('b')) => Some(Element::Tb),
            ('D', Some('y')) => Some(Element::Dy),
            ('H', Some('o')) => Some(Element::Ho),
            ('E', Some('r')) => Some(Element::Er),
            ('T', Some('m')) => Some(Element::Tm),
            ('Y', Some('b')) => Some(Element::Yb),
            ('L', Some('u')) => Some(Element::Lu),
            ('H', Some('f')) => Some(Element::Hf),
            ('T', Some('a')) => Some(Element::Ta),
            ('W', None) => Some(Element::W),
            ('R', Some('e')) => Some(Element::Re),
            ('O', Some('s')) => Some(Element::Os),
            ('I', Some('r')) => Some(Element::Ir),
            ('P', Some('t')) => Some(Element::Pt),
            ('A', Some('u')) => Some(Element::Au),
            ('H', Some('g')) => Some(Element::Hg),
            ('T', Some('l')) => Some(Element::Tl),
            ('P', Some('b')) => Some(Element::Pb),
            ('B', Some('i')) => Some(Element::Bi),
            ('P', Some('o')) => Some(Element::Po),
            ('A', Some('t')) => Some(Element::At),
            ('R', Some('n')) => Some(Element::Rn),
            ('F', Some('r')) => Some(Element::Fr),
            ('R', Some('a')) => Some(Element::Ra),
            ('A', Some('c')) => Some(Element::Ac),
            ('T', Some('h')) => Some(Element::Th),
            ('P', Some('a')) => Some(Element::Pa),
            ('U', None) => Some(Element::U),
            ('N', Some('p')) => Some(Element::Np),
            ('P', Some('u')) => Some(Element::Pu),
            ('A', Some('m')) => Some(Element::Am),
            ('C', Some('m')) => Some(Element::Cm),
            ('B', Some('k')) => Some(Element::Bk),
            ('C', Some('f')) => Some(Element::Cf),
            ('E', Some('s')) => Some(Element::Es),
            ('F', Some('m')) => Some(Element::Fm),
            ('M', Some('d')) => Some(Element::Md),
            ('N', Some('o')) => Some(Element::No),
            ('L', Some('r')) => Some(Element::Lr),
            ('R', Some('f')) => Some(Element::Rf),
            ('D', Some('b')) => Some(Element::Db),
            ('S', Some('g')) => Some(Element::Sg),
            ('B', Some('h')) => Some(Element::Bh),
            ('H', Some('s')) => Some(Element::Hs),
            ('M', Some('t')) => Some(Element::Mt),
            ('D', Some('s')) => Some(Element::Ds),
            ('R', Some('g')) => Some(Element::Rg),
            ('C', Some('n')) => Some(Element::Cn),
            ('N', Some('h')) => Some(Element::Nh),
            ('F', Some('l')) => Some(Element::Fl),
            ('M', Some('c')) => Some(Element::Mc),
            ('L', Some('v')) => Some(Element::Lv),
            ('T', Some('s')) => Some(Element::Ts),
            ('O', Some('g')) => Some(Element::Og),
            _ => None,
        }
    }

    /// The element's atomic number.
    pub open spec fn spec_atomic_number(self) -> u32 {
        match self {
            Element::H => 1,
            Element::He => 2,
            Element::Li => 3,
            Element::Be => 4,
            Element::B => 5,
            Element::C => 6,
            Element::N => 7,
            Element::O => 8,
            Element::F => 9,
            Element::Ne => 10,
            Element::Na => 11,
            Element::Mg => 12,
            Element::Al => 13,
            Element::Si => 14,
            Element::P => 15,
            Element::S => 16,
            Element::Cl => 17,
            Element::Ar => 18,
            Element::K => 19,
            Element::Ca => 20,
            Element::Sc => 21,
            Element::Ti => 22,
            Element::V => 23,
            Element::Cr => 24,
            Element::Mn => 25,
            Element::Fe => 26,
            Element::Co => 27,
            Element::Ni => 28,
            Element::Cu => 29,
            Element::Zn => 30,
            Element::Ga => 31,
            Element::Ge => 32,
            Element::As => 33,
            Element::Se => 34,
            Element::Br => 35,
            Element::Kr => 36,
            Element::Rb => 37,
            Element::Sr => 38,
            Element::Y => 39,
            Element::Zr => 40,
            Element::Nb => 41,
            Element::Mo => 42,
            Element::Tc => 43,
            Element::Ru => 44,
            Element::Rh => 45,
            Element::Pd => 46,
            Element::Ag => 47,
            Element::Cd => 48,
            Element::In => 49,
            Element::Sn => 50,
            Element::Sb => 51,
            Element::Te => 52,
            Element::I => 53,
            Element::Xe => 54,
            Element::Cs => 55,
            Element::Ba => 56,
            Element::La => 57,
            Element::Ce => 58,
            Element::Pr => 59,
            Element::Nd => 60,
            Element::Pm => 61,
            Element::Sm => 62,
            Element::Eu => 63,
            Element::Gd => 64,
            Element::Tb => 65,
            Element::Dy => 66,
            Element::Ho => 67,
            Element::Er => 68,
            Element::Tm => 69,
            Element::Yb => 70,
            Element::Lu => 71,
            Element::Hf => 72,
            Element::Ta => 73,
            Element::W => 74,
            Element::Re => 75,
            Element::Os => 76,
            Element::Ir => 77,
            Element::Pt => 78,
            Element::Au => 79,
            Element::Hg => 80,
            Element::Tl => 81,
            Element::Pb => 82,
            Element::Bi => 83,
            Element::Po => 84,
            Element::At => 85,
            Element::Rn => 86,
            Element::Fr => 87,
            Element::Ra => 88,
            Element::Ac => 89,
            Element::Th => 90,
            Element::Pa => 91,
            Element::U => 92,
            Element::Np => 93,
            Element::Pu => 94,
            Element::Am => 95,
            Element::Cm => 96,
            Element::Bk => 97,
            Element::Cf => 98,
            Element::Es => 99,
            Element::Fm => 100,
            Element::Md => 101,
            Element::No => 102,
            Element::Lr => 103,
            Element::Rf => 104,
            Element::Db => 105,
            Element::Sg => 106,
            Element::Bh => 107,
            Element::Hs => 108,
            Element::Mt => 109,
            Element::Ds => 110,
            Element::Rg => 111,
            Element::Cn => 112,
            Element::Nh => 113,
            Element::Fl => 114,
            Element::Mc => 115,
            Element::Lv => 116,
            Element::Ts => 117,
            Element::Og => 118,
        }
    }

    /// Returns the element's atomic number.
    pub fn atomic_number(&self) -> (r: u32)
        ensures
            r == self.spec_atomic_number(),
    {
        match self {
            Element::H => 1,
            Element::He => 2,
            Element::Li => 3,
            Element::Be => 4,
            Element::B => 5,
            Element::C => 6,
            Element::N => 7,
            Element::O => 8,
            Element::F => 9,
            Element::Ne => 10,
            Element::Na => 11,
            Element::Mg => 12,
            Element::Al => 13,
            Element::Si => 14,
            Element::P => 15,
            Element::S => 16,
            Element::Cl => 17,
            Element::Ar => 18,
            Element::K => 19,
            Element::Ca => 20,
            Element::Sc => 21,
            Element::Ti => 22,
            Element::V => 23,
            Element::Cr => 24,
            Element::Mn => 25,
            Element::Fe => 26,
            Element::Co => 27,
            Element::Ni => 28,
            Element::Cu => 29,
            Element::Zn => 30,
            Element::Ga => 31,
            Element::Ge => 32,
            Element::As => 33,
            Element::Se => 34,
            Element::Br => 35,
            Element::Kr => 36,
            Element::Rb => 37,
            Element::Sr => 38,
            Element::Y => 39,
            Element::Zr => 40,
            Element::Nb => 41,
            Element::Mo => 42,
            Element::Tc => 43,
            Element::Ru => 44,
            Element::Rh => 45,
            Element::Pd => 46,
            Element::Ag => 47,
            Element::Cd => 48,
            Element::In => 49,
            Element::Sn => 50,
            Element::Sb => 51,
            Element::Te => 52,
            Element::I => 53,
            Element::Xe => 54,
            Element::Cs => 55,
            Element::Ba => 56,
            Element::La => 57,
            Element::Ce => 58,
            Element::Pr => 59,
            Element::Nd => 60,
            Element::Pm => 61,
            Element::Sm => 62,
            Element::Eu => 63,
            Element::Gd => 64,
            Element::Tb => 65,
            Element::Dy => 66,
            Element::Ho => 67,
            Element::Er => 68,
            Element::Tm => 69,
            Element::Yb => 70,
            Element::Lu => 71,
            Element::Hf => 72,
            Element::Ta => 73,
            Element::W => 74,
            Element::Re => 75,
            Element::Os => 76,
            Element::Ir => 77,
            Element::Pt => 78,
            Element::Au => 79,
            Element::Hg => 80,
            Element::Tl => 81,
            Element::Pb => 82,
            Element::Bi => 83,
            Element::Po => 84,
            Element::At => 85,
            Element::Rn => 86,
            Element::Fr => 87,
            Element::Ra => 88,
            Element::Ac => 89,
            Element::Th => 90,
            Element::Pa => 91,
            Element::U => 92,
            Element::Np => 93,
            Element::Pu => 94,
            Element::Am => 95,
            Element::Cm => 96,
            Element::Bk => 97,
            Element::Cf => 98,
            Element::Es => 99,
            Element::Fm => 100,
            Element::Md => 101,
            Element::No => 102,
            Element::Lr => 103,
            Element::Rf => 104,
            Element::Db => 105,
            Element::Sg => 106,
            Element::Bh => 107,
            Element::Hs => 108,
            Element::Mt => 109,
            Element::Ds => 110,
            Element::Rg => 111,
            Element::Cn => 112,
            Element::Nh => 113,
            Element::Fl => 114,
            Element::Mc => 115,
            Element::Lv => 116,
            Element::Ts => 117,
            Element::Og => 118,
        }
    }
}

} // verus!
