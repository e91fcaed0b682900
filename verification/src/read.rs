mod digits;
mod error;
mod missing_character;
mod read_bond;
mod read_charge;
mod read_bracket;
mod read_configuration;
mod read_organic;
mod read_rnum;
mod reader;
mod scanner;
mod trace;

pub use digits::spec_digit;
pub use digits::digit_of;
pub use error::ReadError;
pub use missing_character::missing_character;
pub use missing_character::spec_missing_character;
pub use read_bond::read_bond;
pub use read_bracket::read_bracket;
pub use read_bracket::spec_read_bracket;
pub use read_bracket::spec_lex_bracket;
pub use read_bracket::spec_read_symbol;
pub use read_bracket::spec_read_isotope;
pub use read_bracket::spec_read_hcount;
pub use read_bracket::spec_read_map;
pub use read_bracket::spec_kept_isotope;
pub use read_bracket::spec_digits;
pub use read_bracket::spec_alias;
pub use read_bracket::spec_hydrogen;
pub use read_bracket::isotope_known;
pub use read_organic::read_organic;
pub use read_organic::spec_read_organic;
pub use read_bond::spec_read_bond;
pub use read_charge::read_charge;
pub use read_charge::spec_read_charge;
pub use read_charge::spec_lex_fifteen;
pub use read_configuration::read_configuration;
pub use read_configuration::spec_read_configuration;
pub use read_configuration::spec_tetrahedral;
pub use read_configuration::spec_allene;
pub use read_configuration::spec_square_planar;
pub use read_configuration::spec_trigonal_bipyramidal;
pub use read_configuration::spec_octahedral;
pub use read_configuration::spec_tb;
pub use read_configuration::spec_oh;
pub use read_rnum::read_rnum;
pub use read_rnum::spec_read_rnum;
pub use reader::read;
pub use reader::read_trace;
pub use reader::spec_read;
pub use reader::spec_read_atom;
pub use reader::spec_smiles;
pub use reader::spec_bodies;
pub use reader::spec_body;
pub use reader::spec_branch;
pub use reader::spec_split;
pub use reader::spec_union;
pub use reader::sink_extended;
pub use scanner::Scanner;
pub use trace::Trace;
pub use trace::trace_key;
pub use trace::spec_bond_lookup;
pub use trace::lemma_bond_symmetric;
pub use scanner::skip_quotes;
pub use scanner::spec_peek;
pub use scanner::spec_advance;
pub use scanner::unquoted;
pub use scanner::lemma_scanner_wf;
pub use scanner::lemma_skip_quotes_auto;
pub use scanner::lemma_peek_unquoted;
pub use scanner::lemma_quote_insertion;
