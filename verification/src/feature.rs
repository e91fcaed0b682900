mod aliphatic;
mod aromatic;
mod atom_kind;
mod bond_kind;
mod bracket_aromatic;
mod bracket_symbol;
mod charge;
mod configuration;
mod element;
mod element_ext;
mod rnum;
mod virtual_hydrogen;

pub mod text;

pub use aliphatic::Aliphatic;
pub use aromatic::Aromatic;
pub use atom_kind::AtomKind;
pub use atom_kind::elemental_targets;
pub use atom_kind::spec_elemental_targets;
pub use atom_kind::spec_unbracketed_aromatic;
pub use atom_kind::lemma_invert_configuration_involution;
pub use atom_kind::lemma_debracket_idempotent;
pub use bond_kind::BondKind;
pub use bracket_aromatic::BracketAromatic;
pub use bracket_symbol::BracketSymbol;
pub use charge::Charge;
pub use configuration::Configuration;
pub use element::Element;
pub use element_ext::ElementExt;
pub use rnum::Rnum;
pub use virtual_hydrogen::VirtualHydrogen;
