//! What a single board cell shows: blocked terrain, free, or a piece kind.
use crate::piece_type::PieceType;
use vstd::prelude::*;

verus! {

#[derive(Copy, Clone, PartialEq, Eq, Structural, Debug)]
pub enum FieldType {
    BLOCKED,
    FREE,
    USED(PieceType),
}

impl FieldType {
    /// The one-character text name of this field content.
    pub open spec fn spec_letter(self) -> char {
        match self {
            FieldType::BLOCKED => 'X',
            FieldType::FREE => ' ',
            FieldType::USED(pt) => pt.spec_letter(),
        }
    }

    pub fn to_string(&self) -> (r: String)
        ensures
            r@ == seq![self.spec_letter()],
    {
        match self {
            FieldType::BLOCKED => {
                let r = String::from_str("X");
                proof {
                    reveal_strlit("X");
                    assert(r@ =~= seq![self.spec_letter()]);
                }
                r
            },
            FieldType::FREE => {
                let r = String::from_str(" ");
                proof {
                    reveal_strlit(" ");
                    assert(r@ =~= seq![self.spec_letter()]);
                }
                r
            },
            FieldType::USED(pt) => pt.to_string(),
        }
    }
}

} // verus!
