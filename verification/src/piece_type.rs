//! The five piece kinds of the game and their one-letter text names.
use vstd::prelude::*;

verus! {

#[derive(Copy, Clone, PartialEq, Eq, Structural, Debug)]
pub enum PieceType {
    BEE,
    ANT,
    BEETLE,
    GRASSHOPPER,
    SPIDER,
}

impl PieceType {
    /// Index of this piece kind into per-type tables.
    pub open spec fn spec_index(self) -> usize {
        match self {
            PieceType::BEE => 0,
            PieceType::ANT => 1,
            PieceType::BEETLE => 2,
            PieceType::GRASSHOPPER => 3,
            PieceType::SPIDER => 4,
        }
    }

    /// How many pieces of this kind each side may deploy over a game.
    pub open spec fn spec_supply(self) -> u8 {
        match self {
            PieceType::BEE => 1,
            PieceType::ANT => 3,
            PieceType::BEETLE => 2,
            PieceType::GRASSHOPPER => 2,
            PieceType::SPIDER => 3,
        }
    }

    /// The single-letter name of this piece kind.
    pub open spec fn spec_letter(self) -> char {
        match self {
            PieceType::BEE => 'Q',
            PieceType::ANT => 'A',
            PieceType::BEETLE => 'B',
            PieceType::GRASSHOPPER => 'G',
            PieceType::SPIDER => 'S',
        }
    }

    pub fn index(self) -> (r: usize)
        ensures
            r == self.spec_index(),
            r < 5,
    {
        match self {
            PieceType::BEE => 0,
            PieceType::ANT => 1,
            PieceType::BEETLE => 2,
            PieceType::GRASSHOPPER => 3,
            PieceType::SPIDER => 4,
        }
    }

    pub fn supply(self) -> (r: u8)
        ensures
            r == self.spec_supply(),
    {
        match self {
            PieceType::BEE => 1,
            PieceType::ANT => 3,
            PieceType::BEETLE => 2,
            PieceType::GRASSHOPPER => 2,
            PieceType::SPIDER => 3,
        }
    }

    pub fn to_string(&self) -> (r: String)
        ensures
            r@ == seq![self.spec_letter()],
    {
        let r: String = match self {
            PieceType::BEE => String::from_str("Q"),
            PieceType::ANT => String::from_str("A"),
            PieceType::BEETLE => String::from_str("B"),
            PieceType::GRASSHOPPER => String::from_str("G"),
            PieceType::SPIDER => String::from_str("S"),
        };
        proof {
            reveal_strlit("Q");
            reveal_strlit("A");
            reveal_strlit("B");
            reveal_strlit("G");
            reveal_strlit("S");
            assert(r@ =~= seq![self.spec_letter()]);
        }
        r
    }

    /// Reads a piece kind from its one-letter name, upper or lower case.
    pub fn from_string(s: String) -> (r: Option<PieceType>)
        ensures
            match r {
                Some(pt) => s@.len() == 1 && (s@[0] == pt.spec_letter() || s@[0]
                    == pt.spec_lower_letter()),
                None => !(s@.len() == 1 && is_piece_letter(s@[0])),
            },
    {
        if s.as_str().unicode_len() != 1 {
            return None;
        }
        let c = s.as_str().get_char(0);
        let r = match c {
            'Q' | 'q' => Some(PieceType::BEE),
            'A' | 'a' => Some(PieceType::ANT),
            'B' | 'b' => Some(PieceType::BEETLE),
            'G' | 'g' => Some(PieceType::GRASSHOPPER),
            'S' | 's' => Some(PieceType::SPIDER),
            _ => None,
        };
        r
    }

    /// The lower-case one-letter name of this piece kind.
    pub open spec fn spec_lower_letter(self) -> char {
        match self {
            PieceType::BEE => 'q',
            PieceType::ANT => 'a',
            PieceType::BEETLE => 'b',
            PieceType::GRASSHOPPER => 'g',
            PieceType::SPIDER => 's',
        }
    }
}

/// Whether `c` is the upper- or lower-case letter of some piece kind.
pub open spec fn is_piece_letter(c: char) -> bool {
    c == 'Q' || c == 'q' || c == 'A' || c == 'a' || c == 'B' || c == 'b' || c == 'G' || c == 'g'
        || c == 'S' || c == 's'
}

/// The order in which the move generator walks the piece kinds.
pub open spec fn spec_variant_order() -> Seq<PieceType> {
    seq![
        PieceType::BEE,
        PieceType::BEETLE,
        PieceType::ANT,
        PieceType::GRASSHOPPER,
        PieceType::SPIDER,
    ]
}

/// The five piece kinds, in generation order.
pub fn piece_type_variants() -> (v: Vec<PieceType>)
    ensures
        v@ == spec_variant_order(),
{
    let mut v: Vec<PieceType> = Vec::new();
    v.push(PieceType::BEE);
    v.push(PieceType::BEETLE);
    v.push(PieceType::ANT);
    v.push(PieceType::GRASSHOPPER);
    v.push(PieceType::SPIDER);
    proof {
        assert(v@ =~= spec_variant_order());
    }
    v
}

} // verus!
