//! Moves of the game: skip, place a new piece, or drag a placed piece,
//! with their text and XML wire encodings.
use crate::gamestate::Color;
use crate::piece_type::PieceType;
use crate::textcodec::{
    all_digits, dec_digits, dec_val, parse_u128, render_u128, split_spaces, split_spaces_exec,
    token_ieq, token_matches_ci,
};
use vstd::prelude::*;

verus! {

#[derive(Copy, Clone, PartialEq, Eq, Structural, Debug)]
pub enum Action {
    SkipMove,
    SetMove(PieceType, u8),
    DragMove(PieceType, u8, u8),
}

/// Decimal digits of `n`, with a leading minus sign when `n` is negative.
pub open spec fn signed_dec_digits(n: int) -> Seq<char> {
    if n < 0 {
        seq!['-'] + dec_digits((-n) as nat)
    } else {
        dec_digits(n as nat)
    }
}

/// Renders a small signed coordinate in decimal.
fn render_coord(n: i64) -> (s: String)
    requires
        -1000 < n < 1000,
    ensures
        s@ == signed_dec_digits(n as int),
{
    if n < 0 {
        let mut s = String::from_str("-");
        s.append(render_u128((-n) as u128).as_str());
        proof {
            reveal_strlit("-");
            assert(s@ =~= signed_dec_digits(n as int));
        }
        s
    } else {
        render_u128(n as u128)
    }
}

impl Action {
    /// The text form of this action: the action name, then the piece
    /// letter and the cell numbers, separated by single spaces.
    pub open spec fn spec_string(self) -> Seq<char> {
        match self {
            Action::SkipMove => "SkipMove"@,
            Action::SetMove(pt, to) => "SetMove"@ + " "@ + seq![pt.spec_letter()] + " "@
                + dec_digits(to as nat),
            Action::DragMove(pt, from, to) => "DragMove"@ + " "@ + seq![pt.spec_letter()] + " "@
                + dec_digits(from as nat) + " "@ + dec_digits(to as nat),
        }
    }

    pub fn to_string(&self) -> (r: String)
        ensures
            r@ == self.spec_string(),
    {
        match self {
            Action::SkipMove => String::from_str("SkipMove"),
            Action::SetMove(pt, to) => {
                let mut s = String::from_str("SetMove");
                s.append(" ");
                s.append(pt.to_string().as_str());
                s.append(" ");
                s.append(render_u128(*to as u128).as_str());
                proof {
                    assert(s@ =~= self.spec_string());
                }
                s
            },
            Action::DragMove(pt, from, to) => {
                let mut s = String::from_str("DragMove");
                s.append(" ");
                s.append(pt.to_string().as_str());
                s.append(" ");
                s.append(render_u128(*from as u128).as_str());
                s.append(" ");
                s.append(render_u128(*to as u128).as_str());
                proof {
                    assert(s@ =~= self.spec_string());
                }
                s
            },
        }
    }

    /// The piece kind named by a one-character token, if any.
    pub open spec fn spec_letter_piece(t: Seq<char>) -> Option<PieceType> {
        if t.len() != 1 {
            None
        } else if t[0] == 'Q' || t[0] == 'q' {
            Some(PieceType::BEE)
        } else if t[0] == 'A' || t[0] == 'a' {
            Some(PieceType::ANT)
        } else if t[0] == 'B' || t[0] == 'b' {
            Some(PieceType::BEETLE)
        } else if t[0] == 'G' || t[0] == 'g' {
            Some(PieceType::GRASSHOPPER)
        } else if t[0] == 'S' || t[0] == 's' {
            Some(PieceType::SPIDER)
        } else {
            None
        }
    }

    /// A token holding a decimal cell number that fits in eight bits.
    pub open spec fn spec_cell_token(t: Seq<char>) -> bool {
        all_digits(t) && t.len() > 0 && dec_val(t) <= 255
    }

    /// The action a text form stands for: `None` when the token count,
    /// the action name, the piece letter or a cell number is bad.
    pub open spec fn spec_parse(s: Seq<char>) -> Option<Action> {
        let toks = split_spaces(s);
        if toks.len() == 1 && token_ieq(toks[0], "SkipMove"@) {
            Some(Action::SkipMove)
        } else if toks.len() == 3 && token_ieq(toks[0], "SetMove"@) && Self::spec_letter_piece(
            toks[1],
        ) is Some && Self::spec_cell_token(toks[2]) {
            Some(
                Action::SetMove(
                    Self::spec_letter_piece(toks[1])->Some_0,
                    dec_val(toks[2]) as u8,
                ),
            )
        } else if toks.len() == 4 && token_ieq(toks[0], "DragMove"@) && Self::spec_letter_piece(
            toks[1],
        ) is Some && Self::spec_cell_token(toks[2]) && Self::spec_cell_token(toks[3]) {
            Some(
                Action::DragMove(
                    Self::spec_letter_piece(toks[1])->Some_0,
                    dec_val(toks[2]) as u8,
                    dec_val(toks[3]) as u8,
                ),
            )
        } else {
            None
        }
    }

    /// Reads an action back from its text form.
    pub fn from_string(s: String) -> (r: Option<Action>)
        requires
            s.is_ascii(),
        ensures
            r == Self::spec_parse(s@),
    {
        let toks = split_spaces_exec(&s);
        let ghost gtoks = split_spaces(s@);
        proof {
            assert(gtoks == toks@.map_values(|t: String| t@));
            assert forall|j: int| 0 <= j < toks@.len() implies gtoks[j] == (
            #[trigger] toks@[j])@ by {}
        }
        if toks.len() == 1 && token_matches_ci(&toks[0], "SkipMove") {
            return Some(Action::SkipMove);
        }
        if toks.len() == 3 && token_matches_ci(&toks[0], "SetMove") {
            let pt_opt = PieceType::from_string(toks[1].clone());
            let num_opt = parse_u128(&toks[2]);
            proof {
                match pt_opt {
                    Some(ptv) => lemma_letter_piece(gtoks[1], ptv),
                    None => lemma_letter_piece_none(gtoks[1]),
                }
            }
            if let (Some(pt), Some(v)) = (pt_opt, num_opt) {
                if v <= 255 {
                    return Some(Action::SetMove(pt, v as u8));
                }
            }
            None
        } else if toks.len() == 4 && token_matches_ci(&toks[0], "DragMove") {
            let pt_opt = PieceType::from_string(toks[1].clone());
            let from_opt = parse_u128(&toks[2]);
            let to_opt = parse_u128(&toks[3]);
            proof {
                match pt_opt {
                    Some(ptv) => lemma_letter_piece(gtoks[1], ptv),
                    None => lemma_letter_piece_none(gtoks[1]),
                }
            }
            if let (Some(pt), Some(f), Some(t)) = (pt_opt, from_opt, to_opt) {
                if f <= 255 && t <= 255 {
                    return Some(Action::DragMove(pt, f as u8, t as u8));
                }
            }
            None
        } else {
            None
        }
    }
}

/// A successful piece-letter read agrees with the spec-level letter table.
proof fn lemma_letter_piece(t: Seq<char>, pt: PieceType)
    requires
        t.len() == 1,
        t[0] == pt.spec_letter() || t[0] == pt.spec_lower_letter(),
    ensures
        Action::spec_letter_piece(t) == Some(pt),
{
}

/// A failed piece-letter read means the letter table has no entry either.
proof fn lemma_letter_piece_none(t: Seq<char>)
    requires
        !(t.len() == 1 && crate::piece_type::is_piece_letter(t[0])),
    ensures
        Action::spec_letter_piece(t) is None,
{
}

impl Action {
    /// The coordinates of cell `i` in the wire protocol's cube frame.
    pub open spec fn spec_cube_coords(i: int) -> (int, int, int) {
        let x = i % 11 - 5;
        let z = -(i / 11 - 5);
        (x, -z - x, z)
    }

    /// One XML coordinate triple attribute text.
    pub open spec fn spec_coord_attrs(i: int) -> Seq<char> {
        "x=\""@ + signed_dec_digits(Self::spec_cube_coords(i).0) + "\" y=\""@
            + signed_dec_digits(Self::spec_cube_coords(i).1) + "\" z=\""@ + signed_dec_digits(
            Self::spec_cube_coords(i).2,
        ) + "\" />"@
    }

    /// Renders a cell's cube coordinates as XML attributes.
    fn coord_attrs(i: u8) -> (r: String)
        requires
            i < 121,
        ensures
            r@ == Self::spec_coord_attrs(i as int),
    {
        let x: i64 = (i as i64) % 11 - 5;
        let z: i64 = -((i as i64) / 11 - 5);
        let y: i64 = -z - x;
        let mut s = String::from_str("x=\"");
        s.append(render_coord(x).as_str());
        s.append("\" y=\"");
        s.append(render_coord(y).as_str());
        s.append("\" z=\"");
        s.append(render_coord(z).as_str());
        s.append("\" />");
        proof {
            assert(s@ =~= Self::spec_coord_attrs(i as int));
        }
        s
    }

    /// The protocol name of a piece kind.
    pub open spec fn spec_kind_name(pt: PieceType) -> Seq<char> {
        match pt {
            PieceType::ANT => "ANT"@,
            PieceType::BEE => "BEE"@,
            PieceType::BEETLE => "BEETLE"@,
            PieceType::SPIDER => "SPIDER"@,
            PieceType::GRASSHOPPER => "GRASSHOPPER"@,
        }
    }

    /// The protocol name of a piece kind.
    fn kind_name(pt: PieceType) -> (r: &'static str)
        ensures
            r@ == Self::spec_kind_name(pt),
    {
        match pt {
            PieceType::ANT => "ANT",
            PieceType::BEE => "BEE",
            PieceType::BEETLE => "BEETLE",
            PieceType::SPIDER => "SPIDER",
            PieceType::GRASSHOPPER => "GRASSHOPPER",
        }
    }

    /// The XML message of this action in the wire protocol, for `color`.
    pub open spec fn spec_xml(self, color: Color) -> Seq<char> {
        match self {
            Action::SkipMove => "<data class=\"skipmove\" />"@,
            Action::SetMove(pt, to) => "<data class=\"setmove\">\n  <piece owner=\""@
                + color.spec_string() + "\" type=\""@ + Self::spec_kind_name(pt)
                + "\" />\n  <destination "@ + Self::spec_coord_attrs(to as int) + "\n</data>"@,
            Action::DragMove(pt, from, to) => "<data class=\"dragmove\"><start "@
                + Self::spec_coord_attrs(from as int) + "<destination "@ + Self::spec_coord_attrs(
                to as int,
            ) + "</data>"@,
        }
    }

    /// Renders this action as its XML wire message for `color`.
    pub fn get_xml(&self, color: Color) -> (r: String)
        requires
            self matches Action::SetMove(pt, to) ==> to < 121,
            self matches Action::DragMove(pt, from, to) ==> from < 121 && to < 121,
        ensures
            r@ == self.spec_xml(color),
    {
        match self {
            Action::SkipMove => String::from_str("<data class=\"skipmove\" />"),
            Action::SetMove(pt, to) => {
                let mut s = String::from_str("<data class=\"setmove\">\n  <piece owner=\"");
                s.append(color.to_string().as_str());
                s.append("\" type=\"");
                s.append(Self::kind_name(*pt));
                s.append("\" />\n  <destination ");
                s.append(Self::coord_attrs(*to).as_str());
                s.append("\n</data>");
                proof {
                    assert(s@ =~= self.spec_xml(color));
                }
                s
            },
            Action::DragMove(pt, from, to) => {
                let mut s = String::from_str("<data class=\"dragmove\"><start ");
                s.append(Self::coord_attrs(*from).as_str());
                s.append("<destination ");
                s.append(Self::coord_attrs(*to).as_str());
                s.append("</data>");
                proof {
                    assert(s@ =~= self.spec_xml(color));
                }
                s
            },
        }
    }
}

} // verus!
