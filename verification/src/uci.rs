//! The compact move code used to command the engine and read its answer:
//! origin square, destination square, and an optional promotion piece
//! letter, e.g. `e2e4` or `e7e8q`. This module owns the grammar, the
//! square and piece names derived from a code, and the destination of the
//! king for a castling move.

use vstd::prelude::*;

verus! {

/// Whether `c` names a board file, `'a'` through `'h'`.
pub open spec fn is_file_char(c: char) -> bool {
    97 <= c as int && c as int <= 104
}

/// Whether `c` names a board rank, `'1'` through `'8'`.
pub open spec fn is_rank_char(c: char) -> bool {
    49 <= c as int && c as int <= 56
}

/// Whether `c` names a piece a pawn can promote to.
pub open spec fn is_promo_char(c: char) -> bool {
    c == 'q' || c == 'r' || c == 'b' || c == 'n'
}

/// Whether `c` is a piece role letter as the rules library writes them.
pub open spec fn is_role_char(c: char) -> bool {
    c == 'p' || c == 'n' || c == 'b' || c == 'r' || c == 'q' || c == 'k'
}

/// The move-code grammar: two squares, then an optional promotion letter.
pub open spec fn uci_wf(s: Seq<char>) -> bool {
    &&& (s.len() == 4 || s.len() == 5)
    &&& is_file_char(s[0])
    &&& is_rank_char(s[1])
    &&& is_file_char(s[2])
    &&& is_rank_char(s[3])
    &&& (s.len() == 5 ==> is_promo_char(s[4]))
}

/// The origin square's name: the first two characters of the code.
pub open spec fn spec_from_square(s: Seq<char>) -> Seq<char> {
    s.subrange(0, 2)
}

/// The destination square's name for everything but castling: the third
/// and fourth characters of the code.
pub open spec fn spec_to_square(s: Seq<char>) -> Seq<char> {
    s.subrange(2, 4)
}

/// Where the king lands when the move is a castling move: the g-file when
/// castling toward the h-side, the c-file otherwise, on the king's rank.
pub open spec fn spec_castle_king_to(s: Seq<char>) -> Seq<char> {
    if s[2] as int > s[0] as int {
        seq!['g', s[1]]
    } else {
        seq!['c', s[1]]
    }
}

/// The promotion letter of a well-formed code, if any.
pub open spec fn spec_promo_of(s: Seq<char>) -> Option<char> {
    if s.len() == 5 {
        Some(s[4])
    } else {
        None
    }
}

/// Checks a move code against the grammar.
pub fn is_uci_move(s: &str) -> (r: bool)
    ensures
        r == uci_wf(s@),
{
    let n = s.unicode_len();
    if n != 4 && n != 5 {
        return false;
    }
    let c0 = s.get_char(0) as u32;
    let c1 = s.get_char(1) as u32;
    let c2 = s.get_char(2) as u32;
    let c3 = s.get_char(3) as u32;
    if !(97 <= c0 && c0 <= 104 && 49 <= c1 && c1 <= 56 && 97 <= c2 && c2 <= 104 && 49 <= c3 && c3
        <= 56) {
        return false;
    }
    if n == 5 {
        let c4 = s.get_char(4);
        if !(c4 == 'q' || c4 == 'r' || c4 == 'b' || c4 == 'n') {
            return false;
        }
    }
    true
}

/// The origin square's name of a well-formed code.
pub fn from_square_name(s: &str) -> (r: String)
    requires
        uci_wf(s@),
    ensures
        r@ == spec_from_square(s@),
{
    let part = s.substring_char(0, 2);
    part.to_owned()
}

/// The destination square's name of a well-formed, non-castling code.
pub fn to_square_name(s: &str) -> (r: String)
    requires
        uci_wf(s@),
    ensures
        r@ == spec_to_square(s@),
{
    let part = s.substring_char(2, 4);
    part.to_owned()
}

/// The king's destination square for a castling move code.
pub fn castle_king_to_name(s: &str) -> (r: String)
    requires
        uci_wf(s@),
    ensures
        r@ == spec_castle_king_to(s@),
{
    let f_from = s.get_char(0) as u32;
    let f_to = s.get_char(2) as u32;
    let mut out = if f_to > f_from {
        String::from_str("g")
    } else {
        String::from_str("c")
    };
    proof {
        reveal_strlit("g");
        reveal_strlit("c");
    }
    let rank = s.substring_char(1, 2);
    out.append(rank);
    proof {
        assert(out@ =~= spec_castle_king_to(s@));
    }
    out
}

/// The promotion letter of a well-formed code, if any.
pub fn promo_of(s: &str) -> (r: Option<char>)
    requires
        uci_wf(s@),
    ensures
        r == spec_promo_of(s@),
{
    if s.unicode_len() == 5 {
        Some(s.get_char(4))
    } else {
        None
    }
}

/// The English piece name for a role letter, empty for anything else.
pub open spec fn spec_role_name(c: char) -> Seq<char> {
    if c == 'p' {
        "Pawn"@
    } else if c == 'n' {
        "Knight"@
    } else if c == 'b' {
        "Bishop"@
    } else if c == 'r' {
        "Rook"@
    } else if c == 'q' {
        "Queen"@
    } else if c == 'k' {
        "King"@
    } else {
        Seq::<char>::empty()
    }
}

/// The English piece name for a role letter.
pub fn role_name(c: char) -> (r: String)
    requires
        is_role_char(c),
    ensures
        r@ == spec_role_name(c),
{
    if c == 'p' {
        String::from_str("Pawn")
    } else if c == 'n' {
        String::from_str("Knight")
    } else if c == 'b' {
        String::from_str("Bishop")
    } else if c == 'r' {
        String::from_str("Rook")
    } else if c == 'q' {
        String::from_str("Queen")
    } else {
        String::from_str("King")
    }
}

} // verus!
