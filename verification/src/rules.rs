//! The adapter to the external chess-rules collaborator. The rules
//! library decides whether a position encoding is valid and whether a move
//! code is legal there, and describes a legal move: the role moved, what
//! it captured, what a pawn promoted to, whether the move castles, and
//! the move's standard algebraic notation. All of those are functions of
//! the two strings alone; this module gives each a name and states the
//! adapter's answer over those names.

use vstd::prelude::*;
use crate::uci::is_role_char;

verus! {

/// Whether the rules library accepts `fen` as a valid standard-chess
/// position encoding (board, side to move, castling rights, counters).
pub uninterp spec fn fen_position_valid(fen: Seq<char>) -> bool;

/// Whether the rules library reads `uci` as a move code that is legal in
/// the position encoded by `fen`.
pub uninterp spec fn uci_move_legal(fen: Seq<char>, uci: Seq<char>) -> bool;

/// The role letter of the piece the legal move `uci` moves in `fen`.
pub uninterp spec fn moved_role_of(fen: Seq<char>, uci: Seq<char>) -> char;

/// The role letter of the piece the legal move captures, if any.
pub uninterp spec fn captured_role_of(fen: Seq<char>, uci: Seq<char>) -> Option<char>;

/// The role letter a pawn promotes to under the legal move, if any.
pub uninterp spec fn promoted_role_of(fen: Seq<char>, uci: Seq<char>) -> Option<char>;

/// Whether the legal move is a castling move.
pub uninterp spec fn is_castling_of(fen: Seq<char>, uci: Seq<char>) -> bool;

/// The standard algebraic notation of the legal move in the position.
pub uninterp spec fn san_of(fen: Seq<char>, uci: Seq<char>) -> Seq<char>;

/// Why the rules library rejected a position and move code pair.
#[derive(PartialEq, Eq, Structural)]
pub enum RulesError {
    /// The position encoding does not decode to a valid position.
    InvalidPosition,
    /// The move code is malformed or not legal in the position.
    IllegalMove,
}

/// What the rules library says about a legal move.
pub struct MoveFacts {
    /// Role letter of the moved piece.
    pub role: char,
    /// Role letter of the captured piece, if the move captures.
    pub capture: Option<char>,
    /// Role letter the pawn promotes to, if the move promotes.
    pub promotion: Option<char>,
    /// Whether the move castles.
    pub castle: bool,
    /// The move's standard algebraic notation.
    pub san: String,
}

/// Validates a move code against a position and describes the move.
///
/// Relies on shakmaty: `Fen::from_str` and `Fen::into_position` decide
/// whether the text is a valid standard-chess position; `UciMove::from_str`
/// and `UciMove::to_move` decide whether the code is a legal move there;
/// the returned `Move`'s `role`, `capture`, `promotion` and `is_castle`,
/// and `San::from_move`, describe the legal move. Every one of these is a
/// pure function of the two strings. Role letters come from `Role::char`,
/// which returns one of `p n b r q k`.
#[verifier::external_body]
pub fn validate_and_describe(fen: &str, uci: &str) -> (r: Result<MoveFacts, RulesError>)
    ensures
        (r is Err && r->Err_0 is InvalidPosition) <==> !fen_position_valid(fen@),
        fen_position_valid(fen@) ==> (r is Ok <==> uci_move_legal(fen@, uci@)),
        r is Ok ==> fen_position_valid(fen@) && uci_move_legal(fen@, uci@),
        r is Ok ==> {
            &&& r->Ok_0.role == moved_role_of(fen@, uci@)
            &&& r->Ok_0.capture == captured_role_of(fen@, uci@)
            &&& r->Ok_0.promotion == promoted_role_of(fen@, uci@)
            &&& r->Ok_0.castle == is_castling_of(fen@, uci@)
            &&& r->Ok_0.san@ == san_of(fen@, uci@)
            &&& is_role_char(r->Ok_0.role)
            &&& (r->Ok_0.capture is Some ==> is_role_char(r->Ok_0.capture->0))
            &&& (r->Ok_0.promotion is Some ==> is_role_char(r->Ok_0.promotion->0))
        },
{
    let parsed: shakmaty::fen::Fen = fen.parse().map_err(|_| RulesError::InvalidPosition)?;
    let pos: shakmaty::Chess = parsed
        .into_position(shakmaty::CastlingMode::Standard)
        .map_err(|_| RulesError::InvalidPosition)?;
    let code: shakmaty::uci::UciMove = uci.parse().map_err(|_| RulesError::IllegalMove)?;
    let m = code.to_move(&pos).map_err(|_| RulesError::IllegalMove)?;
    Ok(MoveFacts {
        role: m.role().char(),
        capture: m.capture().map(|c| c.char()),
        promotion: m.promotion().map(|p| p.char()),
        castle: m.is_castle(),
        san: shakmaty::san::San::from_move(&pos, m).to_string(),
    })
}

} // verus!
