//! Construction of the text commands sent to the engine process. Building
//! them from an enum rather than ad hoc formatting keeps malformed or
//! injectable option strings out of the protocol channel.

use vstd::prelude::*;
use crate::digits::{append_dec, dec_chars};

verus! {

/// One command of the engine's line-based text protocol.
pub enum EngineCommand {
    /// Sets the engine's playing-strength option.
    SetSkillLevel(u8),
    /// Sets how many candidate best lines the engine reports.
    SetMultiPv(u8),
    /// Loads the position encoded by a FEN string.
    SetPosition(String),
    /// Starts a search bounded to the given depth.
    GoDepth(u8),
    /// Resets the engine to its baseline state for a new game.
    NewGame,
    /// Asks a computing engine to stop and report its current best move.
    Stop,
    /// Asks the engine to confirm that it is idle and ready.
    IsReady,
}

/// The exact protocol line for a command.
pub open spec fn spec_render(c: EngineCommand) -> Seq<char> {
    match c {
        EngineCommand::SetSkillLevel(v) => "setoption name Skill Level value "@ + dec_chars(
            v as int,
        ),
        EngineCommand::SetMultiPv(v) => "setoption name MultiPV value "@ + dec_chars(v as int),
        EngineCommand::SetPosition(fen) => "position fen "@ + fen@,
        EngineCommand::GoDepth(d) => "go depth "@ + dec_chars(d as int),
        EngineCommand::NewGame => "ucinewgame"@,
        EngineCommand::Stop => "stop"@,
        EngineCommand::IsReady => "isready"@,
    }
}

/// Renders a command as the line to send to the engine.
pub fn render(c: &EngineCommand) -> (r: String)
    ensures
        r@ == spec_render(*c),
{
    match c {
        EngineCommand::SetSkillLevel(v) => {
            let mut s = String::from_str("setoption name Skill Level value ");
            append_dec(&mut s, *v as u64);
            s
        },
        EngineCommand::SetMultiPv(v) => {
            let mut s = String::from_str("setoption name MultiPV value ");
            append_dec(&mut s, *v as u64);
            s
        },
        EngineCommand::SetPosition(fen) => {
            let mut s = String::from_str("position fen ");
            s.append(fen.as_str());
            s
        },
        EngineCommand::GoDepth(d) => {
            let mut s = String::from_str("go depth ");
            append_dec(&mut s, *d as u64);
            s
        },
        EngineCommand::NewGame => String::from_str("ucinewgame"),
        EngineCommand::Stop => String::from_str("stop"),
        EngineCommand::IsReady => String::from_str("isready"),
    }
}

} // verus!
