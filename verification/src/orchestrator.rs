//! Per-request orchestration: a request travels from reception through
//! handle acquisition, engine configuration, position loading and a
//! deadline-bounded search to validation of the engine's answer. Every
//! exit path — success or any failure — says what must happen to the
//! handle it held, so no handle is ever stranded checked-out.

use vstd::prelude::*;
use crate::commands::{render, EngineCommand};
use crate::digits::dec_chars;
use crate::pool::HandleOutcome;
use crate::rules::{
    captured_role_of, fen_position_valid, is_castling_of, moved_role_of, promoted_role_of, san_of,
    uci_move_legal, validate_and_describe, RulesError,
};
use crate::strength::{
    calculate_depth_from_elo, calculate_skill_from_elo, lemma_strength_bounds, spec_depth_of,
    spec_skill_of,
};
use crate::uci::{
    castle_king_to_name, from_square_name, is_uci_move, role_name, spec_castle_king_to,
    spec_from_square, spec_role_name, spec_to_square, to_square_name, uci_wf,
};

verus! {

/// The request-level error taxonomy.
#[derive(PartialEq, Eq, Structural, Clone, Copy, Debug)]
pub enum ServiceError {
    /// Bad input: the position encoding was rejected.
    Validation,
    /// Process failure, malformed protocol output, or an illegal engine
    /// answer (protocol desynchronization).
    Engine,
    /// The search deadline expired.
    Timeout,
    /// No handle became free within the waiter-queue bound.
    PoolExhausted,
    /// The pool is shut down.
    PoolClosed,
}

/// The status class an error surfaces as at the transport boundary.
#[derive(PartialEq, Eq, Structural, Clone, Copy, Debug)]
pub enum StatusKind {
    InvalidArgument,
    DeadlineExceeded,
    ResourceExhausted,
    Internal,
}

pub open spec fn spec_status_of(e: ServiceError) -> StatusKind {
    match e {
        ServiceError::Validation => StatusKind::InvalidArgument,
        ServiceError::Engine => StatusKind::Internal,
        ServiceError::Timeout => StatusKind::DeadlineExceeded,
        ServiceError::PoolExhausted => StatusKind::ResourceExhausted,
        ServiceError::PoolClosed => StatusKind::ResourceExhausted,
    }
}

/// Maps an error to its transport status class.
pub fn status_of(e: &ServiceError) -> (r: StatusKind)
    ensures
        r == spec_status_of(*e),
{
    match e {
        ServiceError::Validation => StatusKind::InvalidArgument,
        ServiceError::Engine => StatusKind::Internal,
        ServiceError::Timeout => StatusKind::DeadlineExceeded,
        ServiceError::PoolExhausted => StatusKind::ResourceExhausted,
        ServiceError::PoolClosed => StatusKind::ResourceExhausted,
    }
}

/// The structured answer for a completed request.
pub struct MoveResult {
    pub best_move: String,
    pub score: i32,
    pub from: String,
    pub to: String,
    pub piece: String,
    pub captured: Option<String>,
    pub promotion: Option<String>,
    pub san: String,
}

/// What every field of a completed answer must be, given the request's
/// position, the engine's move code and its reported score: the move code
/// itself, the squares read off the code (with the king's destination for
/// castling), the piece names the rules library reported, and its
/// algebraic notation.
pub open spec fn move_result_matches(
    r: MoveResult,
    fen: Seq<char>,
    uci: Seq<char>,
    score: i32,
) -> bool {
    &&& r.best_move@ == uci
    &&& r.score == score
    &&& r.from@ == spec_from_square(uci)
    &&& r.to@ == (if is_castling_of(fen, uci) {
        spec_castle_king_to(uci)
    } else {
        spec_to_square(uci)
    })
    &&& r.piece@ == spec_role_name(moved_role_of(fen, uci))
    &&& (match captured_role_of(fen, uci) {
        Some(c) => r.captured is Some && r.captured->0@ == spec_role_name(c),
        None => r.captured is None,
    })
    &&& (match promoted_role_of(fen, uci) {
        Some(c) => r.promotion is Some && r.promotion->0@ == spec_role_name(c),
        None => r.promotion is None,
    })
    &&& r.san@ == san_of(fen, uci)
}

/// Validates the engine's answer against the requested position and
/// assembles the structured answer. A malformed or illegal answer is a
/// protocol desynchronization — an engine failure, never a crash of the
/// service; a rejected position is a validation failure.
pub fn validate_engine_move(fen: &str, uci: &str, score: i32) -> (r: Result<
    MoveResult,
    ServiceError,
>)
    ensures
        r is Ok <==> uci_wf(uci@) && fen_position_valid(fen@) && uci_move_legal(fen@, uci@),
        r is Ok ==> move_result_matches(r->Ok_0, fen@, uci@, score),
        !uci_wf(uci@) ==> r == Err::<MoveResult, ServiceError>(ServiceError::Engine),
        uci_wf(uci@) && !fen_position_valid(fen@) ==> r == Err::<MoveResult, ServiceError>(
            ServiceError::Validation,
        ),
        uci_wf(uci@) && fen_position_valid(fen@) && !uci_move_legal(fen@, uci@) ==> r == Err::<
            MoveResult,
            ServiceError,
        >(ServiceError::Engine),
{
    if !is_uci_move(uci) {
        return Err(ServiceError::Engine);
    }
    match validate_and_describe(fen, uci) {
        Err(RulesError::InvalidPosition) => Err(ServiceError::Validation),
        Err(RulesError::IllegalMove) => Err(ServiceError::Engine),
        Ok(facts) => {
            let to = if facts.castle {
                castle_king_to_name(uci)
            } else {
                to_square_name(uci)
            };
            let captured = match facts.capture {
                Some(c) => Some(role_name(c)),
                None => None,
            };
            let promotion = match facts.promotion {
                Some(c) => Some(role_name(c)),
                None => None,
            };
            Ok(
                MoveResult {
                    best_move: uci.to_owned(),
                    score,
                    from: from_square_name(uci),
                    to,
                    piece: role_name(facts.role),
                    captured,
                    promotion,
                    san: facts.san,
                },
            )
        },
    }
}

/// The exact command lines that configure a checked-out handle for a
/// request and start its search: strength option, single best line,
/// position load, then the depth-bounded search, in that order.
pub fn checkout_commands(elo: i32, fen: &str) -> (r: Vec<String>)
    ensures
        r@.len() == 4,
        r@[0]@ == "setoption name Skill Level value "@ + dec_chars(spec_skill_of(elo as int)),
        r@[1]@ == "setoption name MultiPV value "@ + dec_chars(1),
        r@[2]@ == "position fen "@ + fen@,
        r@[3]@ == "go depth "@ + dec_chars(spec_depth_of(elo as int)),
{
    proof {
        lemma_strength_bounds(elo as int);
    }
    let skill = calculate_skill_from_elo(elo);
    let depth = calculate_depth_from_elo(elo);
    let mut r: Vec<String> = Vec::new();
    r.push(render(&EngineCommand::SetSkillLevel(skill as u8)));
    r.push(render(&EngineCommand::SetMultiPv(1)));
    r.push(render(&EngineCommand::SetPosition(fen.to_owned())));
    r.push(render(&EngineCommand::GoDepth(depth)));
    r
}

/// Where a request stands.
pub enum RequestPhase {
    /// The request arrived and nothing has been done yet.
    Received,
    /// The pool has been asked for a handle.
    Acquiring,
    /// A handle is held and its strength options are being set.
    Configuring { handle: u64 },
    /// The position is being loaded on the handle.
    SettingPosition { handle: u64 },
    /// The deadline-bounded search is running on the handle.
    Searching { handle: u64 },
    /// The engine answered; the answer awaits rules validation.
    Validating { handle: u64, uci: String, score: i32 },
    /// The request succeeded; the handle must be recycled as good.
    Completed { handle: u64, result: MoveResult },
    /// The request failed; if a handle was held, it must be recycled as
    /// directed, exactly once.
    Failed { error: ServiceError, recycle: Option<(u64, HandleOutcome)> },
}

/// What the driver observed since the last step.
pub enum RequestEvent {
    /// The request was submitted for processing.
    Submitted,
    /// The pool granted exclusive ownership of a handle.
    Granted { handle: u64 },
    /// The pool refused: closed, or exhausted beyond the queue bound.
    Refused { closed: bool },
    /// The strength options were accepted.
    ConfigureOk,
    /// Setting the strength options failed.
    ConfigureFailed,
    /// The engine accepted the position.
    PositionOk,
    /// The engine cleanly rejected the position.
    PositionRejected,
    /// The process failed while the position was being loaded.
    PositionIoFailed,
    /// The engine reported a best move and a score in time.
    SearchCompleted { uci: String, score: i32 },
    /// The search timed out; the session says how the handle ended.
    SearchTimedOut { disposition: HandleOutcome },
    /// The process failed during the search.
    SearchFailed,
}

/// The handle a phase holds, if any.
pub open spec fn holds_handle(p: RequestPhase) -> Option<u64> {
    match p {
        RequestPhase::Configuring { handle } => Some(handle),
        RequestPhase::SettingPosition { handle } => Some(handle),
        RequestPhase::Searching { handle } => Some(handle),
        RequestPhase::Validating { handle, .. } => Some(handle),
        _ => None,
    }
}

/// Whether a phase is terminal.
pub open spec fn is_terminal(p: RequestPhase) -> bool {
    p is Completed || p is Failed
}

/// Whether a terminal phase directs exactly one recycle of handle `h`.
pub open spec fn terminal_recycles(p: RequestPhase, h: u64) -> bool {
    match p {
        RequestPhase::Completed { handle, .. } => handle == h,
        RequestPhase::Failed { recycle, .. } => recycle is Some && (recycle->0).0 == h,
        _ => false,
    }
}

/// The request state machine's transition table. A failure observed on a
/// held handle directs the handle's recycling: broken for process
/// failures and protocol desynchronization, good for clean position
/// rejection, and as the search session decided for timeouts. An event
/// that cannot belong to the phase is itself a desynchronization and
/// fails the request, recycling any held handle as broken.
pub open spec fn spec_advance(p: RequestPhase, e: RequestEvent) -> RequestPhase {
    match (p, e) {
        (RequestPhase::Received, RequestEvent::Submitted) => RequestPhase::Acquiring,
        (RequestPhase::Acquiring, RequestEvent::Granted { handle }) => RequestPhase::Configuring {
            handle,
        },
        (RequestPhase::Acquiring, RequestEvent::Refused { closed }) => RequestPhase::Failed {
            error: if closed {
                ServiceError::PoolClosed
            } else {
                ServiceError::PoolExhausted
            },
            recycle: None,
        },
        (RequestPhase::Configuring { handle }, RequestEvent::ConfigureOk) => {
            RequestPhase::SettingPosition { handle }
        },
        (RequestPhase::Configuring { handle }, RequestEvent::ConfigureFailed) => {
            RequestPhase::Failed {
                error: ServiceError::Engine,
                recycle: Some((handle, HandleOutcome::Broken)),
            }
        },
        (RequestPhase::SettingPosition { handle }, RequestEvent::PositionOk) => {
            RequestPhase::Searching { handle }
        },
        (RequestPhase::SettingPosition { handle }, RequestEvent::PositionRejected) => {
            RequestPhase::Failed {
                error: ServiceError::Validation,
                recycle: Some((handle, HandleOutcome::Good)),
            }
        },
        (RequestPhase::SettingPosition { handle }, RequestEvent::PositionIoFailed) => {
            RequestPhase::Failed {
                error: ServiceError::Engine,
                recycle: Some((handle, HandleOutcome::Broken)),
            }
        },
        (RequestPhase::Searching { handle }, RequestEvent::SearchCompleted { uci, score }) => {
            RequestPhase::Validating { handle, uci, score }
        },
        (RequestPhase::Searching { handle }, RequestEvent::SearchTimedOut { disposition }) => {
            RequestPhase::Failed {
                error: ServiceError::Timeout,
                recycle: Some((handle, disposition)),
            }
        },
        (RequestPhase::Searching { handle }, RequestEvent::SearchFailed) => RequestPhase::Failed {
            error: ServiceError::Engine,
            recycle: Some((handle, HandleOutcome::Broken)),
        },
        (p2, _) => {
            if is_terminal(p2) {
                p2
            } else {
                RequestPhase::Failed {
                    error: ServiceError::Engine,
                    recycle: match holds_handle(p2) {
                        Some(h) => Some((h, HandleOutcome::Broken)),
                        None => None,
                    },
                }
            }
        },
    }
}

/// Advances a request by one observed event.
pub fn advance(p: RequestPhase, e: RequestEvent) -> (r: RequestPhase)
    ensures
        r == spec_advance(p, e),
{
    match (p, e) {
        (RequestPhase::Received, RequestEvent::Submitted) => RequestPhase::Acquiring,
        (RequestPhase::Acquiring, RequestEvent::Granted { handle }) => RequestPhase::Configuring {
            handle,
        },
        (RequestPhase::Acquiring, RequestEvent::Refused { closed }) => RequestPhase::Failed {
            error: if closed {
                ServiceError::PoolClosed
            } else {
                ServiceError::PoolExhausted
            },
            recycle: None,
        },
        (RequestPhase::Configuring { handle }, RequestEvent::ConfigureOk) => {
            RequestPhase::SettingPosition { handle }
        },
        (RequestPhase::Configuring { handle }, RequestEvent::ConfigureFailed) => {
            RequestPhase::Failed {
                error: ServiceError::Engine,
                recycle: Some((handle, HandleOutcome::Broken)),
            }
        },
        (RequestPhase::SettingPosition { handle }, RequestEvent::PositionOk) => {
            RequestPhase::Searching { handle }
        },
        (RequestPhase::SettingPosition { handle }, RequestEvent::PositionRejected) => {
            RequestPhase::Failed {
                error: ServiceError::Validation,
                recycle: Some((handle, HandleOutcome::Good)),
            }
        },
        (RequestPhase::SettingPosition { handle }, RequestEvent::PositionIoFailed) => {
            RequestPhase::Failed {
                error: ServiceError::Engine,
                recycle: Some((handle, HandleOutcome::Broken)),
            }
        },
        (RequestPhase::Searching { handle }, RequestEvent::SearchCompleted { uci, score }) => {
            RequestPhase::Validating { handle, uci, score }
        },
        (RequestPhase::Searching { handle }, RequestEvent::SearchTimedOut { disposition }) => {
            RequestPhase::Failed {
                error: ServiceError::Timeout,
                recycle: Some((handle, disposition)),
            }
        },
        (RequestPhase::Searching { handle }, RequestEvent::SearchFailed) => RequestPhase::Failed {
            error: ServiceError::Engine,
            recycle: Some((handle, HandleOutcome::Broken)),
        },
        (p2, _) => {
            if matches!(p2, RequestPhase::Completed { .. }) || matches!(
                p2,
                RequestPhase::Failed { .. },
            ) {
                p2
            } else {
                let recycle = match &p2 {
                    RequestPhase::Configuring { handle } => Some((*handle, HandleOutcome::Broken)),
                    RequestPhase::SettingPosition { handle } => Some(
                        (*handle, HandleOutcome::Broken),
                    ),
                    RequestPhase::Searching { handle } => Some((*handle, HandleOutcome::Broken)),
                    RequestPhase::Validating { handle, .. } => Some(
                        (*handle, HandleOutcome::Broken),
                    ),
                    _ => None,
                };
                RequestPhase::Failed { error: ServiceError::Engine, recycle }
            }
        },
    }
}

/// Resolves a request that awaits validation of the engine's answer:
/// a legal answer completes the request; an illegal or malformed one is a
/// desynchronization that destroys the handle; a rejected position fails
/// the request while the handle stays good.
pub fn resolve_validation(fen: &str, handle: u64, uci: &str, score: i32) -> (r: RequestPhase)
    ensures
        uci_wf(uci@) && fen_position_valid(fen@) && uci_move_legal(fen@, uci@) ==> {
            &&& r matches RequestPhase::Completed { handle: h, result } && h == handle
                && move_result_matches(result, fen@, uci@, score)
        },
        !(uci_wf(uci@) && fen_position_valid(fen@) && uci_move_legal(fen@, uci@)) ==> {
            &&& r matches RequestPhase::Failed { error, recycle } && recycle is Some && (recycle->0).0
                == handle && (error is Validation || error is Engine) && (error is Validation ==> (
            recycle->0).1 is Good) && (error is Engine ==> (recycle->0).1 is Broken)
        },
        uci_wf(uci@) && !fen_position_valid(fen@) ==> {
            &&& r matches RequestPhase::Failed { error, recycle } && error is Validation
        },
{
    match validate_engine_move(fen, uci, score) {
        Ok(result) => RequestPhase::Completed { handle, result },
        Err(e) => {
            let outcome = match e {
                ServiceError::Validation => HandleOutcome::Good,
                _ => HandleOutcome::Broken,
            };
            RequestPhase::Failed { error: e, recycle: Some((handle, outcome)) }
        },
    }
}

/// Scoped release: from any phase that holds a handle, one step either
/// still holds that same handle or has reached a terminal phase that
/// directs exactly one recycle of it — no event can strand a handle.
pub proof fn lemma_no_stranded_handle(p: RequestPhase, e: RequestEvent)
    requires
        holds_handle(p) is Some,
    ensures
        holds_handle(spec_advance(p, e)) == holds_handle(p) || terminal_recycles(
            spec_advance(p, e),
            holds_handle(p)->0,
        ),
{
}

/// Round-trip consistency: a completed answer agrees, field by field,
/// with an independent rules check of the same position and move code —
/// the move code itself comes back as the best move, the origin and
/// destination squares are the ones the code names (the king's landing
/// square for castling), and the piece name and algebraic notation are
/// the ones the rules library derives for that position and code.
pub proof fn lemma_round_trip_consistency(
    r: MoveResult,
    fen: Seq<char>,
    uci: Seq<char>,
    score: i32,
)
    requires
        move_result_matches(r, fen, uci, score),
    ensures
        r.best_move@ == uci,
        r.score == score,
        r.from@ == uci.subrange(0, 2),
        !is_castling_of(fen, uci) ==> r.to@ == uci.subrange(2, 4),
        is_castling_of(fen, uci) ==> r.to@ == spec_castle_king_to(uci),
        r.piece@ == spec_role_name(moved_role_of(fen, uci)),
        r.san@ == san_of(fen, uci),
{
}

/// A request that never acquired a handle never directs a recycle.
pub proof fn lemma_no_phantom_recycle(p: RequestPhase, e: RequestEvent, h: u64)
    requires
        holds_handle(p) is None,
        !is_terminal(p),
    ensures
        !terminal_recycles(spec_advance(p, e), h),
{
}

} // verus!
