use chess_bot::orchestrator::{
    advance, checkout_commands, resolve_validation, status_of, validate_engine_move, RequestEvent,
    RequestPhase, ServiceError, StatusKind,
};
use chess_bot::pool::HandleOutcome;
use chess_bot::search::{search_step, SearchAction, SearchEvent, SearchOutcome, SearchPhase};

const START_FEN: &str = "rnbqkbnr/pppppppp/8/8/8/8/PPPPPPPP/RNBQKBNR w KQkq - 0 1";

#[test]
fn opening_request_completes_with_consistent_answer() {
    // a request for the starting position at rating 1500, with the engine
    // simulated to answer a central pawn move
    let commands = checkout_commands(1500, START_FEN);
    assert_eq!(commands[0], "setoption name Skill Level value 4");
    assert_eq!(commands[1], "setoption name MultiPV value 1");
    assert_eq!(commands[2], format!("position fen {}", START_FEN));
    assert_eq!(commands[3], "go depth 4");

    let mut phase = advance(RequestPhase::Received, RequestEvent::Submitted);
    assert!(matches!(phase, RequestPhase::Acquiring));
    phase = advance(phase, RequestEvent::Granted { handle: 7 });
    assert!(matches!(phase, RequestPhase::Configuring { handle: 7 }));
    phase = advance(phase, RequestEvent::ConfigureOk);
    assert!(matches!(phase, RequestPhase::SettingPosition { handle: 7 }));
    phase = advance(phase, RequestEvent::PositionOk);
    assert!(matches!(phase, RequestPhase::Searching { handle: 7 }));
    phase = advance(
        phase,
        RequestEvent::SearchCompleted { uci: "e2e4".to_string(), score: 31 },
    );
    let (handle, uci, score) = match &phase {
        RequestPhase::Validating { handle, uci, score } => (*handle, uci.clone(), *score),
        _ => panic!("expected a validating phase"),
    };
    assert_eq!(handle, 7);
    let done = resolve_validation(START_FEN, handle, &uci, score);
    match done {
        RequestPhase::Completed { handle, result } => {
            assert_eq!(handle, 7);
            assert_eq!(result.best_move, "e2e4");
            assert_eq!(result.score, 31);
            assert_eq!(result.from, "e2");
            assert_eq!(result.to, "e4");
            assert_eq!(result.piece, "Pawn");
            assert_eq!(result.captured, None);
            assert_eq!(result.promotion, None);
            assert_eq!(result.san, "e4");
        }
        _ => panic!("the legal answer should complete the request"),
    }
}

#[test]
fn knight_development_answer() {
    let r = validate_engine_move(START_FEN, "g1f3", 10).expect("legal move");
    assert_eq!(r.best_move, "g1f3");
    assert_eq!(r.from, "g1");
    assert_eq!(r.to, "f3");
    assert_eq!(r.piece, "Knight");
    assert_eq!(r.captured, None);
    assert_eq!(r.san, "Nf3");
}

#[test]
fn capture_is_described() {
    let fen = "k7/8/8/3p4/4P3/8/8/K7 w - - 0 1";
    let r = validate_engine_move(fen, "e4d5", -5).expect("legal capture");
    assert_eq!(r.from, "e4");
    assert_eq!(r.to, "d5");
    assert_eq!(r.piece, "Pawn");
    assert_eq!(r.captured, Some("Pawn".to_string()));
    assert_eq!(r.promotion, None);
    assert_eq!(r.san, "exd5");
}

#[test]
fn en_passant_capture_is_described() {
    let fen = "rnbqkbnr/ppp1pppp/8/8/3pP3/8/PPPP1PPP/RNBQKBNR b KQkq e3 0 3";
    let r = validate_engine_move(fen, "d4e3", 12).expect("legal en passant capture");
    assert_eq!(r.from, "d4");
    assert_eq!(r.to, "e3");
    assert_eq!(r.piece, "Pawn");
    assert_eq!(r.captured, Some("Pawn".to_string()));
    assert_eq!(r.san, "dxe3");
}

#[test]
fn promotion_is_described() {
    let fen = "8/P7/8/8/8/6k1/8/7K w - - 0 1";
    let r = validate_engine_move(fen, "a7a8q", 900).expect("legal promotion");
    assert_eq!(r.from, "a7");
    assert_eq!(r.to, "a8");
    assert_eq!(r.piece, "Pawn");
    assert_eq!(r.promotion, Some("Queen".to_string()));
    assert_eq!(r.san, "a8=Q");
}

#[test]
fn castling_reports_the_king_landing_square() {
    let fen = "r3k2r/8/8/8/8/8/8/R3K2R w KQkq - 0 1";
    let r = validate_engine_move(fen, "e1g1", 0).expect("legal castling");
    assert_eq!(r.from, "e1");
    assert_eq!(r.to, "g1");
    assert_eq!(r.piece, "King");
    assert_eq!(r.san, "O-O");
    let r = validate_engine_move(fen, "e1c1", 0).expect("legal castling");
    assert_eq!(r.from, "e1");
    assert_eq!(r.to, "c1");
    assert_eq!(r.san, "O-O-O");
}

#[test]
fn malformed_answer_is_an_engine_error() {
    assert!(matches!(validate_engine_move(START_FEN, "xx", 0), Err(ServiceError::Engine)));
    assert!(matches!(validate_engine_move(START_FEN, "", 0), Err(ServiceError::Engine)));
    assert!(matches!(validate_engine_move(START_FEN, "e2e9", 0), Err(ServiceError::Engine)));
}

#[test]
fn illegal_answer_is_an_engine_error() {
    // shaped like a move, but not legal in the position: desynchronization
    assert!(matches!(validate_engine_move(START_FEN, "e2e5", 0), Err(ServiceError::Engine)));
    assert!(matches!(validate_engine_move(START_FEN, "e7e5", 0), Err(ServiceError::Engine)));
}

#[test]
fn invalid_position_is_a_validation_error() {
    assert!(matches!(validate_engine_move("not a position", "e2e4", 0), Err(ServiceError::Validation)));
    assert!(matches!(
        validate_engine_move("rnbqkbnr/pppppppp/8/8/8/8/PPPPPPPP w KQkq - 0 1", "e2e4", 0),
        Err(ServiceError::Validation)
    ));
}

#[test]
fn failures_direct_the_handle_recycling() {
    let p = advance(RequestPhase::Configuring { handle: 3 }, RequestEvent::ConfigureFailed);
    assert!(matches!(
        p,
        RequestPhase::Failed {
            error: ServiceError::Engine,
            recycle: Some((3, HandleOutcome::Broken))
        }
    ));
    let p = advance(RequestPhase::SettingPosition { handle: 3 }, RequestEvent::PositionRejected);
    assert!(matches!(
        p,
        RequestPhase::Failed {
            error: ServiceError::Validation,
            recycle: Some((3, HandleOutcome::Good))
        }
    ));
    let p = advance(
        RequestPhase::Searching { handle: 3 },
        RequestEvent::SearchTimedOut { disposition: HandleOutcome::Good },
    );
    assert!(matches!(
        p,
        RequestPhase::Failed {
            error: ServiceError::Timeout,
            recycle: Some((3, HandleOutcome::Good))
        }
    ));
    let p = advance(RequestPhase::Acquiring, RequestEvent::Refused { closed: false });
    assert!(matches!(
        p,
        RequestPhase::Failed { error: ServiceError::PoolExhausted, recycle: None }
    ));
    let p = advance(RequestPhase::Acquiring, RequestEvent::Refused { closed: true });
    assert!(matches!(
        p,
        RequestPhase::Failed { error: ServiceError::PoolClosed, recycle: None }
    ));
}

#[test]
fn error_statuses() {
    assert_eq!(status_of(&ServiceError::Validation), StatusKind::InvalidArgument);
    assert_eq!(status_of(&ServiceError::Engine), StatusKind::Internal);
    assert_eq!(status_of(&ServiceError::Timeout), StatusKind::DeadlineExceeded);
    assert_eq!(status_of(&ServiceError::PoolExhausted), StatusKind::ResourceExhausted);
    assert_eq!(status_of(&ServiceError::PoolClosed), StatusKind::ResourceExhausted);
}

#[test]
fn timeout_sends_stop_and_never_reports_a_stale_move() {
    let (phase, action) = search_step(SearchPhase::Computing, SearchEvent::DeadlineExpired);
    assert!(matches!(phase, SearchPhase::Stopping));
    assert_eq!(action, SearchAction::SendStop);
    // a best move that arrives after the deadline is stale and discarded
    let (phase, action) = search_step(phase, SearchEvent::BestMove("e2e4".to_string()));
    assert!(matches!(phase, SearchPhase::Stopping));
    assert_eq!(action, SearchAction::Wait);
    // only the idle confirmation releases the handle as good
    let (phase, _) = search_step(phase, SearchEvent::IdleConfirmed);
    match phase {
        SearchPhase::Done(end) => {
            assert!(matches!(end.outcome, SearchOutcome::TimedOut));
            assert_eq!(end.disposition, HandleOutcome::Good);
        }
        _ => panic!("the session should be over"),
    }
}

#[test]
fn grace_expiry_destroys_the_handle() {
    let (phase, _) = search_step(SearchPhase::Computing, SearchEvent::DeadlineExpired);
    let (phase, _) = search_step(phase, SearchEvent::GraceExpired);
    match phase {
        SearchPhase::Done(end) => {
            assert!(matches!(end.outcome, SearchOutcome::TimedOut));
            assert_eq!(end.disposition, HandleOutcome::Broken);
        }
        _ => panic!("the session should be over"),
    }
}

#[test]
fn completed_search_keeps_the_handle_good() {
    let (phase, _) = search_step(SearchPhase::Computing, SearchEvent::BestMove("d2d4".to_string()));
    match phase {
        SearchPhase::Done(end) => {
            match end.outcome {
                SearchOutcome::Completed(line) => assert_eq!(line, "d2d4"),
                _ => panic!("the search completed"),
            }
            assert_eq!(end.disposition, HandleOutcome::Good);
        }
        _ => panic!("the session should be over"),
    }
}

#[test]
fn process_failure_mid_search_is_fatal_to_the_handle() {
    let (phase, _) = search_step(SearchPhase::Computing, SearchEvent::IoError);
    match phase {
        SearchPhase::Done(end) => {
            assert!(matches!(end.outcome, SearchOutcome::Failed));
            assert_eq!(end.disposition, HandleOutcome::Broken);
        }
        _ => panic!("the session should be over"),
    }
}
