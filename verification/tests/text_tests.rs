use chess_bot::commands::{render, EngineCommand};
use chess_bot::config::Config;
use chess_bot::digits::parse_dec_token;
use chess_bot::manager::StockfishManager;
use chess_bot::protocol::{is_readyok, parse_bestmove_line};
use chess_bot::uci::is_uci_move;

#[test]
fn command_lines_are_rendered_exactly() {
    assert_eq!(render(&EngineCommand::SetSkillLevel(20)), "setoption name Skill Level value 20");
    assert_eq!(render(&EngineCommand::SetSkillLevel(0)), "setoption name Skill Level value 0");
    assert_eq!(render(&EngineCommand::SetMultiPv(1)), "setoption name MultiPV value 1");
    assert_eq!(
        render(&EngineCommand::SetPosition("8/8/8/8/8/8/8/8 w - - 0 1".to_string())),
        "position fen 8/8/8/8/8/8/8/8 w - - 0 1"
    );
    assert_eq!(render(&EngineCommand::GoDepth(12)), "go depth 12");
    assert_eq!(render(&EngineCommand::NewGame), "ucinewgame");
    assert_eq!(render(&EngineCommand::Stop), "stop");
    assert_eq!(render(&EngineCommand::IsReady), "isready");
}

#[test]
fn bestmove_lines_are_parsed() {
    assert_eq!(parse_bestmove_line("bestmove e2e4"), Some("e2e4".to_string()));
    assert_eq!(parse_bestmove_line("bestmove e2e4 ponder e7e5"), Some("e2e4".to_string()));
    assert_eq!(parse_bestmove_line("bestmove a7a8q"), Some("a7a8q".to_string()));
    assert_eq!(parse_bestmove_line("bestmove"), None);
    assert_eq!(parse_bestmove_line("bestmove "), None);
    assert_eq!(parse_bestmove_line("bestmove  "), None);
    assert_eq!(parse_bestmove_line("info depth 4 score cp 31"), None);
    assert_eq!(parse_bestmove_line(""), None);
}

#[test]
fn idle_confirmation_is_recognized() {
    assert!(is_readyok("readyok"));
    assert!(!is_readyok("readyok "));
    assert!(!is_readyok("ready"));
    assert!(!is_readyok("uciok"));
    assert!(!is_readyok(""));
}

#[test]
fn score_tokens_are_parsed() {
    assert_eq!(parse_dec_token("31"), Some(31));
    assert_eq!(parse_dec_token("-23"), Some(-23));
    assert_eq!(parse_dec_token("0"), Some(0));
    assert_eq!(parse_dec_token("999999999"), Some(999_999_999));
    assert_eq!(parse_dec_token("-999999999"), Some(-999_999_999));
    assert_eq!(parse_dec_token("1234567890"), None);
    assert_eq!(parse_dec_token(""), None);
    assert_eq!(parse_dec_token("-"), None);
    assert_eq!(parse_dec_token("12a"), None);
    assert_eq!(parse_dec_token("cp"), None);
}

#[test]
fn move_codes_are_checked_against_the_grammar() {
    assert!(is_uci_move("e2e4"));
    assert!(is_uci_move("a7a8q"));
    assert!(is_uci_move("h7h8n"));
    assert!(!is_uci_move("e2e"));
    assert!(!is_uci_move("e2e4qq"));
    assert!(!is_uci_move("i2e4"));
    assert!(!is_uci_move("e0e4"));
    assert!(!is_uci_move("e2e4k"));
    assert!(!is_uci_move("0000"));
}

#[test]
fn bind_address_is_rendered() {
    let config = Config { server_host: "0.0.0.0".to_string(), server_port: 50051 };
    assert_eq!(config.server_address(), "0.0.0.0:50051");
    let config = Config { server_host: "localhost".to_string(), server_port: 8080 };
    assert_eq!(config.server_address(), "localhost:8080");
}

#[test]
fn manager_keeps_the_binary_path() {
    let manager = StockfishManager::new("/usr/games/stockfish".to_string());
    assert_eq!(manager.path, "/usr/games/stockfish");
}
