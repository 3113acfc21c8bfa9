use engine_session::config::PromotionChoice;
use engine_session::notation::EngineMove;
use engine_session::protocol::{
    go_line, handshake_line, is_bestmove_line, parse_result, position_line, quit_line, read_forced_end, read_named_move, ready_check_line,
    EndReason, Event, CHANNEL_CAPACITY, FORCED_KILL_TIMEOUT_MS, GRACEFUL_EXIT_TIMEOUT_MS,
    HANDSHAKE_READ_TIMEOUT_MS, THINK_READ_TIMEOUT_MS,
};

fn lines(texts: &[&str]) -> Vec<String> {
    texts.iter().map(|t| t.to_string()).collect()
}

#[test]
fn limits_are_the_documented_ones() {
    assert_eq!(HANDSHAKE_READ_TIMEOUT_MS, 3000);
    assert_eq!(THINK_READ_TIMEOUT_MS, 7000);
    assert_eq!(GRACEFUL_EXIT_TIMEOUT_MS, 1000);
    assert_eq!(FORCED_KILL_TIMEOUT_MS, 500);
    assert_eq!(CHANNEL_CAPACITY, 100);
}

#[test]
fn fixed_lines_end_with_a_newline() {
    assert_eq!(handshake_line(), "uci\n");
    assert_eq!(ready_check_line(), "isready\n");
    assert_eq!(quit_line(), "quit\n");
}

#[test]
fn position_line_carries_the_fen() {
    assert_eq!(
        position_line("rnbqkbnr/pppppppp/8/8/8/8/PPPPPPPP/RNBQKBNR w KQkq - 0 1"),
        "position fen rnbqkbnr/pppppppp/8/8/8/8/PPPPPPPP/RNBQKBNR w KQkq - 0 1\n"
    );
    assert_eq!(position_line(""), "position fen \n");
}

#[test]
fn go_line_carries_depth_and_both_times() {
    assert_eq!(go_line(3, 300000, 300000), "go depth 3 wtime 300000 btime 300000\n");
    assert_eq!(go_line(0, 0, 0), "go depth 0 wtime 0 btime 0\n");
    assert_eq!(go_line(12, 298500, 1), "go depth 12 wtime 298500 btime 1\n");
    assert_eq!(
        go_line(u32::MAX, u128::MAX, 10),
        format!("go depth {} wtime {} btime {}\n", u32::MAX, u128::MAX, 10)
    );
}

#[test]
fn bestmove_marker_is_found_anywhere_in_a_line() {
    assert!(is_bestmove_line("bestmove e2e4\n"));
    assert!(is_bestmove_line("info string bestmove"));
    assert!(!is_bestmove_line("info depth 3\n"));
    assert!(!is_bestmove_line(""));
}

#[test]
fn score_line_declares_draw_by_its_third_word() {
    assert_eq!(read_forced_end("info score draw"), Some(EndReason::Draw));
    assert_eq!(read_forced_end("info score draw\n"), Some(EndReason::Draw));
    assert_eq!(read_forced_end("  x   y   draw   z"), Some(EndReason::Draw));
    assert_eq!(read_forced_end("info draw score"), None);
    assert_eq!(read_forced_end("info score drawn"), None);
    assert_eq!(read_forced_end("info score Draw"), None);
    assert_eq!(read_forced_end("info score"), None);
    assert_eq!(read_forced_end(""), None);
}

#[test]
fn score_line_declares_mate_only_with_zero() {
    assert_eq!(read_forced_end("info score mate 0"), Some(EndReason::Mate));
    assert_eq!(read_forced_end("info score mate 0\n"), Some(EndReason::Mate));
    assert_eq!(read_forced_end("info score mate -0"), Some(EndReason::Mate));
    assert_eq!(read_forced_end("info score mate +0"), Some(EndReason::Mate));
    assert_eq!(read_forced_end("info score mate 00"), Some(EndReason::Mate));
    assert_eq!(read_forced_end("info score mate 1"), None);
    assert_eq!(read_forced_end("info score mate -1"), None);
    assert_eq!(read_forced_end("info score mate 3 nodes 12"), None);
    assert_eq!(read_forced_end("info score mate"), None);
    assert_eq!(read_forced_end("info score mate zero"), None);
    assert_eq!(read_forced_end("info score mate 0x"), None);
    assert_eq!(read_forced_end("info score mate 1000"), None);
    assert_eq!(read_forced_end("info score cp 0"), None);
}

#[test]
fn last_line_names_the_move_by_its_second_word() {
    assert_eq!(
        read_named_move("bestmove e2e4 ponder e7e5"),
        Some(EngineMove { from: 12, to: 28, promotion: None })
    );
    assert_eq!(
        read_named_move("bestmove e7e8q\n"),
        Some(EngineMove { from: 52, to: 60, promotion: Some(PromotionChoice::Queen) })
    );
    assert_eq!(read_named_move("bestmove"), None);
    assert_eq!(read_named_move("bestmove (none)"), None);
    assert_eq!(read_named_move(""), None);
}

#[test]
fn think_cycle_with_ponder_gives_plain_move() {
    let event = parse_result(lines(&[
        "info depth 1 score cp 20\n",
        "info depth 2 score cp 25\n",
        "bestmove e2e4 ponder e7e5",
    ]));
    assert_eq!(event, Event::Move { from: 12, to: 28, promotion: None });
}

#[test]
fn think_cycle_with_promotion_gives_the_piece() {
    let event = parse_result(lines(&["info score cp 900", "bestmove e7e8q"]));
    assert_eq!(
        event,
        Event::Move { from: 52, to: 60, promotion: Some(PromotionChoice::Queen) }
    );
    let event = parse_result(lines(&["info score cp 900", "bestmove a2a1n\n"]));
    assert_eq!(
        event,
        Event::Move { from: 8, to: 0, promotion: Some(PromotionChoice::Knight) }
    );
}

#[test]
fn draw_line_ends_the_game_whatever_the_last_line() {
    for last in ["bestmove e2e4", "bestmove e7e8k", "bestmove", "", "anything at all"] {
        let event = parse_result(lines(&["info score draw", last]));
        assert_eq!(event, Event::GameEnded { reason: EndReason::Draw }, "{last:?}");
    }
    let event = parse_result(lines(&["info depth 9", "x", "info score draw\n", "bestmove a1a2\n"]));
    assert_eq!(event, Event::GameEnded { reason: EndReason::Draw });
}

#[test]
fn mate_in_zero_ends_the_game_whatever_the_last_line() {
    for last in ["bestmove e2e4", "bestmove (none)", "bestmove", ""] {
        let event = parse_result(lines(&["info score mate 0", last]));
        assert_eq!(event, Event::GameEnded { reason: EndReason::Mate }, "{last:?}");
    }
}

#[test]
fn mate_in_some_moves_still_gives_the_move() {
    let event = parse_result(lines(&["info score mate 2", "bestmove h5f7"]));
    assert_eq!(event, Event::Move { from: 39, to: 53, promotion: None });
    let event = parse_result(lines(&["info score mate -1", "bestmove g8h8"]));
    assert_eq!(event, Event::Move { from: 62, to: 63, promotion: None });
}

#[test]
fn only_the_line_before_the_last_is_read_as_score() {
    let event = parse_result(lines(&["info score draw", "info score cp 1", "bestmove e2e4"]));
    assert_eq!(event, Event::Move { from: 12, to: 28, promotion: None });
}

#[test]
fn single_line_is_read_as_the_last_line() {
    assert_eq!(
        parse_result(lines(&["bestmove b1c3"])),
        Event::Move { from: 1, to: 18, promotion: None }
    );
    assert_eq!(
        parse_result(lines(&["info score draw"])),
        Event::Unparsed(lines(&["info score draw"]))
    );
}

#[test]
fn unknown_promotion_letter_hands_the_lines_back() {
    let raw = lines(&["info score cp 3\n", "bestmove e7e8k\n"]);
    assert_eq!(parse_result(raw.clone()), Event::Unparsed(raw));
}

#[test]
fn unreadable_lines_are_handed_back_as_they_are() {
    for last in ["bestmove", "bestmove e2", "bestmove 0000", "bestmove (none)", "", "bestmove i9i9"] {
        let raw = lines(&["info depth 1", last]);
        assert_eq!(parse_result(raw.clone()), Event::Unparsed(raw), "{last:?}");
    }
}

#[test]
fn no_lines_at_all_are_unparsed() {
    assert_eq!(parse_result(Vec::new()), Event::Unparsed(Vec::new()));
}
