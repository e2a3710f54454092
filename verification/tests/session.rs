use chess_session::clock::clock_reading;
use chess_session::{check_shape, is_playable, ChessGame, ChessGameBuilder, Move, SessionError, Side};
use pleco::Board;

const START: &str = "rnbqkbnr/pppppppp/8/8/8/8/PPPPPPPP/RNBQKBNR w KQkq - 0 1";

fn three_minutes_ten_millis(start_time: u64) -> ChessGame {
    ChessGameBuilder::new()
        .with_time_limit(1000 * 60 * 3)
        .with_increment(10)
        .build_at(start_time)
}

fn play(game: &mut ChessGame, uci: &str, time_taken: u32) {
    game.play_move(Move::new(String::from(uci), time_taken)).unwrap();
}

#[test]
fn single_move_time_used() {
    let now: u64 = 40_000_000;
    let mut game = ChessGameBuilder::new()
        .with_time_limit(1000 * 60 * 3)
        .with_increment(10)
        .build_at(now - 1000);

    let my_move = Move::new(String::from("e2e4"), 1000);
    game.play_move(my_move).unwrap();
    assert_eq!(game.white_used_time_at(now), 990);
    assert_eq!(game.black_used_time_at(now), 0);
}

#[test]
fn multiple_move_time_elapsed() {
    let now: u64 = 40_000_000;
    let mut game = ChessGameBuilder::new()
        .with_time_limit(1000 * 60 * 3)
        .with_increment(10)
        .build_at(now - 2500);
    let my_move = Move::new(String::from("e2e4"), 1000);
    game.play_move(my_move).unwrap();
    let my_move = Move::new(String::from("a7a6"), 1000);
    game.play_move(my_move).unwrap();
    let my_move = Move::new(String::from("g1h3"), 500);
    game.play_move(my_move).unwrap();
    assert_eq!(game.white_used_time_at(now), 1480);
    assert_eq!(game.black_used_time_at(now), 990);
}

#[test]
fn white_clock_does_not_run_while_black_is_to_move() {
    let mut game = ChessGameBuilder::new()
        .with_time_limit(1000 * 60 * 3)
        .with_increment(10)
        .build();
    play(&mut game, "e2e4", 1000);
    assert_eq!(game.compute_white_used_time(), 990);
    assert_eq!(game.compute_white_moves_time_with_increment(), 990);
    assert!(!game.is_white_time_over());
}

#[test]
fn fresh_session_has_charged_no_time() {
    let game = three_minutes_ten_millis(7000);
    assert_eq!(game.compute_white_moves_pure_time(), 0);
    assert_eq!(game.compute_black_moves_pure_time(), 0);
    assert_eq!(game.compute_total_moves_pure_time(), 0);
    assert_eq!(game.compute_white_moves_time_with_increment(), 0);
    assert_eq!(game.compute_black_moves_time_with_increment(), 0);
    assert_eq!(game.compute_total_move_time_with_increment(), 0);
    assert_eq!(game.white_used_time_at(7000), 0);
    assert_eq!(game.black_used_time_at(7000), 0);
    assert_eq!(game.is_checkmate(), Board::start_pos().checkmate());
    assert!(!game.is_checkmate());
    assert_eq!(game.moves().len(), 0);
}

#[test]
fn fresh_session_runs_the_clock_of_the_side_to_move() {
    let game = three_minutes_ten_millis(7000);
    assert_eq!(game.turn(), Side::White);
    assert_eq!(game.white_used_time_at(7250), 250);
    assert_eq!(game.black_used_time_at(7250), 0);
    assert_eq!(game.current_move_time_at(7250), 250);
    assert_eq!(game.total_elapsed_time_at(7250), 250);
}

#[test]
fn builder_starts_from_the_standard_position() {
    let game = ChessGameBuilder::new().build_at(0);
    assert_eq!(game.compute_current_board().fen(), START);
    assert_eq!(game.initial_board().fen(), START);
    assert_eq!(game.time_limit(), 0);
    assert_eq!(game.increment(), 0);
    assert_eq!(game.start_time(), 0);
}

#[test]
fn builder_keeps_what_it_was_given() {
    let fen = "4k3/8/8/8/8/8/8/R3K3 w - - 0 1";
    let game = ChessGameBuilder::new()
        .with_initial_board(Board::from_fen(fen).unwrap())
        .with_time_limit(60_000)
        .with_increment(2_000)
        .build_at(123);
    assert_eq!(game.initial_board().fen(), fen);
    assert_eq!(game.compute_current_board().fen(), fen);
    assert_eq!(game.time_limit(), 60_000);
    assert_eq!(game.increment(), 2_000);
    assert_eq!(game.start_time(), 123);
    assert_eq!(game.turn(), Side::White);
}

#[test]
fn build_stamps_the_wall_clock() {
    let before = std::time::SystemTime::now()
        .duration_since(std::time::UNIX_EPOCH)
        .unwrap()
        .as_millis() as u64;
    let game = ChessGameBuilder::new().build();
    let after = std::time::SystemTime::now()
        .duration_since(std::time::UNIX_EPOCH)
        .unwrap()
        .as_millis() as u64;
    let stamped = game.start_time();
    assert!(before <= stamped && stamped <= after);
}

#[test]
fn wall_clock_queries_agree_with_a_reading_taken_around_them() {
    let game = ChessGameBuilder::new().with_time_limit(1000).build();
    let first = game.compute_current_move_time();
    let second = game.compute_current_move_time();
    assert!(first <= second);
    assert!(second < 60_000);
    assert_eq!(game.compute_black_used_time(), 0);
    assert!(game.compute_white_used_time() < 60_000);
    assert!(game.compute_total_elapsed_time() < 60_000);
    assert!(!game.is_black_time_over());
}

#[test]
fn playing_a_move_appends_it() {
    let mut game = three_minutes_ten_millis(0);
    assert!(game.is_move_legal(&Move::new(String::from("e2e4"), 5)));
    assert_eq!(game.play_move(Move::new(String::from("e2e4"), 1234)), Ok(()));
    assert_eq!(game.moves().len(), 1);
    assert_eq!(game.moves()[0].uci_move(), "e2e4");
    assert_eq!(game.moves()[0].time_taken(), 1234);
    assert_eq!(game.turn(), Side::Black);

    let mut board = Board::start_pos();
    assert!(board.apply_uci_move("e2e4"));
    assert_eq!(game.compute_current_board().fen(), board.fen());
    assert_ne!(game.compute_current_board().fen(), START);
    assert_eq!(game.initial_board().fen(), START);
}

#[test]
fn illegal_move_is_refused_and_changes_nothing() {
    let mut game = three_minutes_ten_millis(50);
    play(&mut game, "e2e4", 1000);
    let before = game.compute_current_board().fen();

    assert!(!game.is_move_legal(&Move::new(String::from("e2e4"), 1)));
    assert_eq!(
        game.play_move(Move::new(String::from("e2e4"), 700)),
        Err(SessionError::IllegalMove)
    );
    assert_eq!(
        game.play_move(Move::new(String::from("not a move"), 700)),
        Err(SessionError::IllegalMove)
    );
    assert_eq!(
        game.play_move(Move::new(String::new(), 700)),
        Err(SessionError::IllegalMove)
    );

    assert_eq!(game.moves().len(), 1);
    assert_eq!(game.moves()[0].uci_move(), "e2e4");
    assert_eq!(game.moves()[0].time_taken(), 1000);
    assert_eq!(game.compute_current_board().fen(), before);
    assert_eq!(game.compute_total_moves_pure_time(), 1000);
    assert_eq!(game.start_time(), 50);
    assert_eq!(game.time_limit(), 180_000);
    assert_eq!(game.increment(), 10);
}

#[test]
fn undo_on_an_empty_history_is_refused_and_changes_nothing() {
    let mut game = three_minutes_ten_millis(50);
    assert_eq!(game.undo_move(), Err(SessionError::EmptyHistory));
    assert_eq!(game.moves().len(), 0);
    assert_eq!(game.start_time(), 50);
    assert_eq!(game.time_limit(), 180_000);
    assert_eq!(game.increment(), 10);
    assert_eq!(game.compute_current_board().fen(), START);
}

#[test]
fn undo_takes_back_the_only_move() {
    let mut game = three_minutes_ten_millis(50);
    play(&mut game, "e2e4", 1000);
    assert_eq!(game.undo_move(), Ok(()));
    assert_eq!(game.moves().len(), 0);
    assert_eq!(game.compute_current_board().fen(), START);
    assert_eq!(game.turn(), Side::White);
    assert_eq!(game.compute_white_moves_pure_time(), 0);
}

#[test]
fn play_then_undo_restores_the_session() {
    let now: u64 = 90_000;
    let mut game = three_minutes_ten_millis(now - 2000);
    play(&mut game, "e2e4", 1000);
    play(&mut game, "a7a6", 1000);

    let board = game.compute_current_board().fen();
    let white = game.white_used_time_at(now);
    let black = game.black_used_time_at(now);
    let total = game.compute_total_moves_pure_time();
    let mate = game.is_checkmate();

    play(&mut game, "g1h3", 500);
    assert_eq!(game.moves().len(), 3);
    assert_eq!(game.undo_move(), Ok(()));

    assert_eq!(game.moves().len(), 2);
    assert_eq!(game.moves()[0].uci_move(), "e2e4");
    assert_eq!(game.moves()[0].time_taken(), 1000);
    assert_eq!(game.moves()[1].uci_move(), "a7a6");
    assert_eq!(game.moves()[1].time_taken(), 1000);
    assert_eq!(game.compute_current_board().fen(), board);
    assert_eq!(game.white_used_time_at(now), white);
    assert_eq!(game.black_used_time_at(now), black);
    assert_eq!(game.compute_total_moves_pure_time(), total);
    assert_eq!(game.is_checkmate(), mate);
    assert_eq!(game.start_time(), now - 2000);
    assert_eq!(game.time_limit(), 180_000);
    assert_eq!(game.increment(), 10);
}

#[test]
fn pure_times_are_charged_to_the_player_who_moved() {
    let mut game = three_minutes_ten_millis(0);
    play(&mut game, "e2e4", 1000);
    play(&mut game, "a7a6", 700);
    play(&mut game, "g1h3", 500);
    play(&mut game, "a6a5", 40);
    assert_eq!(game.compute_white_moves_pure_time(), 1500);
    assert_eq!(game.compute_black_moves_pure_time(), 740);
    assert_eq!(game.compute_total_moves_pure_time(), 2240);
    assert_eq!(
        game.compute_total_moves_pure_time(),
        game.compute_white_moves_pure_time() + game.compute_black_moves_pure_time()
    );
}

#[test]
fn increment_is_credited_after_each_move() {
    let mut game = three_minutes_ten_millis(0);
    play(&mut game, "e2e4", 1000);
    play(&mut game, "a7a6", 700);
    play(&mut game, "g1h3", 500);
    play(&mut game, "a6a5", 40);
    assert_eq!(game.compute_white_moves_time_with_increment(), 1480);
    assert_eq!(game.compute_black_moves_time_with_increment(), 720);
    assert_eq!(game.compute_total_move_time_with_increment(), 2200);
}

#[test]
fn increment_never_takes_a_total_below_zero() {
    let mut game = ChessGameBuilder::new()
        .with_time_limit(60_000)
        .with_increment(2_000)
        .build_at(0);
    play(&mut game, "e2e4", 1_500);
    assert_eq!(game.compute_white_moves_time_with_increment(), 0);
    assert_eq!(game.compute_white_moves_pure_time(), 1_500);
    assert_eq!(game.compute_black_moves_time_with_increment(), 0);
}

#[test]
fn a_shortfall_is_not_carried_to_later_moves() {
    let mut game = ChessGameBuilder::new()
        .with_time_limit(60_000)
        .with_increment(2_000)
        .build_at(0);
    play(&mut game, "e2e4", 5_000);
    play(&mut game, "e7e5", 100);
    play(&mut game, "g1f3", 500);
    play(&mut game, "b8c6", 2_600);
    play(&mut game, "f1c4", 300);
    // White: 5000 - 2000 = 3000; 3500 - 2000 = 1500; 1800 < 2000, so 0.
    assert_eq!(game.compute_white_moves_time_with_increment(), 0);
    // Black: 100 < 2000, so 0; then 2600 - 2000 = 600.
    assert_eq!(game.compute_black_moves_time_with_increment(), 600);
    assert_eq!(game.compute_white_moves_pure_time(), 5_800);
    assert_eq!(game.compute_black_moves_pure_time(), 2_700);
    // One total: 3000, 1100, 0, 600, 0.
    assert_eq!(game.compute_total_move_time_with_increment(), 0);
}

#[test]
fn current_move_time_is_what_has_passed_since_the_last_move() {
    let mut game = three_minutes_ten_millis(10_000);
    play(&mut game, "e2e4", 1000);
    play(&mut game, "a7a6", 700);
    assert_eq!(game.current_move_time_at(12_000), 300);
    assert_eq!(game.total_elapsed_time_at(12_000), 2_000);
    assert_eq!(game.white_used_time_at(12_000), 990 + 300);
    assert_eq!(game.black_used_time_at(12_000), 690);
}

#[test]
fn a_clock_that_reads_too_early_counts_as_no_time() {
    let mut game = three_minutes_ten_millis(10_000);
    play(&mut game, "e2e4", 1000);
    assert_eq!(game.current_move_time_at(10_999), 0);
    assert_eq!(game.current_move_time_at(11_000), 0);
    assert_eq!(game.current_move_time_at(11_001), 1);
    assert_eq!(game.current_move_time_at(0), 0);
    assert_eq!(game.black_used_time_at(3), 0);
    assert_eq!(game.total_elapsed_time_at(3), 1000);
}

#[test]
fn a_start_time_near_the_top_of_the_range_does_not_wrap() {
    let mut game = three_minutes_ten_millis(u64::MAX - 5);
    play(&mut game, "e2e4", 1000);
    assert_eq!(game.current_move_time_at(u64::MAX), 0);
    assert_eq!(game.black_used_time_at(u64::MAX), 0);
    assert_eq!(game.white_used_time_at(u64::MAX), 990);
}

#[test]
fn a_session_can_run_for_longer_than_32_bits_of_milliseconds() {
    let start: u64 = 1_700_000_000_000;
    let mut game = three_minutes_ten_millis(start);
    play(&mut game, "e2e4", 1000);
    let now = start + 5_000_000_000;
    assert_eq!(game.current_move_time_at(now), 4_999_999_000);
    assert_eq!(game.black_used_time_at(now), 4_999_999_000);
    assert_eq!(game.white_used_time_at(now), 990);
    assert_eq!(game.total_elapsed_time_at(now), 5_000_000_000);
    assert!(game.is_black_time_over_at(now));
    assert!(!game.is_white_time_over_at(now));
    assert_eq!(game.start_time(), start);
}

#[test]
fn time_is_over_only_beyond_the_limit() {
    let mut game = ChessGameBuilder::new()
        .with_time_limit(1_000)
        .with_increment(0)
        .build_at(0);
    play(&mut game, "e2e4", 1_000);
    assert!(!game.is_white_time_over_at(1_000));
    assert!(!game.is_black_time_over_at(2_000));
    assert!(game.is_black_time_over_at(2_001));
    play(&mut game, "e7e5", 1_001);
    assert!(game.is_black_time_over_at(2_001));
    assert!(!game.is_white_time_over_at(2_001));
    assert!(game.is_white_time_over_at(2_002));
}

#[test]
fn board_at_turn_replays_a_prefix() {
    let mut game = three_minutes_ten_millis(0);
    play(&mut game, "e2e4", 1);
    play(&mut game, "a7a6", 1);
    play(&mut game, "g1h3", 1);

    let mut board = Board::start_pos();
    assert_eq!(game.compute_board_at_turn(0).fen(), board.fen());
    board.apply_uci_move("e2e4");
    assert_eq!(game.compute_board_at_turn(1).fen(), board.fen());
    board.apply_uci_move("a7a6");
    assert_eq!(game.compute_board_at_turn(2).fen(), board.fen());
    board.apply_uci_move("g1h3");
    assert_eq!(game.compute_board_at_turn(3).fen(), board.fen());
    assert_eq!(game.compute_board_at_turn(4).fen(), board.fen());
    assert_eq!(game.compute_board_at_turn(u16::MAX).fen(), board.fen());
    assert_eq!(game.compute_current_board().fen(), board.fen());
}

#[test]
fn checkmate_is_the_engines_verdict() {
    let mut game = three_minutes_ten_millis(0);
    play(&mut game, "f2f3", 1);
    play(&mut game, "e7e5", 1);
    play(&mut game, "g2g4", 1);
    assert!(!game.is_checkmate());
    play(&mut game, "d8h4", 1);
    assert!(game.is_checkmate());
    assert_eq!(game.turn(), Side::White);
    assert!(!game.is_move_legal(&Move::new(String::from("a2a3"), 1)));
}

#[test]
fn a_game_can_start_with_black_to_move() {
    let fen = "rnbqkbnr/pppppppp/8/8/8/5N2/PPPPPPPP/RNBQKB1R b KQkq - 1 1";
    let mut game = ChessGameBuilder::new()
        .with_initial_board(Board::from_fen(fen).unwrap())
        .with_increment(10)
        .build_at(0);
    assert_eq!(game.turn(), Side::Black);
    assert_eq!(game.black_used_time_at(400), 400);
    assert_eq!(game.white_used_time_at(400), 0);
    play(&mut game, "a7a6", 400);
    assert_eq!(game.compute_black_moves_pure_time(), 400);
    assert_eq!(game.compute_white_moves_pure_time(), 0);
    assert_eq!(game.compute_black_moves_time_with_increment(), 390);
}

#[test]
fn sides_are_each_others_opponents() {
    assert_eq!(Side::White.opponent(), Side::Black);
    assert_eq!(Side::Black.opponent(), Side::White);
}

#[test]
fn errors_describe_themselves() {
    assert_eq!(SessionError::IllegalMove.message(), "Tried playing an illegal move");
    assert_eq!(
        SessionError::EmptyHistory.message(),
        "Tried undoing a move when there are no moves to undo"
    );
}

#[test]
fn a_move_keeps_its_text_and_time() {
    let mov = Move::new(String::from("e7e8q"), 321);
    assert_eq!(mov.uci_move(), "e7e8q");
    assert_eq!(mov.time_taken(), 321);
    let copy = mov.clone();
    assert_eq!(copy.uci_move(), "e7e8q");
    assert_eq!(copy.time_taken(), 321);
}

#[test]
fn clock_reading_is_the_milliseconds_in_64_bits() {
    assert_eq!(clock_reading(0), 0);
    assert_eq!(clock_reading(4_294_967_296), 4_294_967_296);
    assert_eq!(clock_reading(1_700_000_000_123), 1_700_000_000_123);
    assert_eq!(clock_reading(u64::MAX as u128), u64::MAX);
    assert_eq!(clock_reading(u64::MAX as u128 + 1), u64::MAX);
    assert_eq!(clock_reading(u128::MAX), u64::MAX);
}

#[test]
fn the_standard_start_is_playable() {
    let board = Board::start_pos();
    assert!(is_playable(&board));
    let game = ChessGameBuilder::new().build_at(0);
    assert_eq!(game.capacity(), 32766);
}

#[test]
fn a_position_with_the_waiting_king_in_check_is_not_playable() {
    let board = Board::from_fen("4k3/8/8/8/8/8/8/4R2K w - - 0 1").unwrap();
    assert!(!is_playable(&board));
    assert!(ChessGameBuilder::new()
        .with_time_limit(5)
        .with_initial_board_if_playable(board)
        .is_err());
}

#[test]
fn a_refused_board_leaves_the_setup_as_it_was() {
    let board = Board::from_fen("4k3/8/8/8/8/8/8/4R2K w - - 0 1").unwrap();
    let setup = match ChessGameBuilder::new()
        .with_time_limit(5)
        .with_increment(3)
        .with_initial_board_if_playable(board)
    {
        Err(setup) => setup,
        Ok(_) => panic!("the board must be refused"),
    };
    let game = setup.build_at(9);
    assert_eq!(game.initial_board().fen(), START);
    assert_eq!(game.time_limit(), 5);
    assert_eq!(game.increment(), 3);
}

#[test]
fn a_playable_board_is_taken() {
    let fen = "4k3/8/8/8/8/8/8/R3K3 w Q - 12 40";
    let board = Board::from_fen(fen).unwrap();
    assert!(is_playable(&board));
    let game = match ChessGameBuilder::new().with_initial_board_if_playable(board) {
        Ok(setup) => setup.build_at(0),
        Err(_) => panic!("the board must be taken"),
    };
    assert_eq!(game.initial_board().fen(), fen);
    assert_eq!(game.turn(), Side::White);
    // 78 half-moves have been played, so the half-move counter leaves room
    // for 65534 - 78 moves and the clock for 32766 - 12.
    assert_eq!(game.capacity(), 32754);
}

#[test]
fn castling_rights_without_the_rook_are_not_playable() {
    let board = Board::from_fen("4k3/8/8/8/8/8/8/4K3 w K - 0 1").unwrap();
    assert!(!is_playable(&board));
    let board = Board::from_fen("4k2r/8/8/8/8/8/8/4K3 w k - 0 1").unwrap();
    assert!(is_playable(&board));
    let board = Board::from_fen("3k3r/8/8/8/8/8/8/4K3 w k - 0 1").unwrap();
    assert!(!is_playable(&board));
}

#[test]
fn counters_at_their_limit_are_not_playable() {
    let board = Board::from_fen("4k3/8/8/8/8/8/8/R3K3 w - - 32766 1").unwrap();
    assert!(is_playable(&board));
    let board = Board::from_fen("4k3/8/8/8/8/8/8/R3K3 w - - 32767 1").unwrap();
    assert!(!is_playable(&board));
    let board = Board::from_fen("4k3/8/8/8/8/8/8/R3K3 b - - 0 32768").unwrap();
    assert!(!is_playable(&board));
    let board = Board::from_fen("4k3/8/8/8/8/8/8/R3K3 w - - 0 32768").unwrap();
    assert!(is_playable(&board));
}

#[test]
fn a_full_session_still_answers_whether_a_move_is_legal() {
    let board = Board::from_fen("4k3/8/8/8/8/8/8/R3K3 w - - 32766 1").unwrap();
    let game = match ChessGameBuilder::new().with_initial_board_if_playable(board) {
        Ok(setup) => setup.build_at(0),
        Err(_) => panic!("the board must be taken"),
    };
    assert_eq!(game.capacity(), 0);
    assert!(game.is_move_legal(&Move::new(String::from("a1a2"), 1)));
    assert!(!game.is_move_legal(&Move::new(String::from("a1b2"), 1)));
}

#[test]
fn shapes_the_parser_fails_on_are_not_safe() {
    assert!(check_shape(START));
    assert!(check_shape("4k3/8/8/8/8/8/8/R3K3 w - -"));
    assert!(check_shape("4k3/8/8/8/8/8/8/R3K3 w - - 0 -"));
    assert!(check_shape("  4k3/8/8/8/8/8/8/R3K3   w - - 0 32768 "));
    // A castling right the engine does not know.
    assert!(!check_shape("4k3/8/8/8/8/8/8/R3K3 w X - 0 1"));
    // A player without a king, and one with two.
    assert!(!check_shape("8/8/8/8/8/8/8/R3K3 w - - 0 1"));
    assert!(!check_shape("4k3/8/8/8/8/8/8/R2KK3 w - - 0 1"));
    // A rank that goes on after its eighth square.
    assert!(!check_shape("rnbqkbnrr/pppppppp/8/8/8/8/PPPPPPPP/RNBQKBNR w KQkq - 0 1"));
    assert!(!check_shape("rnbqkbnr/79p/8/8/8/8/PPPPPPPP/RNBQKBNR w KQkq - 0 1"));
    assert!(!check_shape("rnbqkbnr/pppppppp/8/8/8/8/8P/RNBQKBNR w KQkq - 0 1"));
    assert!(check_shape("rnbqkbnr/pppppppp/8/8/8/8/44/RNBQKBNR w KQkq - 0 1"));
    assert!(check_shape("rnbqkbnr/pppppppp/8/8/8/8/79/RNBQKBNR w KQkq - 0 1"));
    assert!(check_shape("rnbqkbnr/pppppppp/8/8/8/8/7/RNBQKBNR w KQkq - 0 1"));
    // A move number the engine cannot count from.
    assert!(!check_shape("4k3/8/8/8/8/8/8/R3K3 w - - 0 0"));
    assert!(!check_shape("4k3/8/8/8/8/8/8/R3K3 w - - 0 32769"));
    assert!(!check_shape("4k3/8/8/8/8/8/8/R3K3 w - - 0 100000000000"));
    // Too few or too many fields, and characters that are not plain.
    assert!(!check_shape("4k3/8/8/8/8/8/8/R3K3 w -"));
    assert!(!check_shape("4k3/8/8/8/8/8/8/R3K3 w - - 0 1 1"));
    assert!(!check_shape("4k3/8/8/8/8/8/8/R3K3\tw - - 0 1"));
    assert!(!check_shape(""));
    assert!(!check_shape("This shouldn't parse!"));
}


#[test]
fn a_position_with_more_pieces_than_the_engine_lists_moves_for_is_not_playable() {
    let board =
        Board::from_fen("knQQQQQQ/pp5Q/Q6Q/Q6Q/Q6Q/Q6Q/Q6Q/KQQQQQQQ w - - 0 1").unwrap();
    assert!(!is_playable(&board));
    assert!(ChessGameBuilder::new().with_initial_board_if_playable(board).is_err());
    // Nine queens are one too many: 9 * 27 + 10 = 253.
    let board = Board::from_fen("k7/pp6/8/8/8/8/QQ6/KQQQQQQQ w - - 0 1").unwrap();
    assert!(!is_playable(&board));
    // Eight queens and a rook come to 8 * 27 + 14 + 10 = 240.
    let board = Board::from_fen("k7/pp6/8/8/8/8/QR6/KQQQQQQQ w - - 0 1").unwrap();
    assert!(is_playable(&board));
}

fn crowded_after_one_move() -> ChessGame {
    let board = Board::from_fen("qqqqqqqq/pppppppp/8/8/8/8/8/K6k w - - 0 1").unwrap();
    match ChessGameBuilder::new().with_initial_board_if_playable(board) {
        Ok(setup) => setup.build_at(0),
        Err(_) => panic!("the board must be taken"),
    }
}

#[test]
fn a_move_is_played_where_there_is_room() {
    let mut game = three_minutes_ten_millis(0);
    assert_eq!(
        game.play_move_if_room(Move::new(String::from("e2e4"), 1000)),
        Some(Ok(()))
    );
    assert_eq!(
        game.play_move_if_room(Move::new(String::from("e2e4"), 1000)),
        Some(Err(SessionError::IllegalMove))
    );
    assert_eq!(game.moves().len(), 1);
    assert_eq!(game.compute_white_moves_pure_time(), 1000);
}

#[test]
fn a_move_that_leads_to_a_crowded_position_is_not_played() {
    let mut game = crowded_after_one_move();
    assert!(game.is_move_legal(&Move::new(String::from("a1a2"), 1)));
    assert_eq!(game.play_move_if_room(Move::new(String::from("a1a2"), 1)), None);
    assert_eq!(game.moves().len(), 0);
    assert_eq!(
        game.play_move_if_room(Move::new(String::from("a1a8"), 1)),
        Some(Err(SessionError::IllegalMove))
    );
}

#[test]
fn a_move_beyond_the_capacity_is_not_played() {
    let board = Board::from_fen("4k3/8/8/8/8/8/8/R3K3 w - - 32765 1").unwrap();
    let mut game = match ChessGameBuilder::new().with_initial_board_if_playable(board) {
        Ok(setup) => setup.build_at(0),
        Err(_) => panic!("the board must be taken"),
    };
    assert_eq!(game.capacity(), 1);
    assert_eq!(
        game.play_move_if_room(Move::new(String::from("a1a2"), 1)),
        Some(Ok(()))
    );
    assert_eq!(game.play_move_if_room(Move::new(String::from("e8e7"), 1)), None);
    assert_eq!(
        game.play_move_if_room(Move::new(String::from("e8e1"), 1)),
        Some(Err(SessionError::IllegalMove))
    );
    assert_eq!(game.moves().len(), 1);
    assert_eq!(game.capacity(), 1);
}

#[test]
fn a_move_whose_time_does_not_add_up_is_not_played() {
    let mut game = three_minutes_ten_millis(0);
    play(&mut game, "e2e4", 1000);
    assert_eq!(
        game.play_move_if_room(Move::new(String::from("a7a6"), u32::MAX - 999)),
        None
    );
    assert_eq!(
        game.play_move_if_room(Move::new(String::from("a7a6"), u32::MAX - 1000)),
        Some(Ok(()))
    );
    assert_eq!(game.compute_total_moves_pure_time(), u32::MAX);
    assert_eq!(game.moves().len(), 2);
}
