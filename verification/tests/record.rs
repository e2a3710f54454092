use chess_session::{
    ChessGame, ChessGameBuilder, FieldName, Move, RecordError, RecordFields, SessionRecord,
};
use pleco::Board;

const START: &str = "rnbqkbnr/pppppppp/8/8/8/8/PPPPPPPP/RNBQKBNR w KQkq - 0 1";

fn sample_game() -> ChessGame {
    let mut game = ChessGameBuilder::new()
        .with_time_limit(180_000)
        .with_increment(10)
        .build_at(4_000);
    game.play_move(Move::new(String::from("e2e4"), 1000)).unwrap();
    game.play_move(Move::new(String::from("a7a6"), 700)).unwrap();
    game
}

fn read_back(record: SessionRecord) -> Result<ChessGame, RecordError> {
    ChessGame::load(record)
}

fn with_notation(notation: &str) -> SessionRecord {
    let mut record = sample_game().to_record();
    record.initial_board = String::from(notation);
    record
}

fn refused_notation(notation: &str) {
    match read_back(with_notation(notation)) {
        Err(RecordError::PositionParse { notation: given }) => assert_eq!(given, notation),
        _ => panic!("the notation must be refused"),
    }
}

#[test]
fn record_holds_the_five_fields() {
    let record = sample_game().to_record();
    assert_eq!(record.initial_board, START);
    assert_eq!(record.moves.len(), 2);
    assert_eq!(record.moves[0].uci_move(), "e2e4");
    assert_eq!(record.moves[0].time_taken(), 1000);
    assert_eq!(record.moves[1].uci_move(), "a7a6");
    assert_eq!(record.moves[1].time_taken(), 700);
    assert_eq!(record.start_time, 4_000);
    assert_eq!(record.time_limit, 180_000);
    assert_eq!(record.increment, 10);
}

#[test]
fn record_renders_a_custom_initial_position() {
    let fen = "4k3/8/8/8/8/8/8/R3K3 w - - 0 1";
    let game = ChessGameBuilder::new()
        .with_initial_board(Board::from_fen(fen).unwrap())
        .build_at(0);
    assert_eq!(game.to_record().initial_board, fen);
}

#[test]
fn stored_session_reads_back_the_same() {
    let game = sample_game();
    let restored = match read_back(game.to_record()) {
        Ok(restored) => restored,
        Err(error) => panic!("{:?}", error),
    };
    assert_eq!(restored.moves().len(), 2);
    assert_eq!(restored.moves()[0].uci_move(), "e2e4");
    assert_eq!(restored.moves()[0].time_taken(), 1000);
    assert_eq!(restored.moves()[1].uci_move(), "a7a6");
    assert_eq!(restored.moves()[1].time_taken(), 700);
    assert_eq!(restored.start_time(), game.start_time());
    assert_eq!(restored.time_limit(), game.time_limit());
    assert_eq!(restored.increment(), game.increment());
    assert_eq!(restored.initial_board().fen(), game.initial_board().fen());
    assert_eq!(
        restored.compute_current_board().fen(),
        game.compute_current_board().fen()
    );
    assert_eq!(restored.white_used_time_at(6_000), game.white_used_time_at(6_000));
    assert_eq!(restored.black_used_time_at(6_000), game.black_used_time_at(6_000));
}

#[test]
fn unparsable_notation_is_given_back() {
    let mut record = sample_game().to_record();
    record.initial_board = String::from("This shouldn't parse!");
    match read_back(record) {
        Err(RecordError::PositionParse { notation }) => {
            assert_eq!(notation, "This shouldn't parse!")
        }
        _ => panic!("the notation must be refused"),
    }
}

#[test]
fn notations_the_parser_fails_on_are_refused() {
    refused_notation("4k3/8/8/8/8/8/8/R3K3 w X - 0 1");
    refused_notation("8/8/8/8/8/8/8/R3K3 w - - 0 1");
    refused_notation("4k3/8/8/8/8/8/8/R3K3 w - - 0 0");
    refused_notation("rnbqkbnrr/pppppppp/8/8/8/8/PPPPPPPP/RNBQKBNR w KQkq - 0 1");
    refused_notation("rnbqkbnr/79p/8/8/8/8/PPPPPPPP/RNBQKBNR w KQkq - 0 1");
    refused_notation("");
}

#[test]
fn notations_the_parser_refuses_are_refused() {
    refused_notation("rnbqkbnr/pppppppp/8/8/8/7P/PPPPPPPP/RNBQKBNR w KQkq - 0 1");
    refused_notation("4k3/8/8/8/8/8/8/R3K3 x - - 0 1");
}

#[test]
fn positions_the_engine_does_not_play_from_are_refused() {
    refused_notation("4k3/8/8/8/8/8/8/4R2K w - - 0 1");
    refused_notation("4k3/8/8/8/8/8/8/4K3 w K - 0 1");
    refused_notation("4k3/8/8/8/8/8/8/R3K3 w - - 32767 1");
    refused_notation("knQQQQQQ/pp5Q/Q6Q/Q6Q/Q6Q/Q6Q/Q6Q/KQQQQQQQ w - - 0 1");
}

#[test]
fn a_history_that_leads_to_a_crowded_position_is_refused() {
    let mut record = with_notation("qqqqqqqq/pppppppp/8/8/8/8/8/K6k w - - 0 1");
    record.moves = Vec::new();
    assert!(read_back(record).is_ok());
    let mut record = with_notation("qqqqqqqq/pppppppp/8/8/8/8/8/K6k w - - 0 1");
    record.moves = vec![Move::new(String::from("a1a2"), 5)];
    assert!(matches!(read_back(record), Err(RecordError::HistoryTooLong)));
    let mut record = with_notation("qqqqqqqq/pppppppp/8/8/8/8/8/K6k w - - 0 1");
    record.moves = vec![Move::new(String::from("a1a8"), 5)];
    assert!(read_back(record).is_ok());
}

#[test]
fn a_history_longer_than_the_position_allows_is_refused() {
    let mut record = with_notation("4k3/8/8/8/8/8/8/R3K3 w - - 32765 1");
    record.moves = vec![Move::new(String::from("a1a2"), 5)];
    assert!(read_back(record).is_ok());
    let mut record = with_notation("4k3/8/8/8/8/8/8/R3K3 w - - 32765 1");
    record.moves = vec![
        Move::new(String::from("a1a2"), 5),
        Move::new(String::from("e8e7"), 5),
    ];
    assert!(matches!(read_back(record), Err(RecordError::HistoryTooLong)));
}

#[test]
fn a_history_that_took_too_long_is_refused() {
    let mut record = sample_game().to_record();
    record.moves.push(Move::new(String::from("g1h3"), u32::MAX));
    assert!(matches!(read_back(record), Err(RecordError::HistoryTooLong)));
}

#[test]
fn restore_takes_the_board_it_is_given() {
    let record = sample_game().to_record();
    let game = match ChessGame::restore(record, Some(Board::start_pos())) {
        Ok(game) => game,
        Err(error) => panic!("{:?}", error),
    };
    assert_eq!(game.moves().len(), 2);
    assert_eq!(game.initial_board().fen(), START);
    let record = sample_game().to_record();
    assert!(matches!(
        ChessGame::restore(record, None),
        Err(RecordError::PositionParse { .. })
    ));
}

#[test]
fn durations_that_overflow_do_not_fit() {
    let mut record = sample_game().to_record();
    assert!(record.durations_fit());
    record.moves.push(Move::new(String::from("g1h3"), u32::MAX - 1700));
    assert!(record.durations_fit());
    record.moves.push(Move::new(String::from("a6a5"), 1));
    assert!(!record.durations_fit());
}

fn all_fields() -> RecordFields {
    let mut fields = RecordFields::new();
    fields.set_increment(10).unwrap();
    fields.set_initial_board(String::from(START)).unwrap();
    fields.set_time_limit(180_000).unwrap();
    fields.set_moves(vec![Move::new(String::from("e2e4"), 1000)]).unwrap();
    fields.set_start_time(4_000).unwrap();
    fields
}

#[test]
fn five_fields_make_a_record() {
    let record = all_fields().finish().unwrap();
    assert_eq!(record.initial_board, START);
    assert_eq!(record.moves.len(), 1);
    assert_eq!(record.moves[0].uci_move(), "e2e4");
    assert_eq!(record.moves[0].time_taken(), 1000);
    assert_eq!(record.start_time, 4_000);
    assert_eq!(record.time_limit, 180_000);
    assert_eq!(record.increment, 10);
}

#[test]
fn a_field_given_twice_is_refused_and_the_first_value_stays() {
    let mut fields = all_fields();
    assert!(matches!(
        fields.set_initial_board(String::from("8/8/8/8/8/8/8/8 w - - 0 1")),
        Err(RecordError::DuplicateField(FieldName::InitialBoard))
    ));
    assert!(matches!(
        fields.set_moves(Vec::new()),
        Err(RecordError::DuplicateField(FieldName::Moves))
    ));
    assert!(matches!(
        fields.set_start_time(1),
        Err(RecordError::DuplicateField(FieldName::StartTime))
    ));
    assert!(matches!(
        fields.set_time_limit(2),
        Err(RecordError::DuplicateField(FieldName::TimeLimit))
    ));
    assert!(matches!(
        fields.set_increment(3),
        Err(RecordError::DuplicateField(FieldName::Increment))
    ));
    let record = fields.finish().unwrap();
    assert_eq!(record.initial_board, START);
    assert_eq!(record.moves.len(), 1);
    assert_eq!(record.start_time, 4_000);
    assert_eq!(record.time_limit, 180_000);
    assert_eq!(record.increment, 10);
}

#[test]
fn the_first_missing_field_is_named() {
    assert!(matches!(
        RecordFields::new().finish(),
        Err(RecordError::MissingField(FieldName::InitialBoard))
    ));

    let mut fields = RecordFields::new();
    fields.set_initial_board(String::from(START)).unwrap();
    assert!(matches!(
        fields.finish(),
        Err(RecordError::MissingField(FieldName::Moves))
    ));

    let mut fields = RecordFields::new();
    fields.set_initial_board(String::from(START)).unwrap();
    fields.set_moves(Vec::new()).unwrap();
    assert!(matches!(
        fields.finish(),
        Err(RecordError::MissingField(FieldName::Increment))
    ));

    let mut fields = RecordFields::new();
    fields.set_initial_board(String::from(START)).unwrap();
    fields.set_moves(Vec::new()).unwrap();
    fields.set_increment(1).unwrap();
    assert!(matches!(
        fields.finish(),
        Err(RecordError::MissingField(FieldName::StartTime))
    ));

    let mut fields = RecordFields::new();
    fields.set_initial_board(String::from(START)).unwrap();
    fields.set_moves(Vec::new()).unwrap();
    fields.set_increment(1).unwrap();
    fields.set_start_time(2).unwrap();
    assert!(matches!(
        fields.finish(),
        Err(RecordError::MissingField(FieldName::TimeLimit))
    ));
}

#[test]
fn fields_are_named_as_they_are_stored() {
    assert_eq!(FieldName::InitialBoard.name(), "initial_board");
    assert_eq!(FieldName::Moves.name(), "moves");
    assert_eq!(FieldName::StartTime.name(), "start_time");
    assert_eq!(FieldName::TimeLimit.name(), "time_limit");
    assert_eq!(FieldName::Increment.name(), "increment");
}
