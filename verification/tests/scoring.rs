use maze_runner::scoring::{is_correct, ScoreBoard, ValidateRequest, INITIAL_TOTAL};

fn request(command: &str, definition: &str) -> ValidateRequest {
    ValidateRequest { command: command.to_string(), definition: definition.to_string() }
}

#[test]
fn new_board_starts_empty_with_default_total() {
    let board = ScoreBoard::new();
    let resp = board.score_response();
    assert_eq!(resp.score, 0);
    assert_eq!(resp.total, 6);
    assert_eq!(INITIAL_TOTAL, 6);
}

#[test]
fn correct_answer_scores_one_point() {
    let mut board = ScoreBoard::new();
    let resp = board.validate(
        Some("Lister les fichiers et dossiers".to_string()),
        request("ls", "Lister les fichiers et dossiers"),
    );
    assert!(resp.correct);
    assert_eq!(resp.command, "ls");
    assert_eq!(resp.definition, "Lister les fichiers et dossiers");
    assert_eq!(board.score_response().score, 1);
    assert_eq!(board.score_response().total, 6);
}

#[test]
fn wrong_answer_scores_nothing() {
    let mut board = ScoreBoard::new();
    let resp = board.validate(
        Some("Lister les fichiers et dossiers".to_string()),
        request("ls", "Changer de repertoire"),
    );
    assert!(!resp.correct);
    assert_eq!(resp.command, "ls");
    assert_eq!(resp.definition, "Changer de repertoire");
    assert_eq!(board.score_response().score, 0);
}

#[test]
fn unknown_command_is_wrong() {
    let mut board = ScoreBoard::new();
    let resp = board.validate(None, request("nosuchcmd", ""));
    assert!(!resp.correct);
    assert_eq!(board.score_response().score, 0);
}

#[test]
fn is_correct_compares_exactly() {
    let stored = Some("Afficher le repertoire courant".to_string());
    assert!(is_correct(&stored, &"Afficher le repertoire courant".to_string()));
    assert!(!is_correct(&stored, &"afficher le repertoire courant".to_string()));
    assert!(!is_correct(&stored, &"Afficher le repertoire courant ".to_string()));
    assert!(!is_correct(&None, &"".to_string()));
    assert!(is_correct(&Some(String::new()), &String::new()));
}

#[test]
fn reset_clears_score_keeps_total() {
    let mut board = ScoreBoard::new();
    board.start_round(4);
    board.record_answer(true);
    board.record_answer(true);
    let resp = board.reset();
    assert_eq!(resp.score, 0);
    assert_eq!(resp.total, 4);
    assert_eq!(board.score_response().score, 0);
    assert_eq!(board.score_response().total, 4);
    let again = board.reset();
    assert_eq!(again.score, 0);
    assert_eq!(again.total, 4);
}

#[test]
fn start_round_sets_total_and_keeps_score() {
    let mut board = ScoreBoard::new();
    board.record_answer(true);
    board.start_round(3);
    assert_eq!(board.score_response().score, 1);
    assert_eq!(board.score_response().total, 3);
    board.start_round(0);
    assert_eq!(board.score_response().total, 0);
}

#[test]
fn score_counts_correct_answers_since_reset() {
    let mut board = ScoreBoard::new();
    board.record_answer(true);
    board.reset();
    for correct in [true, false, true, true, false] {
        board.record_answer(correct);
    }
    assert_eq!(board.score_response().score, 3);
}

#[test]
fn score_response_reads_without_change() {
    let mut board = ScoreBoard::new();
    board.record_answer(true);
    let a = board.score_response();
    let b = board.score_response();
    assert_eq!((a.score, a.total), (b.score, b.total));
    assert_eq!((a.score, a.total), (1, 6));
}

#[test]
fn events_sequence_tally() {
    let mut board = ScoreBoard::new();
    board.record_answer(true);
    board.start_round(5);
    board.record_answer(false);
    board.record_answer(true);
    let _ = board.score_response();
    board.reset();
    board.record_answer(true);
    board.start_round(2);
    board.record_answer(true);
    let resp = board.score_response();
    assert_eq!((resp.score, resp.total), (2, 2));
}
