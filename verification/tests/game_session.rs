use cch24::modules::day_twelve::{column_index, GameState, SEED};
use cch24::utils::reply::{Reply, Status};
use cch24::utils::connect_four::{Connect4, Player, CELLS};
use cch24::utils::error_handling::{Error, ErrorKind};
use rand::rngs::StdRng;
use rand::{Rng, SeedableRng};

const EMPTY_BOARD: &str =
    "έυεέυδέυδέυδέυδέυε\nέυεέυδέυδέυδέυδέυε\nέυεέυδέυδέυδέυδέυε\nέυεέυδέυδέυδέυδέυε\nέυεέυεέυεέυεέυεέυε\n";

fn board_of_seed(seed: u64, skipped_boards: usize) -> String {
    let mut rng = StdRng::seed_from_u64(seed);
    let mut text = String::new();
    for _ in 0..=skipped_boards {
        let mut flips = [false; CELLS];
        for flip in flips.iter_mut() {
            *flip = rng.gen::<bool>();
        }
        text = Connect4::from_flips(&flips).render();
    }
    text
}

#[test]
fn status_numbers() {
    assert_eq!(Status::Success.code(), 200);
    assert_eq!(Status::BadRequest.code(), 400);
    assert_eq!(Status::ServiceUnavailable.code(), 503);
    assert_eq!(Status::InternalServerError.code(), 500);
}

#[test]
fn seed_is_fixed() {
    assert_eq!(SEED, 2024);
}

#[test]
fn column_index_counts_from_one() {
    assert_eq!(column_index(0), None);
    assert_eq!(column_index(1), Some(0));
    assert_eq!(column_index(2), Some(1));
    assert_eq!(column_index(3), Some(2));
    assert_eq!(column_index(4), Some(3));
    assert_eq!(column_index(5), None);
    assert_eq!(column_index(usize::MAX), None);
}

#[test]
fn failure_reply_carries_the_error_words() {
    let reply = Reply::failure(Error::new(ErrorKind::InvalidColumn));
    assert_eq!(reply.status, Status::InternalServerError);
    assert_eq!(reply.body, "Invalid column");
    let reply = Reply::failure(Error::new(ErrorKind::ColumnFull));
    assert_eq!(reply.status, Status::InternalServerError);
    assert_eq!(reply.body, "Column full");
}

#[test]
fn new_session_shows_the_empty_board() {
    let state = GameState::new();
    let reply = state.board();
    assert_eq!(reply.status, Status::Success);
    assert_eq!(reply.body, EMPTY_BOARD);
}

#[test]
fn place_answers_with_the_new_board() {
    let mut state = GameState::new();
    let reply = state.place(Player::Cookie, 4);
    assert_eq!(reply.status, Status::Success);
    assert_eq!(
        reply.body,
        "έυεέυδέυδέυδέυδέυε\nέυεέυδέυδέυδέυδέυε\nέυεέυδέυδέυδέυδέυε\nέυεέυδέυδέυδΏθΞςέυε\nέυεέυεέυεέυεέυεέυε\n"
    );
    assert_eq!(state.board().body, reply.body);
}

#[test]
fn place_outside_the_board_is_a_bad_request_without_text() {
    let mut state = GameState::new();
    assert_eq!(state.place(Player::Milk, 2).status, Status::Success);
    let before = state.board().body;
    for column in [0, 5, 6, usize::MAX] {
        let reply = state.place(Player::Milk, column);
        assert_eq!(reply.status, Status::BadRequest);
        assert_eq!(reply.body, "");
        assert_eq!(state.board().body, before);
    }
}

#[test]
fn fifth_token_into_a_column_is_turned_away() {
    let mut state = GameState::new();
    assert_eq!(state.reset().status, Status::Success);
    assert_eq!(state.place(Player::Milk, 1).status, Status::Success);
    assert_eq!(state.place(Player::Cookie, 1).status, Status::Success);
    assert_eq!(state.place(Player::Milk, 1).status, Status::Success);
    let fourth = state.place(Player::Cookie, 1);
    assert_eq!(fourth.status, Status::Success);
    assert_eq!(
        fourth.body,
        "έυεΏθΞςέυδέυδέυδέυε\nέυεΏθξδέυδέυδέυδέυε\nέυεΏθΞςέυδέυδέυδέυε\nέυεΏθξδέυδέυδέυδέυε\nέυεέυεέυεέυεέυεέυε\n"
    );
    for player in [Player::Milk, Player::Cookie] {
        let reply = state.place(player, 1);
        assert_eq!(reply.status, Status::ServiceUnavailable);
        assert_eq!(reply.status.code(), 503);
        assert_eq!(reply.body, fourth.body);
        assert_eq!(state.board().body, fourth.body);
    }
    // The other columns still take tokens.
    assert_eq!(state.place(Player::Milk, 2).status, Status::Success);
}

#[test]
fn no_move_is_taken_once_somebody_has_won() {
    let mut state = GameState::new();
    for column in 1..=4 {
        assert_eq!(state.place(Player::Milk, column).status, Status::Success);
    }
    let won = state.board().body;
    assert!(won.ends_with("Ώθξδ wins!\n"));
    for column in 1..=4 {
        let reply = state.place(Player::Cookie, column);
        assert_eq!(reply.status, Status::ServiceUnavailable);
        assert_eq!(reply.body, won);
    }
    assert_eq!(state.board().body, won);
    // A column that does not exist is still a bad request.
    assert_eq!(state.place(Player::Cookie, 5).status, Status::BadRequest);
}

#[test]
fn no_move_is_taken_on_a_full_board() {
    let mut state = GameState::new();
    let order = [
        (Player::Milk, 1),
        (Player::Milk, 1),
        (Player::Cookie, 1),
        (Player::Cookie, 1),
        (Player::Cookie, 2),
        (Player::Cookie, 2),
        (Player::Milk, 2),
        (Player::Milk, 2),
        (Player::Milk, 3),
        (Player::Milk, 3),
        (Player::Cookie, 3),
        (Player::Cookie, 3),
        (Player::Milk, 4),
        (Player::Milk, 4),
        (Player::Cookie, 4),
        (Player::Cookie, 4),
    ];
    for (player, column) in order {
        assert_eq!(state.place(player, column).status, Status::Success);
    }
    let full = state.board().body;
    assert!(full.ends_with("No winner.\n"));
    for column in 1..=4 {
        let reply = state.place(Player::Milk, column);
        assert_eq!(reply.status, Status::ServiceUnavailable);
        assert_eq!(reply.body, full);
    }
}

#[test]
fn reset_empties_the_board_and_answers_with_it() {
    let mut state = GameState::new();
    assert_eq!(state.place(Player::Milk, 1).status, Status::Success);
    assert_eq!(state.place(Player::Cookie, 3).status, Status::Success);
    let reply = state.reset();
    assert_eq!(reply.status, Status::Success);
    assert_eq!(reply.body, EMPTY_BOARD);
    assert_eq!(state.board().body, EMPTY_BOARD);
}

#[test]
fn random_board_is_drawn_from_the_seeded_generator() {
    let mut state = GameState::new();
    let first = state.random_board();
    assert_eq!(first.status, Status::Success);
    assert_eq!(first.body, board_of_seed(2024, 0));
    let second = state.random_board();
    assert_eq!(second.body, board_of_seed(2024, 1));
    let third = state.random_board();
    assert_eq!(third.body, board_of_seed(2024, 2));
    // A seed of its own gives a board of its own.
    assert!(
        board_of_seed(2024, 0) != board_of_seed(2025, 0)
            || board_of_seed(2024, 1) != board_of_seed(2025, 1)
            || board_of_seed(2024, 2) != board_of_seed(2025, 2)
    );
}

#[test]
fn random_board_leaves_the_session_board_alone() {
    let mut state = GameState::new();
    assert_eq!(state.place(Player::Cookie, 2).status, Status::Success);
    let before = state.board().body;
    let random = state.random_board();
    assert!(random.body != before);
    assert_eq!(state.board().body, before);
}

#[test]
fn random_board_after_reset_is_always_the_same() {
    let mut state = GameState::new();
    let fresh = GameState::new().random_board().body;
    state.random_board();
    state.random_board();
    state.reset();
    let after_first_reset = state.random_board().body;
    state.reset();
    state.reset();
    let after_two_resets = state.random_board().body;
    assert_eq!(after_first_reset, fresh);
    assert_eq!(after_two_resets, fresh);
    assert_eq!(fresh, board_of_seed(2024, 0));
}

#[test]
fn placing_does_not_move_the_generator() {
    let mut state = GameState::new();
    assert_eq!(state.place(Player::Milk, 1).status, Status::Success);
    assert_eq!(state.place(Player::Milk, 9).status, Status::BadRequest);
    state.board();
    assert_eq!(state.random_board().body, board_of_seed(2024, 0));
}
