use cch24::utils::connect_four::{Connect4, Player, BOARD_SIZE};

fn assert_gamestate(game: &Connect4, expected: Vec<&str>) {
    for (expected, line) in expected.into_iter().zip(game.render().lines()) {
        assert_eq!(expected, line);
    }
}

#[test]
fn test_connect4() {
    let game = Connect4::new();
    let expected = vec![
        "έυεέυδέυδέυδέυδέυε",
        "έυεέυδέυδέυδέυδέυε",
        "έυεέυδέυδέυδέυδέυε",
        "έυεέυδέυδέυδέυδέυε",
        "έυεέυεέυεέυεέυεέυε",
    ];
    assert_gamestate(&game, expected);
}

#[test]
fn test_connect4_play() {
    let mut game = Connect4::new();
    let result = game.play(Player::Milk, 0);
    let expected = vec![
        "έυεέυδέυδέυδέυδέυε",
        "έυεέυδέυδέυδέυδέυε",
        "έυεέυδέυδέυδέυδέυε",
        "έυεΏθξδέυδέυδέυδέυε",
        "έυεέυεέυεέυεέυεέυε",
    ];
    assert!(result.is_ok());
    assert_gamestate(&game, expected);
}

#[test]
fn test_connect4_play_out_of_bounds() {
    let mut game = Connect4::new();
    let result = game.play(Player::Milk, 10);
    let expected = vec![
        "έυεέυδέυδέυδέυδέυε",
        "έυεέυδέυδέυδέυδέυε",
        "έυεέυδέυδέυδέυδέυε",
        "έυεέυδέυδέυδέυδέυε",
        "έυεέυεέυεέυεέυεέυε",
    ];
    assert_gamestate(&game, expected);
    assert!(result.is_err());
}

#[test]
fn test_connect4_play_full_column() {
    let mut game = Connect4::new();
    assert!(game.play(Player::Milk, 0).is_ok());
    assert!(game.play(Player::Cookie, 0).is_ok());
    assert!(game.play(Player::Milk, 0).is_ok());
    assert!(game.play(Player::Cookie, 0).is_ok());
    assert!(game.play(Player::Milk, 0).is_err());

    let expected = vec![
        "έυεΏθΞςέυδέυδέυδέυε",
        "έυεΏθξδέυδέυδέυδέυε",
        "έυεΏθΞςέυδέυδέυδέυε",
        "έυεΏθξδέυδέυδέυδέυε",
        "έυεέυεέυεέυεέυεέυε",
    ];
    assert_gamestate(&game, expected);
}

#[test]
fn test_connect4_play_full_board() {
    let mut game = Connect4::new();
    for col in 0..BOARD_SIZE {
        for _ in 0..BOARD_SIZE {
            assert!(game.play(Player::Milk, col).is_ok());
        }
        assert!(game.play(Player::Milk, col).is_err());
    }
    let expected = vec![
        "έυεΏθξδΏθξδΏθξδΏθξδέυε",
        "έυεΏθξδΏθξδΏθξδΏθξδέυε",
        "έυεΏθξδΏθξδΏθξδΏθξδέυε",
        "έυεΏθξδΏθξδΏθξδΏθξδέυε",
        "έυεέυεέυεέυεέυεέυε",
    ];
    assert_gamestate(&game, expected);
}

#[test]
fn test_connect4_no_winner() {
    let mut game = Connect4::new();
    let expected = vec![
        "έυεέυδέυδέυδέυδέυε",
        "έυεέυδέυδέυδέυδέυε",
        "έυεέυδέυδέυδέυδέυε",
        "έυεέυδέυδέυδέυδέυε",
        "έυεέυεέυεέυεέυεέυε",
    ];
    assert_gamestate(&game, expected);
    assert_eq!(game.winner(), None);
}

#[test]
fn test_connect4_winner_row_milk() {
    let mut game = Connect4::new();
    assert!(game.play(Player::Milk, 0).is_ok());
    assert!(game.play(Player::Milk, 1).is_ok());
    assert!(game.play(Player::Milk, 2).is_ok());
    assert!(game.play(Player::Milk, 3).is_ok());

    let expected = vec![
        "έυεέυδέυδέυδέυδέυε",
        "έυεέυδέυδέυδέυδέυε",
        "έυεέυδέυδέυδέυδέυε",
        "έυεΏθξδΏθξδΏθξδΏθξδέυε",
        "έυεέυεέυεέυεέυεέυε",
        "Ώθξδ wins!",
    ];
    assert_gamestate(&game, expected);
    assert_eq!(game.winner(), Some(Player::Milk));
}

#[test]
fn test_connect4_winner_column_cookie() {
    let mut game = Connect4::new();
    assert!(game.play(Player::Cookie, 0).is_ok());
    assert!(game.play(Player::Cookie, 0).is_ok());
    assert!(game.play(Player::Cookie, 0).is_ok());
    assert!(game.play(Player::Cookie, 0).is_ok());

    let expected = vec![
        "έυεΏθΞςέυδέυδέυδέυε",
        "έυεΏθΞςέυδέυδέυδέυε",
        "έυεΏθΞςέυδέυδέυδέυε",
        "έυεΏθΞςέυδέυδέυδέυε",
        "έυεέυεέυεέυεέυεέυε",
        "ΏθΞς wins!",
    ];
    assert_gamestate(&game, expected);
    assert_eq!(game.winner(), Some(Player::Cookie));
}

#[test]
fn test_connect4_winner_diagonal_cookie() {
    let mut game = Connect4::new();
    assert!(game.play(Player::Cookie, 0).is_ok());

    assert!(game.play(Player::Milk, 1).is_ok());
    assert!(game.play(Player::Cookie, 1).is_ok());

    assert!(game.play(Player::Cookie, 2).is_ok());
    assert!(game.play(Player::Milk, 2).is_ok());
    assert!(game.play(Player::Cookie, 2).is_ok());

    assert!(game.play(Player::Milk, 3).is_ok());
    assert!(game.play(Player::Cookie, 3).is_ok());
    assert!(game.play(Player::Milk, 3).is_ok());
    assert!(game.play(Player::Cookie, 3).is_ok());

    let expected = vec![
        "έυεέυδέυδέυδΏθΞςέυε",
        "έυεέυδέυδΏθΞςΏθξδέυε",
        "έυεέυδΏθΞςΏθξδΏθΞςέυε",
        "έυεΏθΞςΏθξδΏθΞςΏθξδέυε",
        "έυεέυεέυεέυεέυεέυε",
        "ΏθΞς wins!",
    ];
    assert_gamestate(&game, expected);

    assert_eq!(game.winner(), Some(Player::Cookie));
}

#[test]
fn test_connect4_winner_diagonal_milk() {
    let mut game = Connect4::new();
    assert!(game.play(Player::Cookie, 0).is_ok());
    assert!(game.play(Player::Milk, 0).is_ok());
    assert!(game.play(Player::Cookie, 0).is_ok());
    assert!(game.play(Player::Milk, 0).is_ok());

    assert!(game.play(Player::Milk, 1).is_ok());
    assert!(game.play(Player::Cookie, 1).is_ok());
    assert!(game.play(Player::Milk, 1).is_ok());

    assert!(game.play(Player::Cookie, 2).is_ok());
    assert!(game.play(Player::Milk, 2).is_ok());

    assert!(game.play(Player::Milk, 3).is_ok());

    let expected = vec![
        "έυεΏθξδέυδέυδέυδέυε",
        "έυεΏθΞςΏθξδέυδέυδέυε",
        "έυεΏθξδΏθΞςΏθξδέυδέυε",
        "έυεΏθΞςΏθξδΏθΞςΏθξδέυε",
        "έυεέυεέυεέυεέυεέυε",
        "Ώθξδ wins!",
    ];
    assert_gamestate(&game, expected);

    assert_eq!(game.winner(), Some(Player::Milk));
}

#[test]
fn test_full_board_no_winner() {
    let mut game = Connect4::new();

    // Fill board in a pattern that prevents any 4-in-a-row
    assert!(game.play(Player::Milk, 0).is_ok());
    assert!(game.play(Player::Milk, 0).is_ok());
    assert!(game.play(Player::Cookie, 0).is_ok());
    assert!(game.play(Player::Cookie, 0).is_ok());

    assert!(game.play(Player::Cookie, 1).is_ok());
    assert!(game.play(Player::Cookie, 1).is_ok());
    assert!(game.play(Player::Milk, 1).is_ok());
    assert!(game.play(Player::Milk, 1).is_ok());

    assert!(game.play(Player::Milk, 2).is_ok());
    assert!(game.play(Player::Milk, 2).is_ok());
    assert!(game.play(Player::Cookie, 2).is_ok());
    assert!(game.play(Player::Cookie, 2).is_ok());

    assert!(game.play(Player::Milk, 3).is_ok());
    assert!(game.play(Player::Milk, 3).is_ok());
    assert!(game.play(Player::Cookie, 3).is_ok());
    assert!(game.play(Player::Cookie, 3).is_ok());

    let expected = vec![
        "έυεΏθΞςΏθξδΏθΞςΏθΞςέυε",
        "έυεΏθΞςΏθξδΏθΞςΏθΞςέυε",
        "έυεΏθξδΏθΞςΏθξδΏθξδέυε",
        "έυεΏθξδΏθΞςΏθξδΏθξδέυε",
        "έυεέυεέυεέυεέυεέυε",
        "No winner.",
    ];
    assert_gamestate(&game, expected);
    assert_eq!(game.winner(), None);
}
