//! Theorems about the board engine, stated over grids and proved once and
//! for all: what a run of moves does to the columns, what a winner must
//! hold, and when nobody has won.

use crate::utils::connect_four::{
    after_play, board_full, cell_along, cell_glyph, column_full, column_height, drop_token,
    empty_grid, first_owner, is_grid, landing_row, line_owner, on_board, play_verdict, scan_line,
    settled, status_text, taken, winner_of, Grid, Player, BOARD_SIZE, COOKIE, EMPTY, MILK,
    SCAN_LINES, WALL,
};
use crate::utils::error_handling::{Error, ErrorKind};
use vstd::prelude::*;

verus! {

/// On a settled grid a column is full exactly when all its cells are taken.
pub proof fn lemma_full_column_height(g: Grid, col: int)
    requires
        is_grid(g),
        settled(g),
        0 <= col < BOARD_SIZE,
    ensures
        column_full(g, col) <==> column_height(g, col) == BOARD_SIZE,
{
    assert(g[0][col] is Some ==> g[1][col] is Some);
    assert(g[1][col] is Some ==> g[2][col] is Some);
    assert(g[2][col] is Some ==> g[3][col] is Some);
}

/// A token dropped into a column that is not full lands in the lowest
/// empty cell of that column, and changes no other cell.
pub proof fn lemma_drop_token(g: Grid, player: Player, col: int)
    requires
        is_grid(g),
        settled(g),
        0 <= col < BOARD_SIZE,
        !column_full(g, col),
    ensures
        is_grid(drop_token(g, player, col)),
        settled(drop_token(g, player, col)),
        0 <= landing_row(g, col) < BOARD_SIZE,
        g[landing_row(g, col)][col] is None,
        forall|row: int|
            landing_row(g, col) < row < BOARD_SIZE ==> (#[trigger] g[row][col]) is Some,
        forall|row: int, c: int|
            0 <= row < BOARD_SIZE && 0 <= c < BOARD_SIZE ==> #[trigger] drop_token(
                g,
                player,
                col,
            )[row][c] == if row == landing_row(g, col) && c == col {
                Some(player)
            } else {
                g[row][c]
            },
        column_height(drop_token(g, player, col), col) == column_height(g, col) + 1,
        forall|c: int|
            0 <= c < BOARD_SIZE && c != col ==> #[trigger] column_height(
                drop_token(g, player, col),
                c,
            ) == column_height(g, c),
{
    assert(g[0][col] is Some ==> g[1][col] is Some);
    assert(g[1][col] is Some ==> g[2][col] is Some);
    assert(g[2][col] is Some ==> g[3][col] is Some);
    let after = drop_token(g, player, col);
    assert forall|row: int, c: int|
        0 <= row < BOARD_SIZE - 1 && 0 <= c < BOARD_SIZE && (#[trigger] after[row][c]) is Some
        implies after[row + 1][c] is Some by {
        assert(g[row][c] is Some ==> g[row + 1][c] is Some);
    }
}

/// A move: who plays, and into which column, counted from 0.
pub type Move = (Player, int);

/// The grid after `moves` have been played in order on `g`. A move that is
/// refused leaves the grid as it was.
pub open spec fn play_all(g: Grid, moves: Seq<Move>) -> Grid
    decreases moves.len(),
{
    if moves.len() == 0 {
        g
    } else {
        after_play(play_all(g, moves.drop_last()), moves.last().0, moves.last().1)
    }
}

/// Whether every one of `moves`, played in order on `g`, is accepted.
pub open spec fn all_accepted(g: Grid, moves: Seq<Move>) -> bool
    decreases moves.len(),
{
    moves.len() == 0 || (all_accepted(g, moves.drop_last()) && play_verdict(
        play_all(g, moves.drop_last()),
        moves.last().1,
    ) is Ok)
}

/// How many of `moves` go into column `col`.
pub open spec fn moves_into(moves: Seq<Move>, col: int) -> nat
    decreases moves.len(),
{
    if moves.len() == 0 {
        0
    } else {
        moves_into(moves.drop_last(), col) + if moves.last().1 == col {
            1nat
        } else {
            0nat
        }
    }
}

/// Whether `moves` fit on `g`: each names a column of the board, and no
/// column gets more tokens than it has empty cells.
pub open spec fn moves_fit(g: Grid, moves: Seq<Move>) -> bool {
    &&& forall|i: int| 0 <= i < moves.len() ==> 0 <= (#[trigger] moves[i]).1 < BOARD_SIZE
    &&& forall|col: int|
        0 <= col < BOARD_SIZE ==> column_height(g, col) + #[trigger] moves_into(moves, col)
            <= BOARD_SIZE
}

/// Moves that fit are all accepted, and each column then holds the tokens
/// it held before and one more for every move that went into it.
pub proof fn lemma_fitting_moves_are_accepted(g: Grid, moves: Seq<Move>)
    requires
        is_grid(g),
        settled(g),
        moves_fit(g, moves),
    ensures
        all_accepted(g, moves),
        is_grid(play_all(g, moves)),
        settled(play_all(g, moves)),
        forall|col: int|
            0 <= col < BOARD_SIZE ==> #[trigger] column_height(play_all(g, moves), col)
                == column_height(g, col) + moves_into(moves, col),
    decreases moves.len(),
{
    if moves.len() > 0 {
        let earlier = moves.drop_last();
        let (player, target) = moves.last();
        assert(moves[moves.len() - 1] == moves.last());
        assert forall|i: int| 0 <= i < earlier.len() implies 0 <= (#[trigger] earlier[i]).1
            < BOARD_SIZE by {
            assert(earlier[i] == moves[i]);
        }
        assert forall|col: int| 0 <= col < BOARD_SIZE implies column_height(g, col)
            + #[trigger] moves_into(earlier, col) <= BOARD_SIZE by {
            assert(moves_into(earlier, col) <= moves_into(moves, col));
        }
        lemma_fitting_moves_are_accepted(g, earlier);
        let before = play_all(g, earlier);
        assert(column_height(before, target) == column_height(g, target) + moves_into(
            earlier,
            target,
        ));
        assert(moves_into(moves, target) == moves_into(earlier, target) + 1);
        lemma_full_column_height(before, target);
        lemma_drop_token(before, player, target);
        assert(play_all(g, moves) == drop_token(before, player, target));
        assert forall|col: int| 0 <= col < BOARD_SIZE implies #[trigger] column_height(
            play_all(g, moves),
            col,
        ) == column_height(g, col) + moves_into(moves, col) by {
            assert(column_height(before, col) == column_height(g, col) + moves_into(earlier, col));
            if col != target {
                assert(column_height(drop_token(before, player, target), col) == column_height(
                    before,
                    col,
                ));
            }
        }
    }
}

/// Played on the empty board, moves that fit leave in each column as many
/// tokens as moves went into it.
pub proof fn lemma_column_counts_its_moves(moves: Seq<Move>)
    requires
        moves_fit(empty_grid(), moves),
    ensures
        all_accepted(empty_grid(), moves),
        forall|col: int|
            0 <= col < BOARD_SIZE ==> #[trigger] column_height(play_all(empty_grid(), moves), col)
                == moves_into(moves, col),
{
    lemma_fitting_moves_are_accepted(empty_grid(), moves);
    assert forall|col: int| 0 <= col < BOARD_SIZE implies #[trigger] column_height(
        play_all(empty_grid(), moves),
        col,
    ) == moves_into(moves, col) by {
        assert(column_height(empty_grid(), col) == 0);
    }
}

/// A move into a full column is refused as such, and changes nothing.
pub proof fn lemma_full_column_refuses(g: Grid, player: Player, col: int)
    requires
        0 <= col < BOARD_SIZE,
        column_full(g, col),
    ensures
        play_verdict(g, col) == Err::<(), Error>(Error { kind: ErrorKind::ColumnFull }),
        after_play(g, player, col) == g,
{
}

/// 1 if the cell holds `player`'s token, else 0.
pub open spec fn holds(g: Grid, row: int, col: int, player: Player) -> nat {
    if g[row][col] == Some(player) {
        1
    } else {
        0
    }
}

/// How many tokens of `player` lie in row `row`.
pub open spec fn row_tokens(g: Grid, row: int, player: Player) -> nat {
    holds(g, row, 0, player) + holds(g, row, 1, player) + holds(g, row, 2, player) + holds(
        g,
        row,
        3,
        player,
    )
}

/// How many tokens of `player` lie on the board.
pub open spec fn tokens_of(g: Grid, player: Player) -> nat {
    row_tokens(g, 0, player) + row_tokens(g, 1, player) + row_tokens(g, 2, player) + row_tokens(
        g,
        3,
        player,
    )
}

/// Whether no scanned line is held by a single player.
pub open spec fn no_line_owned(g: Grid) -> bool {
    forall|i: int| 0 <= i < SCAN_LINES ==> (#[trigger] line_owner(g, i)) is None
}

/// What the scan finds from line `from` on is the owner of some line, if it
/// finds anything, and it finds nothing only where no line is owned.
proof fn lemma_first_owner(g: Grid, from: int)
    requires
        0 <= from <= SCAN_LINES,
    ensures
        first_owner(g, from) is Some ==> exists|i: int|
            from <= i < SCAN_LINES && #[trigger] line_owner(g, i) == first_owner(g, from),
        first_owner(g, from) is None ==> forall|i: int|
            from <= i < SCAN_LINES ==> (#[trigger] line_owner(g, i)) is None,
    decreases SCAN_LINES - from,
{
    if from < SCAN_LINES {
        if line_owner(g, from) is Some {
            assert(line_owner(g, from) == first_owner(g, from));
        } else {
            lemma_first_owner(g, from + 1);
            if first_owner(g, from) is Some {
                let i = choose|i: int|
                    from + 1 <= i < SCAN_LINES && #[trigger] line_owner(g, i) == first_owner(
                        g,
                        from + 1,
                    );
                assert(line_owner(g, i) == first_owner(g, from));
            }
        }
    }
}

/// Whoever wins holds one of the scanned lines.
pub proof fn lemma_winner_holds_a_line(g: Grid)
    ensures
        winner_of(g) is Some ==> exists|i: int|
            0 <= i < SCAN_LINES && #[trigger] line_owner(g, i) == winner_of(g),
{
    lemma_first_owner(g, 0);
}

/// There is no winner exactly when no scanned line is held by one player.
pub proof fn lemma_no_winner_without_a_line(g: Grid)
    ensures
        winner_of(g) is None <==> no_line_owned(g),
{
    lemma_first_owner(g, 0);
}

/// A full board on which no line is held by one player has no winner, and
/// its status line says so.
pub proof fn lemma_full_board_without_a_line(g: Grid)
    requires
        board_full(g),
        no_line_owned(g),
    ensures
        winner_of(g) is None,
        status_text(g) == "No winner.\n"@,
{
    lemma_no_winner_without_a_line(g);
}

/// The empty board has no winner.
pub proof fn lemma_empty_board_has_no_winner()
    ensures
        winner_of(empty_grid()) is None,
{
    let g = empty_grid();
    assert forall|i: int| 0 <= i < SCAN_LINES implies (#[trigger] line_owner(g, i)) is None by {
        let line = scan_line(i);
        assert(cell_along(g, line.0, line.1, line.2, line.3, 0) == Some(None::<Player>));
    }
    lemma_no_winner_without_a_line(g);
}

/// Whoever holds a scanned line has at least four tokens on the board.
pub proof fn lemma_line_takes_four_tokens(g: Grid, i: int, player: Player)
    requires
        is_grid(g),
        0 <= i < SCAN_LINES,
        line_owner(g, i) == Some(player),
    ensures
        tokens_of(g, player) >= 4,
{
    let line = scan_line(i);
    assert(cell_along(g, line.0, line.1, line.2, line.3, 0) == Some(Some(player)));
    assert(cell_along(g, line.0, line.1, line.2, line.3, 1) == Some(Some(player)));
    assert(cell_along(g, line.0, line.1, line.2, line.3, 2) == Some(Some(player)));
    assert(cell_along(g, line.0, line.1, line.2, line.3, 3) == Some(Some(player)));
}

/// A player with fewer than four tokens on the board has not won.
pub proof fn lemma_winner_needs_four_tokens(g: Grid, player: Player)
    requires
        is_grid(g),
        tokens_of(g, player) < 4,
    ensures
        winner_of(g) != Some(player),
{
    lemma_winner_holds_a_line(g);
    if winner_of(g) == Some(player) {
        let i = choose|i: int| 0 <= i < SCAN_LINES && #[trigger] line_owner(g, i) == winner_of(g);
        lemma_line_takes_four_tokens(g, i, player);
    }
}

/// A move never empties or changes a cell that is taken: cells only ever go
/// from empty to taken.
pub proof fn lemma_play_never_clears(g: Grid, player: Player, col: int, row: int, c: int)
    requires
        is_grid(g),
        settled(g),
        on_board(row, c),
        g[row][c] is Some,
    ensures
        after_play(g, player, col)[row][c] == g[row][c],
{
    if play_verdict(g, col) is Ok {
        lemma_drop_token(g, player, col);
    }
}

/// Whether every scanned line that one player holds is held by `player`.
pub open spec fn lines_only_of(g: Grid, player: Player) -> bool {
    forall|i: int|
        0 <= i < SCAN_LINES ==> (#[trigger] line_owner(g, i)) is None || line_owner(g, i) == Some(
            player,
        )
}

/// A move, accepted or refused, leaves a settled grid.
pub proof fn lemma_play_keeps_settled(g: Grid, player: Player, col: int)
    requires
        is_grid(g),
        settled(g),
    ensures
        is_grid(after_play(g, player, col)),
        settled(after_play(g, player, col)),
{
    if play_verdict(g, col) is Ok {
        lemma_drop_token(g, player, col);
    }
}

/// A move completes lines for nobody but the player who makes it.
pub proof fn lemma_move_wins_for_mover_only(g: Grid, player: Player, col: int)
    requires
        is_grid(g),
        settled(g),
        lines_only_of(g, player),
    ensures
        lines_only_of(after_play(g, player, col), player),
{
    if play_verdict(g, col) is Ok {
        lemma_drop_token(g, player, col);
        let after = drop_token(g, player, col);
        assert forall|i: int| 0 <= i < SCAN_LINES implies (#[trigger] line_owner(after, i)) is None
            || line_owner(after, i) == Some(player) by {
            let line = scan_line(i);
            if line_owner(after, i) is Some && line_owner(after, i) != Some(player) {
                let other = line_owner(after, i)->0;
                assert(cell_along(after, line.0, line.1, line.2, line.3, 0) == Some(Some(other)));
                assert(cell_along(after, line.0, line.1, line.2, line.3, 1) == Some(Some(other)));
                assert(cell_along(after, line.0, line.1, line.2, line.3, 2) == Some(Some(other)));
                assert(cell_along(after, line.0, line.1, line.2, line.3, 3) == Some(Some(other)));
                assert forall|steps: int| 1 <= steps < 4 implies cell_along(
                    g,
                    line.0,
                    line.1,
                    line.2,
                    line.3,
                    steps,
                ) == Some(Some(other)) by {
                    assert(cell_along(after, line.0, line.1, line.2, line.3, steps) == Some(
                        Some(other),
                    ));
                }
                assert(cell_along(g, line.0, line.1, line.2, line.3, 0) == Some(Some(other)));
                assert(line_owner(g, i) == Some(other));
            }
        }
    }
}

/// In a game without a winner, a move makes the mover the winner or nobody.
pub proof fn lemma_move_makes_mover_win_or_nobody(g: Grid, player: Player, col: int)
    requires
        is_grid(g),
        settled(g),
        winner_of(g) is None,
    ensures
        winner_of(after_play(g, player, col)) is None || winner_of(after_play(g, player, col))
            == Some(player),
{
    lemma_no_winner_without_a_line(g);
    lemma_move_wins_for_mover_only(g, player, col);
    lemma_winner_holds_a_line(after_play(g, player, col));
}

/// The grid after one player has made four moves in a row, into the
/// columns `first`, `second`, `third` and `fourth`.
pub open spec fn four_moves(
    g: Grid,
    player: Player,
    first: int,
    second: int,
    third: int,
    fourth: int,
) -> Grid {
    after_play(after_play(after_play(after_play(g, player, first), player, second), player, third),
        player, fourth)
}

/// Where four moves of one player have completed the `i`-th scanned line
/// on a board that had no winner, that player has won.
proof fn lemma_four_moves_win(
    g: Grid,
    player: Player,
    first: int,
    second: int,
    third: int,
    fourth: int,
    i: int,
)
    requires
        is_grid(g),
        settled(g),
        winner_of(g) is None,
        0 <= i < SCAN_LINES,
        line_owner(four_moves(g, player, first, second, third, fourth), i) == Some(player),
    ensures
        winner_of(four_moves(g, player, first, second, third, fourth)) == Some(player),
{
    lemma_no_winner_without_a_line(g);
    let g1 = after_play(g, player, first);
    lemma_play_keeps_settled(g, player, first);
    lemma_move_wins_for_mover_only(g, player, first);
    let g2 = after_play(g1, player, second);
    lemma_play_keeps_settled(g1, player, second);
    lemma_move_wins_for_mover_only(g1, player, second);
    let g3 = after_play(g2, player, third);
    lemma_play_keeps_settled(g2, player, third);
    lemma_move_wins_for_mover_only(g2, player, third);
    let g4 = after_play(g3, player, fourth);
    lemma_move_wins_for_mover_only(g3, player, fourth);
    lemma_no_winner_without_a_line(g4);
    lemma_winner_holds_a_line(g4);
}

/// Four moves of one player into one empty column, on a board without a
/// winner, make that player the winner.
pub proof fn lemma_four_in_a_column_win(g: Grid, player: Player, col: int)
    requires
        is_grid(g),
        settled(g),
        winner_of(g) is None,
        0 <= col < BOARD_SIZE,
        column_height(g, col) == 0,
    ensures
        winner_of(four_moves(g, player, col, col, col, col)) == Some(player),
{
    let g1 = after_play(g, player, col);
    lemma_drop_token(g, player, col);
    let g2 = after_play(g1, player, col);
    lemma_drop_token(g1, player, col);
    let g3 = after_play(g2, player, col);
    lemma_drop_token(g2, player, col);
    let g4 = after_play(g3, player, col);
    lemma_drop_token(g3, player, col);
    assert(g4[3][col] == Some(player));
    assert(g4[2][col] == Some(player));
    assert(g4[1][col] == Some(player));
    assert(g4[0][col] == Some(player));
    let i = BOARD_SIZE + col;
    assert(scan_line(i) == (0int, col, 1int, 0int));
    assert(cell_along(g4, 0, col, 1, 0, 0) == Some(Some(player)));
    assert forall|steps: int| 1 <= steps < 4 implies cell_along(g4, 0, col, 1, 0, steps) == Some(
        Some(player),
    ) by {}
    assert(line_owner(g4, i) == Some(player));
    lemma_four_moves_win(g, player, col, col, col, col, i);
}

/// Four moves of one player into the four columns, from the left, on a
/// board without a winner whose columns all stand equally high and are not
/// full, make that player the winner.
pub proof fn lemma_four_in_a_row_win(g: Grid, player: Player)
    requires
        is_grid(g),
        settled(g),
        winner_of(g) is None,
        column_height(g, 0) < BOARD_SIZE,
        column_height(g, 1) == column_height(g, 0),
        column_height(g, 2) == column_height(g, 0),
        column_height(g, 3) == column_height(g, 0),
    ensures
        winner_of(four_moves(g, player, 0, 1, 2, 3)) == Some(player),
{
    let row = landing_row(g, 0);
    lemma_full_column_height(g, 0);
    lemma_full_column_height(g, 1);
    lemma_full_column_height(g, 2);
    lemma_full_column_height(g, 3);
    let g1 = after_play(g, player, 0);
    lemma_drop_token(g, player, 0);
    lemma_full_column_height(g1, 1);
    let g2 = after_play(g1, player, 1);
    lemma_drop_token(g1, player, 1);
    lemma_full_column_height(g2, 2);
    let g3 = after_play(g2, player, 2);
    lemma_drop_token(g2, player, 2);
    lemma_full_column_height(g3, 3);
    let g4 = after_play(g3, player, 3);
    lemma_drop_token(g3, player, 3);
    assert(g4[row][0] == Some(player));
    assert(g4[row][1] == Some(player));
    assert(g4[row][2] == Some(player));
    assert(g4[row][3] == Some(player));
    assert(scan_line(row) == (row, 0int, 0int, 1int));
    assert(cell_along(g4, row, 0, 0, 1, 0) == Some(Some(player)));
    assert forall|steps: int| 1 <= steps < 4 implies cell_along(g4, row, 0, 0, 1, steps) == Some(
        Some(player),
    ) by {}
    assert(line_owner(g4, row) == Some(player));
    lemma_four_moves_win(g, player, 0, 1, 2, 3, row);
}

/// On the empty board, four moves of one player into one column win.
pub proof fn lemma_column_of_four_wins_from_empty(player: Player, col: int)
    requires
        0 <= col < BOARD_SIZE,
    ensures
        winner_of(four_moves(empty_grid(), player, col, col, col, col)) == Some(player),
{
    lemma_empty_board_has_no_winner();
    lemma_four_in_a_column_win(empty_grid(), player, col);
}

/// On the empty board, four moves of one player into the four columns win.
pub proof fn lemma_row_of_four_wins_from_empty(player: Player)
    ensures
        winner_of(four_moves(empty_grid(), player, 0, 1, 2, 3)) == Some(player),
{
    lemma_empty_board_has_no_winner();
    lemma_four_in_a_row_win(empty_grid(), player);
}

/// No two glyphs are the same: a wall, an empty cell and the tokens of the
/// two players can be told apart in the text of a board.
pub proof fn lemma_glyphs_differ()
    ensures
        WALL@ != EMPTY@,
        WALL@ != MILK@,
        WALL@ != COOKIE@,
        EMPTY@ != MILK@,
        EMPTY@ != COOKIE@,
        MILK@ != COOKIE@,
        forall|a: Option<Player>, b: Option<Player>| cell_glyph(a) == cell_glyph(b) ==> a == b,
{
    reveal_strlit("έυε");
    reveal_strlit("έυδ");
    reveal_strlit("Ώθξδ");
    reveal_strlit("ΏθΞς");
    assert(WALL@[2] != EMPTY@[2]);
    assert(WALL@.len() != MILK@.len());
    assert(WALL@.len() != COOKIE@.len());
    assert(EMPTY@.len() != MILK@.len());
    assert(EMPTY@.len() != COOKIE@.len());
    assert(MILK@[2] != COOKIE@[2]);
}

} // verus!
