//! The board engine: a square grid that fills from the bottom, two players,
//! and the rules that decide when somebody has won.
//!
//! The engine is specified over a plain mathematical picture of the board, a
//! [`Grid`]: a sequence of rows, top row first, each a sequence of cells. Every
//! executable method says what it does to that picture.

use crate::utils::error_handling::{Error, ErrorKind};
use crate::utils::seeded_rng::{advanced, draw_bool, next_draws, upcoming};
use rand::rngs::StdRng;
use vstd::prelude::*;

verus! {

/// Number of rows, and of columns, of the board.
pub const BOARD_SIZE: usize = 4;

/// One of the two sides of the game.
#[derive(Debug, Clone, Copy, PartialEq, Eq, Structural)]
pub enum Player {
    Milk,
    Cookie,
}

/// The mathematical picture of a board: `grid[row][col]`, row 0 on top.
pub type Grid = Seq<Seq<Option<Player>>>;

/// Whether `(row, col)` names a cell of the board.
pub open spec fn on_board(row: int, col: int) -> bool {
    0 <= row < BOARD_SIZE && 0 <= col < BOARD_SIZE
}

/// A grid has `BOARD_SIZE` rows of `BOARD_SIZE` cells each.
pub open spec fn is_grid(g: Grid) -> bool {
    &&& g.len() == BOARD_SIZE
    &&& forall|row: int| 0 <= row < BOARD_SIZE ==> (#[trigger] g[row]).len() == BOARD_SIZE
}

/// Gravity: a taken cell never has an empty cell beneath it.
pub open spec fn settled(g: Grid) -> bool {
    forall|row: int, col: int|
        0 <= row < BOARD_SIZE - 1 && 0 <= col < BOARD_SIZE && (#[trigger] g[row][col]) is Some
            ==> g[row + 1][col] is Some
}

/// The grid with no token on it.
pub open spec fn empty_grid() -> Grid {
    Seq::new(BOARD_SIZE as nat, |row: int| Seq::new(BOARD_SIZE as nat, |col: int| None::<Player>))
}

/// 1 if the cell is taken, 0 if it is empty.
pub open spec fn taken(g: Grid, row: int, col: int) -> nat {
    if g[row][col] is Some {
        1
    } else {
        0
    }
}

/// How many cells of column `col` are taken.
pub open spec fn column_height(g: Grid, col: int) -> nat {
    taken(g, 0, col) + taken(g, 1, col) + taken(g, 2, col) + taken(g, 3, col)
}

/// A column is full when its topmost cell is taken.
pub open spec fn column_full(g: Grid, col: int) -> bool {
    g[0][col] is Some
}

/// The board is full when no cell is empty.
pub open spec fn board_full(g: Grid) -> bool {
    forall|row: int, col: int| on_board(row, col) ==> (#[trigger] g[row][col]) is Some
}

/// The row in which a token dropped into column `col` of a settled grid
/// comes to rest: right on top of the tokens that are already there.
pub open spec fn landing_row(g: Grid, col: int) -> int {
    BOARD_SIZE - 1 - column_height(g, col)
}

/// The grid after `player`'s token has come to rest in column `col`.
pub open spec fn drop_token(g: Grid, player: Player, col: int) -> Grid {
    let row = landing_row(g, col);
    g.update(row, g[row].update(col, Some(player)))
}

/// What `play` answers for a move into column `col`.
pub open spec fn play_verdict(g: Grid, col: int) -> Result<(), Error> {
    if col < 0 || col >= BOARD_SIZE {
        Err(Error { kind: ErrorKind::InvalidColumn })
    } else if column_full(g, col) {
        Err(Error { kind: ErrorKind::ColumnFull })
    } else {
        Ok(())
    }
}

/// The grid that `play` leaves behind: the token dropped where the move is
/// accepted, the grid as it was where the move is refused.
pub open spec fn after_play(g: Grid, player: Player, col: int) -> Grid {
    if play_verdict(g, col) is Ok {
        drop_token(g, player, col)
    } else {
        g
    }
}

/// The cell that lies `steps` steps from `(row, col)` in the direction
/// `(dr, dc)`: `None` when that place is off the board, else what the cell holds.
pub open spec fn cell_along(g: Grid, row: int, col: int, dr: int, dc: int, steps: int) -> Option<
    Option<Player>,
> {
    let r = row + steps * dr;
    let c = col + steps * dc;
    if on_board(r, c) {
        Some(g[r][c])
    } else {
        None
    }
}

/// The player who holds the run of four cells that starts at `(row, col)` and
/// follows the direction `(dr, dc)`: all four cells lie on the board and hold
/// that player's token. `None` when there is no such player.
pub open spec fn run_owner(g: Grid, row: int, col: int, dr: int, dc: int) -> Option<Player> {
    match cell_along(g, row, col, dr, dc, 0) {
        Some(Some(player)) => if forall|steps: int|
            1 <= steps < 4 ==> cell_along(g, row, col, dr, dc, steps) == Some(Some(player)) {
            Some(player)
        } else {
            None
        },
        _ => None,
    }
}

/// How many lines are looked at for a winner: every row, every column and
/// the two diagonals.
pub const SCAN_LINES: usize = 10;

/// The `i`-th line that is looked at, as `(row, col, dr, dc)`: first the rows
/// from the top, each from its left end; then the columns from the left, each
/// from its top end; then the diagonal that starts in the top-left corner;
/// last the diagonal that starts in the top-right corner.
pub open spec fn scan_line(i: int) -> (int, int, int, int) {
    if i < BOARD_SIZE {
        (i, 0, 0, 1)
    } else if i < 2 * BOARD_SIZE {
        (0, i - BOARD_SIZE, 1, 0)
    } else if i == 2 * BOARD_SIZE {
        (0, 0, 1, 1)
    } else {
        (0, BOARD_SIZE - 1, 1, -1)
    }
}

/// The player who holds all four cells of the `i`-th scanned line.
pub open spec fn line_owner(g: Grid, i: int) -> Option<Player> {
    let line = scan_line(i);
    run_owner(g, line.0, line.1, line.2, line.3)
}

/// The owner of the first owned line among the lines `from`, `from + 1`, ...
pub open spec fn first_owner(g: Grid, from: int) -> Option<Player>
    decreases SCAN_LINES - from,
{
    if from < 0 || from >= SCAN_LINES {
        None
    } else if line_owner(g, from) is Some {
        line_owner(g, from)
    } else {
        first_owner(g, from + 1)
    }
}

/// The winner of a grid: the owner of the first owned line in scanning order.
pub open spec fn winner_of(g: Grid) -> Option<Player> {
    first_owner(g, 0)
}

/// The glyph that borders the board.
pub const WALL: &'static str = "έυε";

/// The glyph of an empty cell.
pub const EMPTY: &'static str = "έυδ";

/// The glyph of a player's token.
pub const MILK: &'static str = "Ώθξδ";

/// The glyph of the other player's token.
pub const COOKIE: &'static str = "ΏθΞς";

/// The glyph that stands for a player.
pub open spec fn player_glyph(player: Player) -> Seq<char> {
    match player {
        Player::Milk => MILK@,
        Player::Cookie => COOKIE@,
    }
}

/// The glyph that stands for a cell.
pub open spec fn cell_glyph(cell: Option<Player>) -> Seq<char> {
    match cell {
        Some(player) => player_glyph(player),
        None => EMPTY@,
    }
}

/// The glyphs of the first `upto` cells of a row, left to right.
pub open spec fn cells_text(row: Seq<Option<Player>>, upto: int) -> Seq<char>
    decreases upto,
{
    if upto <= 0 {
        Seq::empty()
    } else {
        cells_text(row, upto - 1) + cell_glyph(row[upto - 1])
    }
}

/// One line of the board: a wall, the cells of the row, a wall, a line end.
pub open spec fn row_text(row: Seq<Option<Player>>) -> Seq<char> {
    WALL@ + cells_text(row, BOARD_SIZE as int) + WALL@ + "\n"@
}

/// The lines of the first `upto` rows of a grid, top row first.
pub open spec fn rows_text(g: Grid, upto: int) -> Seq<char>
    decreases upto,
{
    if upto <= 0 {
        Seq::empty()
    } else {
        rows_text(g, upto - 1) + row_text(g[upto - 1])
    }
}

/// `times` walls in a row.
pub open spec fn walls(times: int) -> Seq<char>
    decreases times,
{
    if times <= 0 {
        Seq::empty()
    } else {
        walls(times - 1) + WALL@
    }
}

/// The line under the board: a wall below every column and below both
/// borders, then a line end.
pub open spec fn floor_text() -> Seq<char> {
    walls(BOARD_SIZE + 2) + "\n"@
}

/// The line that tells how the game stands: who has won; or, on a full
/// board without a winner, that nobody has; or nothing while the game is
/// still open.
pub open spec fn status_text(g: Grid) -> Seq<char> {
    match winner_of(g) {
        Some(player) => player_glyph(player) + " wins!\n"@,
        None => if board_full(g) {
            "No winner.\n"@
        } else {
            Seq::empty()
        },
    }
}

/// The text of a board: its rows, the floor, the status line.
pub open spec fn board_text(g: Grid) -> Seq<char> {
    rows_text(g, BOARD_SIZE as int) + floor_text() + status_text(g)
}

/// Number of cells of the board.
pub const CELLS: usize = 16;

/// The player whom a coin flip picks.
pub open spec fn player_of_flip(flip: bool) -> Player {
    if flip {
        Player::Cookie
    } else {
        Player::Milk
    }
}

/// The full grid that a row of coin flips fills: one flip for each cell,
/// the top row first, each row from the left.
pub open spec fn grid_of_flips(flips: Seq<bool>) -> Grid {
    Seq::new(
        BOARD_SIZE as nat,
        |row: int|
            Seq::new(
                BOARD_SIZE as nat,
                |col: int| Some(player_of_flip(flips[row * BOARD_SIZE + col])),
            ),
    )
}

/// One square of the board: empty, or taken by a player.
#[derive(Debug, Clone, Copy, PartialEq, Eq, Structural)]
struct Cell(Option<Player>);

impl Player {
    /// The glyph that stands for the player.
    pub fn glyph(&self) -> (glyph: &'static str)
        ensures
            glyph@ == player_glyph(*self),
    {
        match self {
            Player::Milk => MILK,
            Player::Cookie => COOKIE,
        }
    }
}

impl Player {
    /// The player whom a coin flip picks.
    pub fn of_flip(flip: bool) -> (player: Player)
        ensures
            player == player_of_flip(flip),
    {
        if flip {
            Player::Cookie
        } else {
            Player::Milk
        }
    }
}

impl Cell {
    /// The glyph that stands for the cell.
    fn glyph(&self) -> (glyph: &'static str)
        ensures
            glyph@ == cell_glyph(self.0),
    {
        match self.0 {
            Some(player) => player.glyph(),
            None => EMPTY,
        }
    }
}

/// The board of one game.
///
/// Tokens can only be dropped in from the top, so the cells of every board
/// are settled: that is the type's invariant.
#[derive(Debug, PartialEq, Eq)]
pub struct Connect4 {
    board: [[Cell; BOARD_SIZE]; BOARD_SIZE],
}

/// The picture of an array of cells.
spec fn grid_of(board: [[Cell; BOARD_SIZE]; BOARD_SIZE]) -> Grid {
    Seq::new(
        BOARD_SIZE as nat,
        |row: int| Seq::new(BOARD_SIZE as nat, |col: int| board[row][col].0),
    )
}

impl View for Connect4 {
    type V = Grid;

    /// The picture of the board's cells.
    closed spec fn view(&self) -> Grid {
        let cells = grid_of(self.board);
        if settled(cells) {
            cells
        } else {
            empty_grid()
        }
    }
}

impl Clone for Connect4 {
    fn clone(&self) -> (copy: Self)
        ensures
            copy@ == self@,
    {
        proof {
            use_type_invariant(self);
        }
        Connect4 { board: self.board }
    }
}

impl Connect4 {
    #[verifier::type_invariant]
    spec fn stacked(&self) -> bool {
        settled(grid_of(self.board))
    }

    /// The view of every board is a grid, and settled.
    pub proof fn lemma_well_formed(&self)
        ensures
            is_grid(self@),
            settled(self@),
    {
    }

    /// An empty board.
    pub fn new() -> (game: Self)
        ensures
            game@ == empty_grid(),
    {
        let game = Connect4 { board: [[Cell(None); BOARD_SIZE]; BOARD_SIZE] };
        assert(game@ =~~= empty_grid());
        game
    }

    /// Drops `player`'s token into `column`, counted from 0.
    ///
    /// A column that the board does not have is refused with
    /// `InvalidColumn`, a full one with `ColumnFull`; a refused move leaves
    /// the board as it was. An accepted token falls to the lowest empty cell
    /// of its column.
    pub fn play(&mut self, player: Player, column: usize) -> (result: Result<(), Error>)
        ensures
            result == play_verdict(old(self)@, column as int),
            final(self)@ == after_play(old(self)@, player, column as int),
    {
        proof {
            use_type_invariant(&*self);
        }
        if column >= BOARD_SIZE {
            return Err(Error { kind: ErrorKind::InvalidColumn });
        }
        let ghost before = self@;
        let mut row: usize = BOARD_SIZE;
        while row > 0
            invariant
                row <= BOARD_SIZE,
                column < BOARD_SIZE,
                self@ == before,
                before == old(self)@,
                before == grid_of(self.board),
                settled(before),
                forall|r: int|
                    row <= r < BOARD_SIZE ==> (#[trigger] before[r][column as int]) is Some,
            decreases row,
        {
            row -= 1;
            if self.board[row][column].0.is_none() {
                let mut board = self.board;
                board[row][column] = Cell(Some(player));
                proof {
                    assert(before[row as int][column as int] is None);
                    assert(landing_row(before, column as int) == row);
                    assert(grid_of(board) =~~= drop_token(before, player, column as int));
                    assert(settled(grid_of(board)));
                }
                self.board = board;
                return Ok(());
            }
        }
        Err(Error { kind: ErrorKind::ColumnFull })
    }

    /// Whether every cell of the board is taken.
    pub fn board_full(&self) -> (full: bool)
        ensures
            full == board_full(self@),
    {
        proof {
            use_type_invariant(self);
        }
        let mut row: usize = 0;
        while row < BOARD_SIZE
            invariant
                row <= BOARD_SIZE,
                self@ == grid_of(self.board),
                forall|r: int, c: int|
                    0 <= r < row && 0 <= c < BOARD_SIZE ==> (#[trigger] self@[r][c]) is Some,
            decreases BOARD_SIZE - row,
        {
            let mut col: usize = 0;
            while col < BOARD_SIZE
                invariant
                    row < BOARD_SIZE,
                    col <= BOARD_SIZE,
                    self@ == grid_of(self.board),
                    forall|r: int, c: int|
                        0 <= r < row && 0 <= c < BOARD_SIZE ==> (#[trigger] self@[r][c]) is Some,
                    forall|c: int| 0 <= c < col ==> (#[trigger] self@[row as int][c]) is Some,
                decreases BOARD_SIZE - col,
            {
                if self.board[row][col].0.is_none() {
                    assert(self@[row as int][col as int] is None);
                    return false;
                }
                col += 1;
            }
            row += 1;
        }
        true
    }

    /// Whether the topmost cell of `column` is taken. `column` is counted
    /// from 0 and must name a column of the board.
    pub fn column_full(&self, column: usize) -> (full: bool)
        requires
            column < BOARD_SIZE,
        ensures
            full == column_full(self@, column as int),
    {
        proof {
            use_type_invariant(self);
        }
        self.board[0][column].0.is_some()
    }

    /// The player who holds the four cells that start at `(row, col)` and
    /// follow the direction `(row_delta, col_delta)`, if there is one.
    pub fn check_winner(
        &self,
        row: usize,
        col: usize,
        row_delta: isize,
        col_delta: isize,
    ) -> (owner: Option<Player>)
        ensures
            owner == run_owner(self@, row as int, col as int, row_delta as int, col_delta as int),
    {
        proof {
            use_type_invariant(self);
        }
        if row >= BOARD_SIZE || col >= BOARD_SIZE {
            return None;
        }
        let player = match self.board[row][col].0 {
            Some(player) => player,
            None => {
                return None;
            },
        };
        if row_delta < -3 || row_delta > 3 || col_delta < -3 || col_delta > 3 {
            // One step that long already leaves the board.
            assert(cell_along(
                self@,
                row as int,
                col as int,
                row_delta as int,
                col_delta as int,
                1,
            ) is None);
            return None;
        }
        let mut step: isize = 1;
        while step < 4
            invariant
                1 <= step <= 4,
                row < BOARD_SIZE,
                col < BOARD_SIZE,
                -3 <= row_delta <= 3,
                -3 <= col_delta <= 3,
                self@ == grid_of(self.board),
                self@[row as int][col as int] == Some(player),
                forall|k: int|
                    1 <= k < step ==> cell_along(
                        self@,
                        row as int,
                        col as int,
                        row_delta as int,
                        col_delta as int,
                        k,
                    ) == Some(Some(player)),
            decreases 4 - step,
        {
            assert(-9 <= row_delta * step <= 9 && -9 <= col_delta * step <= 9) by (nonlinear_arith)
                requires
                    1 <= step < 4,
                    -3 <= row_delta <= 3,
                    -3 <= col_delta <= 3,
            ;
            let r: isize = row as isize + row_delta * step;
            let c: isize = col as isize + col_delta * step;
            assert(r == row + step * row_delta && c == col + step * col_delta) by (nonlinear_arith)
                requires
                    r == row + row_delta * step,
                    c == col + col_delta * step,
            ;
            if r < 0 || r >= 4 || c < 0 || c >= 4 {
                assert(cell_along(
                    self@,
                    row as int,
                    col as int,
                    row_delta as int,
                    col_delta as int,
                    step as int,
                ) is None);
                return None;
            }
            let same = match self.board[r as usize][c as usize].0 {
                Some(other) => other == player,
                None => false,
            };
            if !same {
                assert(cell_along(
                    self@,
                    row as int,
                    col as int,
                    row_delta as int,
                    col_delta as int,
                    step as int,
                ) != Some(Some(player)));
                return None;
            }
            step += 1;
        }
        Some(player)
    }

    /// The winner, if there is one: the owner of the first line of four
    /// equal tokens, looking at the rows, then the columns, then the two
    /// diagonals.
    pub fn winner(&self) -> (champion: Option<Player>)
        ensures
            champion == winner_of(self@),
    {
        let mut row: usize = 0;
        while row < BOARD_SIZE
            invariant
                row <= BOARD_SIZE,
                winner_of(self@) == first_owner(self@, row as int),
            decreases BOARD_SIZE - row,
        {
            if let Some(player) = self.check_winner(row, 0, 0, 1) {
                return Some(player);
            }
            row += 1;
        }
        let mut col: usize = 0;
        while col < BOARD_SIZE
            invariant
                col <= BOARD_SIZE,
                winner_of(self@) == first_owner(self@, BOARD_SIZE + col),
            decreases BOARD_SIZE - col,
        {
            if let Some(player) = self.check_winner(0, col, 1, 0) {
                return Some(player);
            }
            col += 1;
        }
        if let Some(player) = self.check_winner(0, 0, 1, 1) {
            return Some(player);
        }
        assert(winner_of(self@) == first_owner(self@, 9));
        if let Some(player) = self.check_winner(0, BOARD_SIZE - 1, 1, -1) {
            return Some(player);
        }
        assert(first_owner(self@, 10) is None);
        None
    }

    /// The board as text: one line for each row, between walls; a line of
    /// walls beneath; and a last line that names the winner or says that
    /// there is none, where the game is over.
    pub fn render(&self) -> (text: String)
        ensures
            text@ == board_text(self@),
    {
        proof {
            use_type_invariant(self);
        }
        let mut text = String::new();
        let mut row: usize = 0;
        while row < BOARD_SIZE
            invariant
                row <= BOARD_SIZE,
                self@ == grid_of(self.board),
                text@ == rows_text(self@, row as int),
            decreases BOARD_SIZE - row,
        {
            let ghost above = text@;
            text.append(WALL);
            let mut col: usize = 0;
            while col < BOARD_SIZE
                invariant
                    row < BOARD_SIZE,
                    col <= BOARD_SIZE,
                    self@ == grid_of(self.board),
                    text@ == above + WALL@ + cells_text(self@[row as int], col as int),
                decreases BOARD_SIZE - col,
            {
                text.append(self.board[row][col].glyph());
                proof {
                    let cells = cells_text(self@[row as int], col as int);
                    let glyph = cell_glyph(self@[row as int][col as int]);
                    assert(above + WALL@ + cells + glyph =~= above + WALL@ + (cells + glyph));
                }
                col += 1;
            }
            text.append(WALL);
            text.append("\n");
            proof {
                let cells = cells_text(self@[row as int], BOARD_SIZE as int);
                assert(above + WALL@ + cells + WALL@ + "\n"@ =~= above + (WALL@ + cells + WALL@
                    + "\n"@));
            }
            row += 1;
        }
        let ghost rows = text@;
        let mut wall: usize = 0;
        while wall < BOARD_SIZE + 2
            invariant
                wall <= BOARD_SIZE + 2,
                text@ == rows + walls(wall as int),
            decreases BOARD_SIZE + 2 - wall,
        {
            text.append(WALL);
            proof {
                assert(rows + walls(wall as int) + WALL@ =~= rows + (walls(wall as int) + WALL@));
            }
            wall += 1;
        }
        text.append("\n");
        let ghost floor = text@;
        proof {
            assert(floor =~= rows + floor_text());
        }
        if let Some(player) = self.winner() {
            text.append(player.glyph());
            text.append(" wins!\n");
            proof {
                assert(floor + player_glyph(player) + " wins!\n"@ =~= floor + (player_glyph(player)
                    + " wins!\n"@));
            }
        } else if self.board_full() {
            text.append("No winner.\n");
        } else {
            proof {
                assert(floor + Seq::<char>::empty() =~= floor);
            }
        }
        text
    }

    /// The full board that a row of coin flips fills: one flip for each
    /// cell, the top row first, each row from the left.
    pub fn from_flips(flips: &[bool; CELLS]) -> (game: Self)
        ensures
            game@ == grid_of_flips(flips@),
    {
        let mut board = [[Cell(None); BOARD_SIZE]; BOARD_SIZE];
        let mut row: usize = 0;
        while row < BOARD_SIZE
            invariant
                row <= BOARD_SIZE,
                forall|r: int, c: int|
                    0 <= r < row && 0 <= c < BOARD_SIZE ==> (#[trigger] board[r][c]).0 == Some(
                        player_of_flip(flips@[r * BOARD_SIZE + c]),
                    ),
            decreases BOARD_SIZE - row,
        {
            let mut col: usize = 0;
            while col < BOARD_SIZE
                invariant
                    row < BOARD_SIZE,
                    col <= BOARD_SIZE,
                    forall|r: int, c: int|
                        0 <= r < row && 0 <= c < BOARD_SIZE ==> (#[trigger] board[r][c]).0 == Some(
                            player_of_flip(flips@[r * BOARD_SIZE + c]),
                        ),
                    forall|c: int|
                        0 <= c < col ==> (#[trigger] board[row as int][c]).0 == Some(
                            player_of_flip(flips@[row * BOARD_SIZE + c]),
                        ),
                decreases BOARD_SIZE - col,
            {
                board[row][col] = Cell(Some(Player::of_flip(flips[row * BOARD_SIZE + col])));
                col += 1;
            }
            row += 1;
        }
        proof {
            assert(grid_of(board) =~~= grid_of_flips(flips@));
        }
        Connect4 { board }
    }

    /// A full board filled by the next coin flips of `rng`: one flip for
    /// each cell, the top row first, each row from the left.
    pub fn random(rng: &mut StdRng) -> (game: Self)
        ensures
            game@ == grid_of_flips(next_draws(*old(rng), CELLS as nat)),
            advanced(*old(rng), *final(rng), CELLS as nat),
    {
        let mut flips = [false; CELLS];
        let mut drawn: usize = 0;
        while drawn < CELLS
            invariant
                drawn <= CELLS,
                forall|i: int|
                    0 <= i < drawn ==> #[trigger] flips@[i] == upcoming(*old(rng), i as nat),
                advanced(*old(rng), *rng, drawn as nat),
            decreases CELLS - drawn,
        {
            let ghost earlier = *rng;
            flips[drawn] = draw_bool(rng);
            proof {
                assert(upcoming(earlier, 0) == upcoming(*old(rng), (0 + drawn) as nat));
                assert forall|i: nat| #[trigger] upcoming(*rng, i) == upcoming(
                    *old(rng),
                    i + (drawn + 1) as nat,
                ) by {
                    assert(upcoming(earlier, i + 1) == upcoming(*old(rng), (i + 1) + drawn as nat));
                }
            }
            drawn += 1;
        }
        proof {
            assert(flips@ =~= next_draws(*old(rng), CELLS as nat));
        }
        Self::from_flips(&flips)
    }

    /// Takes every token off the board.
    pub fn reset(&mut self)
        ensures
            final(self)@ == empty_grid(),
    {
        self.board = [[Cell(None); BOARD_SIZE]; BOARD_SIZE];
        assert(self@ =~~= empty_grid());
    }
}

} // verus!
