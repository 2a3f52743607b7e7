//! The game session: one board and one seeded generator, and what each of
//! the four game requests does to them and answers.
//!
//! Nothing here waits, locks or talks to a network. A server keeps one
//! [`GameState`] behind a lock of its own and calls one method for each
//! request while it holds that lock.

use crate::utils::board_theorems::{lemma_drop_token, lemma_move_makes_mover_win_or_nobody};
use crate::utils::connect_four::{
    after_play, board_full, board_text, column_full, column_height, empty_grid, grid_of_flips,
    is_grid, settled, winner_of, Connect4, Grid, Player, BOARD_SIZE, CELLS,
};
use crate::utils::reply::{Reply, Status};
use crate::utils::seeded_rng::{
    advanced, fresh, lemma_same_seed_same_draws, next_draws, seed_rng,
};
use rand::rngs::StdRng;
use vstd::prelude::*;

verus! {

/// The number that the generator is seeded with, at start and at every reset.
pub const SEED: u64 = 2024;

/// Whether `column`, counted from 1 as requests count it, names a column of
/// the board.
pub open spec fn column_in_range(column: int) -> bool {
    1 <= column <= BOARD_SIZE
}

/// Whether a move into `col`, counted from 0, is turned away: the column is
/// full, the board is full, or somebody has already won.
pub open spec fn blocked(g: Grid, col: int) -> bool {
    column_full(g, col) || board_full(g) || winner_of(g) is Some
}

/// How a request to place a token into `column`, counted from 1, ends.
pub open spec fn place_status(g: Grid, column: int) -> Status {
    if !column_in_range(column) {
        Status::BadRequest
    } else if blocked(g, column - 1) {
        Status::ServiceUnavailable
    } else {
        Status::Success
    }
}

/// The grid that a request to place a token leaves behind.
pub open spec fn place_grid(g: Grid, player: Player, column: int) -> Grid {
    if place_status(g, column) == Status::Success {
        after_play(g, player, column - 1)
    } else {
        g
    }
}

/// The text that a request to place a token sends back: nothing for a
/// column that does not exist, else the board as the request leaves it.
pub open spec fn place_body(g: Grid, player: Player, column: int) -> Seq<char> {
    if place_status(g, column) == Status::BadRequest {
        Seq::empty()
    } else {
        board_text(place_grid(g, player, column))
    }
}

/// The text of the board that the next coin flips of `rng` fill.
pub open spec fn random_board_text(rng: StdRng) -> Seq<char> {
    board_text(grid_of_flips(next_draws(rng, CELLS as nat)))
}

/// The 0-based index of the column that a request counts as `column` from
/// 1; `None` where the board has no such column.
pub fn column_index(column: usize) -> (index: Option<usize>)
    ensures
        index == if column_in_range(column as int) {
            Some((column - 1) as usize)
        } else {
            None
        },
{
    if column >= 1 && column <= BOARD_SIZE {
        Some(column - 1)
    } else {
        None
    }
}

/// Everything that the game requests share: the one board, and the
/// generator that synthetic boards are drawn from.
pub struct GameState {
    game_state: Connect4,
    rng: StdRng,
}

impl GameState {
    /// The board of the session.
    pub closed spec fn grid(&self) -> Grid {
        self.game_state@
    }

    /// The generator of the session.
    pub closed spec fn generator(&self) -> StdRng {
        self.rng
    }

    /// The board of every session is a grid, and settled.
    pub proof fn lemma_grid_well_formed(&self)
        ensures
            is_grid(self.grid()),
            settled(self.grid()),
    {
        self.game_state.lemma_well_formed();
    }

    /// A session at its start: an empty board and a freshly seeded generator.
    pub fn new() -> (state: Self)
        ensures
            state.grid() == empty_grid(),
            fresh(state.generator(), SEED),
    {
        GameState { game_state: Connect4::new(), rng: seed_rng(SEED) }
    }

    /// Answers with the board as it stands.
    pub fn board(&self) -> (reply: Reply)
        ensures
            reply.status == Status::Success,
            reply.body@ == board_text(self.grid()),
    {
        Reply { status: Status::Success, body: self.game_state.render() }
    }

    /// Puts the session back to its start, board and generator together,
    /// and answers with the empty board.
    pub fn reset(&mut self) -> (reply: Reply)
        ensures
            final(self).grid() == empty_grid(),
            fresh(final(self).generator(), SEED),
            reply.status == Status::Success,
            reply.body@ == board_text(empty_grid()),
    {
        self.game_state.reset();
        self.rng = seed_rng(SEED);
        Reply { status: Status::Success, body: self.game_state.render() }
    }

    /// Places `player`'s token into `column`, counted from 1.
    ///
    /// A column that the board does not have is a bad request, with no
    /// text. A move into a full column, onto a full board or into a game
    /// that is already won is turned away, with the board as it stands.
    /// Any other move is carried out and answered with the new board. No
    /// request touches the generator.
    pub fn place(&mut self, player: Player, column: usize) -> (reply: Reply)
        ensures
            reply.status == place_status(old(self).grid(), column as int),
            reply.body@ == place_body(old(self).grid(), player, column as int),
            final(self).grid() == place_grid(old(self).grid(), player, column as int),
            final(self).generator() == old(self).generator(),
    {
        let index = match column_index(column) {
            Some(index) => index,
            None => {
                return Reply { status: Status::BadRequest, body: String::new() };
            },
        };
        if self.game_state.column_full(index) || self.game_state.board_full()
            || self.game_state.winner().is_some() {
            return Reply { status: Status::ServiceUnavailable, body: self.game_state.render() };
        }
        match self.game_state.play(player, index) {
            Ok(()) => Reply { status: Status::Success, body: self.game_state.render() },
            Err(error) => Reply::failure(error),
        }
    }

    /// Answers with a full board filled by the generator's next coin flips.
    /// The board of the session stays as it is; the generator moves on by
    /// one flip for each cell.
    pub fn random_board(&mut self) -> (reply: Reply)
        ensures
            reply.status == Status::Success,
            reply.body@ == random_board_text(old(self).generator()),
            advanced(old(self).generator(), final(self).generator(), CELLS as nat),
            final(self).grid() == old(self).grid(),
    {
        let random_board = Connect4::random(&mut self.rng);
        Reply { status: Status::Success, body: random_board.render() }
    }
}

/// Whether a game is over: somebody has won, or the board is full.
pub open spec fn terminal(g: Grid) -> bool {
    winner_of(g) is Some || board_full(g)
}

/// A game that is over takes no further move: whatever is asked for, the
/// board stays as it is and the request does not succeed.
pub proof fn lemma_terminal_game_takes_no_move(g: Grid, player: Player, column: int)
    requires
        terminal(g),
    ensures
        place_grid(g, player, column) == g,
        place_status(g, column) != Status::Success,
{
}

/// A token for a full column is turned away, and the board stays as it is.
pub proof fn lemma_full_column_is_turned_away(g: Grid, player: Player, column: int)
    requires
        column_in_range(column),
        column_full(g, column - 1),
    ensures
        place_status(g, column) == Status::ServiceUnavailable,
        place_grid(g, player, column) == g,
        place_body(g, player, column) == board_text(g),
{
}

/// A request that succeeds puts exactly one token on the board: into the
/// column that it names, on top of the tokens that are there.
pub proof fn lemma_placed_token_lands_on_top(g: Grid, player: Player, column: int)
    requires
        is_grid(g),
        settled(g),
        place_status(g, column) == Status::Success,
    ensures
        is_grid(place_grid(g, player, column)),
        settled(place_grid(g, player, column)),
        column_height(place_grid(g, player, column), column - 1) == column_height(g, column - 1)
            + 1,
        forall|col: int|
            0 <= col < BOARD_SIZE && col != column - 1 ==> #[trigger] column_height(
                place_grid(g, player, column),
                col,
            ) == column_height(g, col),
        winner_of(place_grid(g, player, column)) is None || winner_of(
            place_grid(g, player, column),
        ) == Some(player),
{
    lemma_drop_token(g, player, column - 1);
    lemma_move_makes_mover_win_or_nobody(g, player, column - 1);
}

/// Reset is reproducible: two sessions that have both just been reset, or
/// just been started, answer the next request for a random board with the
/// same text.
pub proof fn lemma_random_board_after_reset(a: GameState, b: GameState)
    requires
        fresh(a.generator(), SEED),
        fresh(b.generator(), SEED),
    ensures
        random_board_text(a.generator()) == random_board_text(b.generator()),
{
    lemma_same_seed_same_draws(a.generator(), b.generator(), SEED, CELLS as nat);
}

} // verus!
