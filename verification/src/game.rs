//! The state of a game in progress: the grid, the player on it and the win
//! flag, and the one rule by which the player moves.

use vstd::prelude::*;
use crate::grid::{cell, lemma_same_cells, lemma_with_cell, on_ring, Grid, Tile, TileKind};

verus! {

/// Where the player stands: a column and a row of the grid.
#[derive(Clone, Copy, Debug, PartialEq, Eq, Structural)]
pub struct Player {
    pub x: usize,
    pub y: usize,
}

/// The four ways to step: north is up, towards row zero, and west is left,
/// towards column zero.
#[derive(Clone, Copy, Debug, PartialEq, Eq, Structural)]
pub enum Direction {
    North,
    South,
    East,
    West,
}

/// What became of a requested move.
#[derive(Clone, Copy, Debug, PartialEq, Eq, Structural)]
pub enum MoveResult {
    Moved,
    Blocked,
}

/// The cell one step from column `x`, row `y` in `direction`, as column and
/// row.
pub open spec fn step_from(x: int, y: int, direction: Direction) -> (int, int) {
    match direction {
        Direction::North => (x, y - 1),
        Direction::South => (x, y + 1),
        Direction::East => (x + 1, y),
        Direction::West => (x - 1, y),
    }
}

/// The rows `tiles` of a grid of `width` columns and `height` rows after the
/// player has stepped from column `from_x`, row `from_y` to column `to_x`, row
/// `to_y`: the cell entered is occupied, the cell left no longer is, and
/// every other cell and every kind is as it was.
pub open spec fn with_step(
    tiles: Seq<Seq<Tile>>,
    width: int,
    height: int,
    from_x: int,
    from_y: int,
    to_x: int,
    to_y: int,
) -> Seq<Seq<Tile>> {
    Seq::new(
        height as nat,
        |y: int|
            Seq::new(
                width as nat,
                |x: int|
                    if x == to_x && y == to_y {
                        Tile { kind: cell(tiles, x, y).kind, occupied: true }
                    } else if x == from_x && y == from_y {
                        Tile { kind: cell(tiles, x, y).kind, occupied: false }
                    } else {
                        cell(tiles, x, y)
                    },
            ),
    )
}

/// The rows `tiles` of a grid of `width` columns and `height` rows with the
/// player put at column `x`, row `y`: that cell is occupied and no other is,
/// and every kind is as it was.
pub open spec fn with_player(
    tiles: Seq<Seq<Tile>>,
    width: int,
    height: int,
    x: int,
    y: int,
) -> Seq<Seq<Tile>> {
    Seq::new(
        height as nat,
        |j: int|
            Seq::new(
                width as nat,
                |i: int| Tile { kind: cell(tiles, i, j).kind, occupied: i == x && j == y },
            ),
    )
}

/// Whether a game can start on `grid` with the player at `player`: the wall
/// ring is closed, and the player's cell is in the grid and not a wall.
pub open spec fn can_start(grid: Grid, player: Player) -> bool {
    &&& grid.enclosed()
    &&& grid.in_bounds(player.x as int, player.y as int)
    &&& grid.at(player.x as int, player.y as int).kind != TileKind::Wall
}

/// A game in progress. It owns its grid: once the game has started, the kinds
/// of the tiles no longer change, and only a move changes where the player is.
#[derive(Clone, Debug, PartialEq, Eq)]
pub struct GameState {
    grid: Grid,
    player: Player,
    won: bool,
}

impl GameState {
    /// The grid of the game.
    pub closed spec fn spec_grid(&self) -> Grid {
        self.grid
    }

    /// Where the player stands.
    pub closed spec fn spec_player(&self) -> Player {
        self.player
    }

    /// Whether the player has reached the goal.
    pub closed spec fn spec_has_won(&self) -> bool {
        self.won
    }

    /// What holds of every game: the grid is a rectangle with a closed wall
    /// ring; the player stands on a cell of it that is not a wall, and so
    /// inside the ring; and the player's cell is the one occupied cell.
    pub open spec fn wf(&self) -> bool {
        let grid = self.spec_grid();
        let player = self.spec_player();
        &&& grid.wf()
        &&& grid.enclosed()
        &&& grid.in_bounds(player.x as int, player.y as int)
        &&& grid.at(player.x as int, player.y as int).kind != TileKind::Wall
        &&& forall|x: int, y: int|
            grid.in_bounds(x, y) ==> ((#[trigger] grid.at(x, y)).occupied <==> x == player.x && y
                == player.y)
    }

    /// The cell one step from the player in `direction`, as column and row.
    pub open spec fn target(&self, direction: Direction) -> (int, int) {
        step_from(self.spec_player().x as int, self.spec_player().y as int, direction)
    }

    /// Whether a move in `direction` is blocked: the cell one step from the
    /// player in that direction is a wall.
    pub open spec fn blocked(&self, direction: Direction) -> bool {
        self.spec_grid().at(self.target(direction).0, self.target(direction).1).kind
            == TileKind::Wall
    }

    /// Whether `after` is the game that a move in `direction` makes of this
    /// one. A blocked move changes nothing. Any other move puts the player on
    /// the cell one step away and moves the occupancy with it, changes no
    /// kind, and wins the game where that cell is the goal; a game that was
    /// won stays won.
    pub open spec fn moves_to(&self, after: GameState, direction: Direction) -> bool {
        let to = self.target(direction);
        if self.blocked(direction) {
            after == *self
        } else {
            &&& after.spec_player().x == to.0
            &&& after.spec_player().y == to.1
            &&& after.spec_has_won() == (self.spec_has_won() || self.spec_grid().at(
                to.0,
                to.1,
            ).kind == TileKind::Goal)
            &&& after.spec_grid().spec_width() == self.spec_grid().spec_width()
            &&& after.spec_grid().spec_height() == self.spec_grid().spec_height()
            &&& after.spec_grid()@ == with_step(
                self.spec_grid()@,
                self.spec_grid().spec_width() as int,
                self.spec_grid().spec_height() as int,
                self.spec_player().x as int,
                self.spec_player().y as int,
                to.0,
                to.1,
            )
        }
    }

    /// Starts a game on `grid` with the player at `player`, where that can be
    /// done: see `can_start`. The player's cell becomes the one occupied cell,
    /// whatever the grid said of occupancy before; the kinds stay. The game
    /// starts as not won.
    pub fn new(grid: Grid, player: Player) -> (started: Option<GameState>)
        requires
            grid.wf(),
        ensures
            started is Some <==> can_start(grid, player),
            started matches Some(state) ==> ({
                &&& state.wf()
                &&& state.spec_player() == player
                &&& !state.spec_has_won()
                &&& state.spec_grid().spec_width() == grid.spec_width()
                &&& state.spec_grid().spec_height() == grid.spec_height()
                &&& state.spec_grid()@ == with_player(
                    grid@,
                    grid.spec_width() as int,
                    grid.spec_height() as int,
                    player.x as int,
                    player.y as int,
                )
            }),
    {
        let width = grid.width();
        let height = grid.height();
        if !grid.is_enclosed() || player.x >= width || player.y >= height {
            return None;
        }
        if grid.tile_at(player.x, player.y).kind == TileKind::Wall {
            return None;
        }
        let mut field = grid;
        let mut y: usize = 0;
        while y < height
            invariant
                field.wf(),
                field.spec_width() == width == grid.spec_width(),
                field.spec_height() == height == grid.spec_height(),
                y <= height,
                forall|i: int, j: int|
                    field.in_bounds(i, j) ==> #[trigger] cell(field@, i, j) == (if j < y {
                        Tile { kind: cell(grid@, i, j).kind, occupied: false }
                    } else {
                        cell(grid@, i, j)
                    }),
            decreases height - y,
        {
            let mut x: usize = 0;
            while x < width
                invariant
                    field.wf(),
                    field.spec_width() == width == grid.spec_width(),
                    field.spec_height() == height == grid.spec_height(),
                    y < height,
                    x <= width,
                    forall|i: int, j: int|
                        field.in_bounds(i, j) ==> #[trigger] cell(field@, i, j) == (if j < y || (j
                            == y && i < x) {
                            Tile { kind: cell(grid@, i, j).kind, occupied: false }
                        } else {
                            cell(grid@, i, j)
                        }),
                decreases width - x,
            {
                proof {
                    lemma_with_cell(
                        field@,
                        width as int,
                        height as int,
                        x as int,
                        y as int,
                        Tile { kind: field.at(x as int, y as int).kind, occupied: false },
                    );
                }
                field.set_occupied(x, y, false);
                x += 1;
            }
            y += 1;
        }
        proof {
            lemma_with_cell(
                field@,
                width as int,
                height as int,
                player.x as int,
                player.y as int,
                Tile { kind: field.at(player.x as int, player.y as int).kind, occupied: true },
            );
        }
        field.set_occupied(player.x, player.y, true);
        proof {
            lemma_same_cells(
                field@,
                with_player(grid@, width as int, height as int, player.x as int, player.y as int),
                width as int,
                height as int,
            );
        }
        Some(GameState { grid: field, player, won: false })
    }

    /// The grid of the game.
    pub fn grid(&self) -> (grid: &Grid)
        ensures
            *grid == self.spec_grid(),
    {
        &self.grid
    }

    /// Where the player stands.
    pub fn player(&self) -> (player: Player)
        ensures
            player == self.spec_player(),
    {
        self.player
    }

    /// Whether the player has reached the goal.
    #[verifier::when_used_as_spec(spec_has_won)]
    pub fn has_won(&self) -> (won: bool)
        ensures
            won == self.spec_has_won(),
    {
        self.won
    }

    /// Moves the player one step in `direction`, unless a wall is there: the
    /// move is blocked exactly where `blocked` says so, and the game
    /// afterwards is the one that `moves_to` describes.
    pub fn apply_move(&mut self, direction: Direction) -> (result: MoveResult)
        requires
            old(self).wf(),
        ensures
            final(self).wf(),
            result == (if old(self).blocked(direction) {
                MoveResult::Blocked
            } else {
                MoveResult::Moved
            }),
            old(self).moves_to(*final(self), direction),
    {
        let from = self.player;
        proof {
            lemma_player_inside(*self);
        }
        let to = match direction {
            Direction::North => Player { x: from.x, y: from.y - 1 },
            Direction::South => Player { x: from.x, y: from.y + 1 },
            Direction::East => Player { x: from.x + 1, y: from.y },
            Direction::West => Player { x: from.x - 1, y: from.y },
        };
        let target = self.grid.tile_at(to.x, to.y);
        if target.kind == TileKind::Wall {
            return MoveResult::Blocked;
        }
        self.grid.set_occupied(from.x, from.y, false);
        self.grid.set_occupied(to.x, to.y, true);
        self.player = to;
        if target.kind == TileKind::Goal {
            self.won = true;
        }
        proof {
            assert(self.grid@ =~~= with_step(
                old(self).grid@,
                self.grid.spec_width() as int,
                self.grid.spec_height() as int,
                from.x as int,
                from.y as int,
                to.x as int,
                to.y as int,
            ));
            lemma_move_keeps_wf(*old(self), *self, direction);
        }
        MoveResult::Moved
    }
}

/// A move leaves the game well formed: the wall ring stays closed, the player
/// stays on a cell inside it that is not a wall, and the player's cell is
/// again the one occupied cell.
pub proof fn lemma_move_keeps_wf(before: GameState, after: GameState, direction: Direction)
    requires
        before.wf(),
        before.moves_to(after, direction),
    ensures
        after.wf(),
{
    if !before.blocked(direction) {
        lemma_player_inside(before);
    }
}

/// No move changes what a cell is: after a move every cell has the kind that
/// it had before, and the grid its size.
pub proof fn lemma_move_keeps_kinds(
    before: GameState,
    after: GameState,
    direction: Direction,
    x: int,
    y: int,
)
    requires
        before.wf(),
        before.moves_to(after, direction),
        before.spec_grid().in_bounds(x, y),
    ensures
        after.spec_grid().spec_width() == before.spec_grid().spec_width(),
        after.spec_grid().spec_height() == before.spec_grid().spec_height(),
        after.spec_grid().at(x, y).kind == before.spec_grid().at(x, y).kind,
{
}

/// A move into a wall changes nothing: the player stays where it was and the
/// grid is as it was.
pub proof fn lemma_blocked_move_changes_nothing(
    before: GameState,
    after: GameState,
    direction: Direction,
)
    requires
        before.moves_to(after, direction),
        before.blocked(direction),
    ensures
        after == before,
        after.spec_player() == before.spec_player(),
        after.spec_grid() == before.spec_grid(),
        after.spec_has_won() == before.spec_has_won(),
{
}

/// A move towards the wall ring from a cell next to it is blocked: no move
/// takes the player onto the outermost ring, and so none takes it out of the
/// grid.
pub proof fn lemma_ring_blocks(state: GameState, direction: Direction)
    requires
        state.wf(),
        on_ring(
            state.spec_grid().spec_width() as int,
            state.spec_grid().spec_height() as int,
            state.target(direction).0,
            state.target(direction).1,
        ),
    ensures
        state.blocked(direction),
{
    lemma_player_inside(state);
}

/// A move wins the game exactly where it takes the player onto the goal, and
/// no move takes a win back: after a move the game is won if and only if it
/// was won before or the move was not blocked and entered the goal.
pub proof fn lemma_win_trigger(before: GameState, after: GameState, direction: Direction)
    requires
        before.moves_to(after, direction),
    ensures
        before.spec_has_won() ==> after.spec_has_won(),
        after.spec_has_won() <==> before.spec_has_won() || before.spec_grid().at(
            before.target(direction).0,
            before.target(direction).1,
        ).kind == TileKind::Goal,
{
}

/// At every moment of a game exactly one cell is occupied, and it is the cell
/// where the player stands.
pub proof fn lemma_single_occupancy(state: GameState, x: int, y: int)
    requires
        state.wf(),
        state.spec_grid().in_bounds(x, y),
    ensures
        state.spec_grid().at(x, y).occupied <==> x == state.spec_player().x && y
            == state.spec_player().y,
        state.spec_grid().at(
            state.spec_player().x as int,
            state.spec_player().y as int,
        ).occupied,
{
}

/// The player always stands inside the wall ring, on a cell that is not a
/// wall: at least one cell away from every edge of the grid.
pub proof fn lemma_player_inside(state: GameState)
    requires
        state.wf(),
    ensures
        1 <= state.spec_player().x <= state.spec_grid().spec_width() - 2,
        1 <= state.spec_player().y <= state.spec_grid().spec_height() - 2,
        state.spec_grid().at(
            state.spec_player().x as int,
            state.spec_player().y as int,
        ).kind != TileKind::Wall,
{
    let grid = state.spec_grid();
    let player = state.spec_player();
    assert(!on_ring(
        grid.spec_width() as int,
        grid.spec_height() as int,
        player.x as int,
        player.y as int,
    ));
}

} // verus!
