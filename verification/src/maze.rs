//! Maze generation on a grid: the wall ring and the lattice of rooms, the
//! carving of openings between rooms, and the placing of the goal.
//!
//! A room is an inner cell whose column and row are both odd. The lattice
//! leaves the rooms as passages and everything between them as walls; the
//! carving pass lets each room open one of the walls next to it; the goal is
//! placed last, in the bottom right corner of the inner field.

use vstd::prelude::*;
use rand::Rng;
use crate::grid::{
    cell, lemma_same_cells, lemma_with_cell, on_ring, ring_walled, shaped, with_cell, Grid, Tile, TileKind,
};

verus! {

/// The neighbour that a room opens when it carves: the cell to its right or
/// the cell below it.
#[derive(Clone, Copy, Debug, PartialEq, Eq, Structural)]
pub enum CarveDirection {
    Right,
    Down,
}

/// The kind that the lattice gives to the cell at column `x`, row `y` of a grid
/// of `width` columns and `height` rows: a wall on the outermost ring and
/// wherever `x` or `y` is even, a passage on the inner cells where both are odd.
pub open spec fn lattice_kind(width: int, height: int, x: int, y: int) -> TileKind {
    if on_ring(width, height, x, y) || x % 2 == 0 || y % 2 == 0 {
        TileKind::Wall
    } else {
        TileKind::Passage
    }
}

/// The rows `tiles` of a grid laid out as the lattice: every cell has the kind
/// that `lattice_kind` gives it and the occupancy that it had.
pub open spec fn lattice(tiles: Seq<Seq<Tile>>, width: int, height: int) -> Seq<Seq<Tile>> {
    Seq::new(
        height as nat,
        |y: int|
            Seq::new(
                width as nat,
                |x: int|
                    Tile {
                        kind: lattice_kind(width, height, x, y),
                        occupied: cell(tiles, x, y).occupied,
                    },
            ),
    )
}

/// Whether the cell at column `x`, row `y` is a room that carves: both
/// coordinates odd, and the cells to its right and below it still inside the
/// wall ring.
pub open spec fn carving_room(width: int, height: int, x: int, y: int) -> bool {
    1 <= x <= width - 3 && 1 <= y <= height - 3 && x % 2 == 1 && y % 2 == 1
}

/// Whether the cell at column `x`, row `y` is one that a carving room can
/// open: the right neighbour or the lower neighbour of such a room.
pub open spec fn carve_target(width: int, height: int, x: int, y: int) -> bool {
    carving_room(width, height, x - 1, y) || carving_room(width, height, x, y - 1)
}

/// The tile `tile` turned into a passage, its occupancy kept.
pub open spec fn opened(tile: Tile) -> Tile {
    Tile { kind: TileKind::Passage, occupied: tile.occupied }
}

/// Between the rows `before` and the rows `after` the room at column `x`, row
/// `y` has opened one of its two neighbours, the one to its right or the one
/// below it, and left the other as it was.
pub open spec fn opens_one(before: Seq<Seq<Tile>>, after: Seq<Seq<Tile>>, x: int, y: int) -> bool {
    ||| cell(after, x + 1, y) == opened(cell(before, x + 1, y)) && cell(after, x, y + 1) == cell(
        before,
        x,
        y + 1,
    )
    ||| cell(after, x, y + 1) == opened(cell(before, x, y + 1)) && cell(after, x + 1, y) == cell(
        before,
        x + 1,
        y,
    )
}

/// The rows `after` are an outcome of the carving pass on the rows `before`:
/// the shape is that of the grid, every carving room has opened one of its two
/// neighbours and left the other as it was, and no other cell has changed.
pub open spec fn carved(
    before: Seq<Seq<Tile>>,
    after: Seq<Seq<Tile>>,
    width: int,
    height: int,
) -> bool {
    &&& shaped(after, width, height)
    &&& forall|x: int, y: int| #[trigger]
        carving_room(width, height, x, y) ==> opens_one(before, after, x, y)
    &&& forall|x: int, y: int|
        0 <= x < width && 0 <= y < height && !carve_target(width, height, x, y)
            ==> #[trigger] cell(after, x, y) == cell(before, x, y)
}

/// Whether the room at column `x`, row `y` comes before the room at column
/// `next_x`, row `next_y` when the rooms are taken row by row, each row from
/// left to right.
spec fn comes_before(x: int, y: int, next_x: int, next_y: int) -> bool {
    y < next_y || (y == next_y && x < next_x)
}

/// What the carving pass has done to the rows `before` when it has handled
/// every carving room that comes before column `next_x`, row `next_y` and
/// `after` is what it has reached: each room handled has opened exactly one of
/// its two neighbours and left the other as it was, and no other cell has
/// changed.
spec fn carved_until(
    before: Seq<Seq<Tile>>,
    after: Seq<Seq<Tile>>,
    width: int,
    height: int,
    next_x: int,
    next_y: int,
) -> bool {
    &&& shaped(after, width, height)
    &&& forall|x: int, y: int|
        #[trigger] carving_room(width, height, x, y) && comes_before(x, y, next_x, next_y)
            ==> opens_one(before, after, x, y)
    &&& forall|x: int, y: int|
        0 <= x < width && 0 <= y < height && !(carving_room(width, height, x - 1, y)
            && comes_before(x - 1, y, next_x, next_y)) && !(carving_room(width, height, x, y - 1)
            && comes_before(x, y - 1, next_x, next_y)) ==> #[trigger] cell(after, x, y) == cell(
            before,
            x,
            y,
        )
}

/// The direction that a drawn coin stands for: zero carves down, anything else
/// carves right.
pub open spec fn coin_direction(coin: u16) -> CarveDirection {
    if coin == 0 {
        CarveDirection::Down
    } else {
        CarveDirection::Right
    }
}

/// The cell that a room at column `x`, row `y` opens when it carves in
/// `direction`, as column and row.
pub open spec fn opening(x: int, y: int, direction: CarveDirection) -> (int, int) {
    match direction {
        CarveDirection::Right => (x + 1, y),
        CarveDirection::Down => (x, y + 1),
    }
}

/// Whether the cell at column `x`, row `y` belongs to the goal and its three
/// neighbours: the square of four cells in the bottom right corner of the
/// inner field.
pub open spec fn in_win_area(width: int, height: int, x: int, y: int) -> bool {
    width - 3 <= x <= width - 2 && height - 3 <= y <= height - 2
}

/// The kind that the placing of the goal gives to the cell at column `x`, row
/// `y`, which had the kind `kind`: the goal on the last inner cell, at column
/// `width - 2`, row `height - 2`; a passage on its three neighbours to the
/// left, above, and above to the left; elsewhere the kind that the cell had.
pub open spec fn win_area_kind(width: int, height: int, x: int, y: int, kind: TileKind) -> TileKind {
    if x == width - 2 && y == height - 2 {
        TileKind::Goal
    } else if in_win_area(width, height, x, y) {
        TileKind::Passage
    } else {
        kind
    }
}

/// The rows `tiles` of a grid with the goal placed. A grid of fewer than four
/// columns or rows cannot hold the goal and its three neighbours inside the
/// wall ring, and is left as it is.
pub open spec fn with_win_area(tiles: Seq<Seq<Tile>>, width: int, height: int) -> Seq<Seq<Tile>> {
    if width >= 4 && height >= 4 {
        Seq::new(
            height as nat,
            |y: int|
                Seq::new(
                    width as nat,
                    |x: int|
                        Tile {
                            kind: win_area_kind(width, height, x, y, cell(tiles, x, y).kind),
                            occupied: cell(tiles, x, y).occupied,
                        },
                ),
        )
    } else {
        tiles
    }
}

/// The rows `after` are an outcome of carving the rows `before` and placing
/// the goal on what the carving left.
pub open spec fn maze_of(
    before: Seq<Seq<Tile>>,
    after: Seq<Seq<Tile>>,
    width: int,
    height: int,
) -> bool {
    exists|middle: Seq<Seq<Tile>>|
        carved(before, middle, width, height) && after == #[trigger] with_win_area(
            middle,
            width,
            height,
        )
}

/// The rows `after` are an outcome of the whole generation on a grid whose
/// rows were `before`: the lattice is laid out, the rooms carve, and the goal
/// is placed. Of `before` only the occupancy of each cell is kept.
pub open spec fn generated(
    before: Seq<Seq<Tile>>,
    after: Seq<Seq<Tile>>,
    width: int,
    height: int,
) -> bool {
    maze_of(lattice(before, width, height), after, width, height)
}

/// rand's thread-local random number generator, `rand::rngs::ThreadRng`.
/// Nothing is known of what is inside it.
#[verifier::external_type_specification]
#[verifier::external_body]
pub struct ExThreadRng(rand::rngs::ThreadRng);

/// `rand::thread_rng` hands out the generator of the current thread. Nothing
/// is claimed of it. It panics on a system that cannot seed the generator;
/// no argument decides that.
pub assume_specification[ rand::thread_rng ]() -> (rng: rand::rngs::ThreadRng);

/// A number drawn by `rand::Rng::gen_range` from the generator `rng`, over the
/// half-open range from `low` to `high`. The range must not be empty, since
/// `gen_range` panics on an empty one. All that is claimed of the number is
/// that it lies in the range: which one comes is up to the generator. This is
/// taken on trust from rand, not proved.
#[verifier::external_body]
fn random_in(rng: &mut rand::rngs::ThreadRng, low: u16, high: u16) -> (drawn: u16)
    requires
        low < high,
    ensures
        low <= drawn < high,
{
    rng.gen_range(low..high)
}

/// The direction that a drawn coin stands for.
pub fn carve_direction(coin: u16) -> (direction: CarveDirection)
    ensures
        direction == coin_direction(coin),
{
    if coin == 0 {
        CarveDirection::Down
    } else {
        CarveDirection::Right
    }
}

impl Grid {
    /// Lays out the wall ring and the lattice: afterwards every cell has the
    /// kind that `lattice_kind` gives it, whatever it was before, and the wall
    /// ring is closed. Occupancy is not touched.
    pub fn set_screen(&mut self)
        requires
            old(self).wf(),
        ensures
            final(self).wf(),
            final(self).spec_width() == old(self).spec_width(),
            final(self).spec_height() == old(self).spec_height(),
            final(self)@ == lattice(
                old(self)@,
                old(self).spec_width() as int,
                old(self).spec_height() as int,
            ),
            final(self).enclosed(),
    {
        let width = self.width();
        let height = self.height();
        let mut y: usize = 0;
        while y < height
            invariant
                self.wf(),
                self.spec_width() == width == old(self).spec_width(),
                self.spec_height() == height == old(self).spec_height(),
                y <= height,
                forall|i: int, j: int|
                    self.in_bounds(i, j) ==> #[trigger] cell(self@, i, j) == (if j < y {
                        Tile {
                            kind: lattice_kind(width as int, height as int, i, j),
                            occupied: cell(old(self)@, i, j).occupied,
                        }
                    } else {
                        cell(old(self)@, i, j)
                    }),
            decreases height - y,
        {
            let mut x: usize = 0;
            while x < width
                invariant
                    self.wf(),
                    self.spec_width() == width == old(self).spec_width(),
                    self.spec_height() == height == old(self).spec_height(),
                    y < height,
                    x <= width,
                    forall|i: int, j: int|
                        self.in_bounds(i, j) ==> #[trigger] cell(self@, i, j) == (if j < y || (j
                            == y && i < x) {
                            Tile {
                                kind: lattice_kind(width as int, height as int, i, j),
                                occupied: cell(old(self)@, i, j).occupied,
                            }
                        } else {
                            cell(old(self)@, i, j)
                        }),
                decreases width - x,
            {
                let kind = if self.is_on_ring(x, y) || x % 2 == 0 || y % 2 == 0 {
                    TileKind::Wall
                } else {
                    TileKind::Passage
                };
                proof {
                    lemma_with_cell(
                        self@,
                        width as int,
                        height as int,
                        x as int,
                        y as int,
                        Tile { kind, occupied: self.at(x as int, y as int).occupied },
                    );
                }
                self.set_kind(x, y, kind);
                x += 1;
            }
            y += 1;
        }
        proof {
            lemma_same_cells(
                self@,
                lattice(old(self)@, width as int, height as int),
                width as int,
                height as int,
            );
            lemma_lattice_is_enclosed(old(self)@, width as int, height as int);
        }
    }

    /// Opens, from the room at column `x`, row `y`, the neighbour that
    /// `direction` names: that one cell becomes a passage, and nothing else
    /// changes. Both neighbours must lie in the grid.
    pub fn carve_from(&mut self, x: usize, y: usize, direction: CarveDirection)
        requires
            old(self).wf(),
            old(self).in_bounds(x + 1, y + 1),
        ensures
            final(self).wf(),
            final(self).spec_width() == old(self).spec_width(),
            final(self).spec_height() == old(self).spec_height(),
            final(self)@ == with_cell(
                old(self)@,
                opening(x as int, y as int, direction).0,
                opening(x as int, y as int, direction).1,
                opened(
                    old(self).at(
                        opening(x as int, y as int, direction).0,
                        opening(x as int, y as int, direction).1,
                    ),
                ),
            ),
    {
        match direction {
            CarveDirection::Right => self.set_kind(x + 1, y, TileKind::Passage),
            CarveDirection::Down => self.set_kind(x, y + 1, TileKind::Passage),
        }
    }

    /// The carving pass: takes the carving rooms row by row, each row from left
    /// to right, draws a coin for each and opens the neighbour that the coin
    /// names. Whatever the coins, the outcome is a carving of the grid as
    /// `carved` describes it, and a closed wall ring stays closed.
    pub fn carve_passages(&mut self)
        requires
            old(self).wf(),
        ensures
            final(self).wf(),
            final(self).spec_width() == old(self).spec_width(),
            final(self).spec_height() == old(self).spec_height(),
            carved(
                old(self)@,
                final(self)@,
                old(self).spec_width() as int,
                old(self).spec_height() as int,
            ),
            old(self).enclosed() ==> final(self).enclosed(),
    {
        let width = self.width();
        let height = self.height();
        if width < 4 || height < 4 {
            return;
        }
        let mut rng = rand::thread_rng();
        let mut y: usize = 1;
        while y <= height - 3
            invariant
                width >= 4,
                height >= 4,
                self.wf(),
                self.spec_width() == width == old(self).spec_width(),
                self.spec_height() == height == old(self).spec_height(),
                1 <= y <= height - 1,
                y % 2 == 1,
                carved_until(old(self)@, self@, width as int, height as int, 0, y as int),
            decreases height - y,
        {
            let mut x: usize = 1;
            while x <= width - 3
                invariant
                    width >= 4,
                    height >= 4,
                    self.wf(),
                    self.spec_width() == width == old(self).spec_width(),
                    self.spec_height() == height == old(self).spec_height(),
                    1 <= y <= height - 3,
                    y % 2 == 1,
                    1 <= x <= width - 1,
                    x % 2 == 1,
                    carved_until(old(self)@, self@, width as int, height as int, x as int, y as int),
                decreases width - x,
            {
                let coin = random_in(&mut rng, 0, 2);
                let direction = carve_direction(coin);
                let ghost reached = self@;
                self.carve_from(x, y, direction);
                proof {
                    lemma_carve_step(
                        old(self)@,
                        reached,
                        width as int,
                        height as int,
                        x as int,
                        y as int,
                        direction,
                    );
                }
                x += 2;
            }
            y += 2;
        }
        proof {
            if old(self).enclosed() {
                lemma_carving_keeps_ring(old(self)@, self@, width as int, height as int);
            }
        }
    }

    /// Places the goal: the last inner cell becomes the goal and its three
    /// neighbours to the left, above, and above to the left become passages, so
    /// that the goal can be stepped on. On a grid of fewer than four columns
    /// or rows nothing is placed. A closed wall ring stays closed.
    pub fn set_win_area(&mut self)
        requires
            old(self).wf(),
        ensures
            final(self).wf(),
            final(self).spec_width() == old(self).spec_width(),
            final(self).spec_height() == old(self).spec_height(),
            final(self)@ == with_win_area(
                old(self)@,
                old(self).spec_width() as int,
                old(self).spec_height() as int,
            ),
            old(self).enclosed() ==> final(self).enclosed(),
    {
        let width = self.width();
        let height = self.height();
        if width < 4 || height < 4 {
            return;
        }
        self.set_kind(width - 2, height - 2, TileKind::Goal);
        self.set_kind(width - 2, height - 3, TileKind::Passage);
        self.set_kind(width - 3, height - 2, TileKind::Passage);
        self.set_kind(width - 3, height - 3, TileKind::Passage);
        proof {
            assert(self@ =~~= with_win_area(old(self)@, width as int, height as int));
            if old(self).enclosed() {
                lemma_win_area_keeps_ring(old(self)@, width as int, height as int);
            }
        }
    }

    /// Carves the maze into a laid-out grid and places the goal: the carving
    /// pass, then the placing of the goal on what it left. A closed wall ring
    /// stays closed.
    pub fn gen_maze(&mut self)
        requires
            old(self).wf(),
        ensures
            final(self).wf(),
            final(self).spec_width() == old(self).spec_width(),
            final(self).spec_height() == old(self).spec_height(),
            maze_of(
                old(self)@,
                final(self)@,
                old(self).spec_width() as int,
                old(self).spec_height() as int,
            ),
            old(self).enclosed() ==> final(self).enclosed(),
    {
        self.carve_passages();
        self.set_win_area();
    }

    /// Generates a maze on the grid, whatever its cells were: lays out the wall
    /// ring and the lattice, carves, and places the goal. The wall ring of the
    /// outcome is closed. Occupancy is not touched.
    pub fn generate(&mut self)
        requires
            old(self).wf(),
        ensures
            final(self).wf(),
            final(self).spec_width() == old(self).spec_width(),
            final(self).spec_height() == old(self).spec_height(),
            generated(
                old(self)@,
                final(self)@,
                old(self).spec_width() as int,
                old(self).spec_height() as int,
            ),
            final(self).enclosed(),
    {
        self.set_screen();
        self.gen_maze();
    }
}

/// The lattice closes the wall ring, whatever the grid held before.
pub proof fn lemma_lattice_is_enclosed(tiles: Seq<Seq<Tile>>, width: int, height: int)
    ensures
        ring_walled(lattice(tiles, width, height), width, height),
{
}

/// Carving never opens the wall ring: where the ring was closed before the
/// carving pass, it is closed after it.
pub proof fn lemma_carving_keeps_ring(
    before: Seq<Seq<Tile>>,
    after: Seq<Seq<Tile>>,
    width: int,
    height: int,
)
    requires
        carved(before, after, width, height),
        ring_walled(before, width, height),
    ensures
        ring_walled(after, width, height),
{
}

/// Placing the goal never opens the wall ring: where the ring was closed
/// before, it is closed after.
pub proof fn lemma_win_area_keeps_ring(tiles: Seq<Seq<Tile>>, width: int, height: int)
    requires
        ring_walled(tiles, width, height),
    ensures
        ring_walled(with_win_area(tiles, width, height), width, height),
{
    let placed = with_win_area(tiles, width, height);
}

/// The lattice makes a wall of every cell whose column or row is even, and of
/// every cell on the outermost ring; the other cells, the rooms, it makes
/// passages.
pub proof fn lemma_lattice_walls(tiles: Seq<Seq<Tile>>, width: int, height: int, x: int, y: int)
    requires
        0 <= x < width,
        0 <= y < height,
    ensures
        cell(lattice(tiles, width, height), x, y).kind == (if x % 2 == 0 || y % 2 == 0 || on_ring(
            width,
            height,
            x,
            y,
        ) {
            TileKind::Wall
        } else {
            TileKind::Passage
        }),
        cell(lattice(tiles, width, height), x, y).occupied == cell(tiles, x, y).occupied,
{
}

/// Carving only opens: after the carving pass a cell is as it was before, or
/// it is one that a carving room can open and has become a passage.
pub proof fn lemma_carving_only_opens(
    before: Seq<Seq<Tile>>,
    after: Seq<Seq<Tile>>,
    width: int,
    height: int,
    x: int,
    y: int,
)
    requires
        carved(before, after, width, height),
        0 <= x < width,
        0 <= y < height,
    ensures
        cell(after, x, y) == cell(before, x, y) || (carve_target(width, height, x, y) && cell(
            after,
            x,
            y,
        ) == opened(cell(before, x, y))),
{
}

/// In a generated maze the goal is on the last inner cell and nowhere else,
/// and a grid too small to hold it has none.
pub proof fn lemma_generated_goal(
    before: Seq<Seq<Tile>>,
    after: Seq<Seq<Tile>>,
    width: int,
    height: int,
    x: int,
    y: int,
)
    requires
        generated(before, after, width, height),
        0 <= x < width,
        0 <= y < height,
    ensures
        cell(after, x, y).kind == TileKind::Goal <==> width >= 4 && height >= 4 && x == width - 2
            && y == height - 2,
{
    let laid = lattice(before, width, height);
    let middle = choose|middle: Seq<Seq<Tile>>|
        carved(laid, middle, width, height) && after == #[trigger] with_win_area(
            middle,
            width,
            height,
        );
    lemma_carving_only_opens(laid, middle, width, height, x, y);
}

/// In a generated maze every room, an inner cell whose column and row are both
/// odd, can be stepped on: it is a passage, or it is the goal.
pub proof fn lemma_generated_rooms(
    before: Seq<Seq<Tile>>,
    after: Seq<Seq<Tile>>,
    width: int,
    height: int,
    x: int,
    y: int,
)
    requires
        generated(before, after, width, height),
        0 <= x < width,
        0 <= y < height,
        !on_ring(width, height, x, y),
        x % 2 == 1,
        y % 2 == 1,
    ensures
        cell(after, x, y).kind != TileKind::Wall,
{
    let laid = lattice(before, width, height);
    let middle = choose|middle: Seq<Seq<Tile>>|
        carved(laid, middle, width, height) && after == #[trigger] with_win_area(
            middle,
            width,
            height,
        );
    lemma_carving_only_opens(laid, middle, width, height, x, y);
}

/// In a generated maze a cell that the lattice made a wall, one whose column
/// or row is even, is still a wall unless a carving room could open it or the
/// placing of the goal reached it. Where it is not a wall it is a passage,
/// but for the last inner cell, which is the goal.
pub proof fn lemma_generated_walls(
    before: Seq<Seq<Tile>>,
    after: Seq<Seq<Tile>>,
    width: int,
    height: int,
    x: int,
    y: int,
)
    requires
        generated(before, after, width, height),
        0 <= x < width,
        0 <= y < height,
        x % 2 == 0 || y % 2 == 0,
    ensures
        cell(after, x, y).kind != TileKind::Wall ==> carve_target(width, height, x, y) || (width
            >= 4 && height >= 4 && in_win_area(width, height, x, y)),
        cell(after, x, y).kind == TileKind::Wall || cell(after, x, y).kind == TileKind::Passage
            || (x == width - 2 && y == height - 2),
{
    let laid = lattice(before, width, height);
    let middle = choose|middle: Seq<Seq<Tile>>|
        carved(laid, middle, width, height) && after == #[trigger] with_win_area(
            middle,
            width,
            height,
        );
    lemma_carving_only_opens(laid, middle, width, height, x, y);
}

/// Every generated maze has a closed wall ring, whatever its size.
pub proof fn lemma_generated_is_enclosed(
    before: Seq<Seq<Tile>>,
    after: Seq<Seq<Tile>>,
    width: int,
    height: int,
)
    requires
        generated(before, after, width, height),
    ensures
        ring_walled(after, width, height),
{
    let laid = lattice(before, width, height);
    let middle = choose|middle: Seq<Seq<Tile>>|
        carved(laid, middle, width, height) && after == #[trigger] with_win_area(
            middle,
            width,
            height,
        );
    lemma_lattice_is_enclosed(before, width, height);
    lemma_carving_keeps_ring(laid, middle, width, height);
    lemma_win_area_keeps_ring(middle, width, height);
}

/// One step of the carving pass: when every room before column `x`, row `y` is
/// handled and the room there then opens one neighbour, every room before the
/// next room of the row is handled.
proof fn lemma_carve_step(
    before: Seq<Seq<Tile>>,
    reached: Seq<Seq<Tile>>,
    width: int,
    height: int,
    x: int,
    y: int,
    direction: CarveDirection,
)
    requires
        carving_room(width, height, x, y),
        carved_until(before, reached, width, height, x, y),
    ensures
        carved_until(
            before,
            with_cell(
                reached,
                opening(x, y, direction).0,
                opening(x, y, direction).1,
                opened(cell(reached, opening(x, y, direction).0, opening(x, y, direction).1)),
            ),
            width,
            height,
            x + 2,
            y,
        ),
{
    let (tx, ty) = opening(x, y, direction);
    lemma_with_cell(reached, width, height, tx, ty, opened(cell(reached, tx, ty)));
}

} // verus!
