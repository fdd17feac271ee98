//! The tiles of the play field and the rectangular grid that holds them.
//!
//! A grid is modelled by its rows from top to bottom, each a sequence of tiles
//! from left to right. A cell is named by its column `x` and its row `y`, both
//! counted from zero at the top left.

use vstd::prelude::*;

verus! {

/// What a cell of the grid is.
#[derive(Clone, Copy, Debug, PartialEq, Eq, Structural)]
pub enum TileKind {
    Wall,
    Passage,
    Goal,
}

/// One cell of the grid: its kind, and whether the player stands on it.
#[derive(Clone, Copy, Debug, PartialEq, Eq, Structural)]
pub struct Tile {
    pub kind: TileKind,
    pub occupied: bool,
}

/// The tile at column `x`, row `y` of the rows `tiles`.
pub open spec fn cell(tiles: Seq<Seq<Tile>>, x: int, y: int) -> Tile {
    tiles[y][x]
}

/// The rows `tiles` with the one tile at column `x`, row `y` replaced by `tile`.
pub open spec fn with_cell(tiles: Seq<Seq<Tile>>, x: int, y: int, tile: Tile) -> Seq<Seq<Tile>> {
    tiles.update(y, tiles[y].update(x, tile))
}

/// The rows of a grid of `width` columns and `height` rows in which every cell
/// is a passage and none is occupied.
pub open spec fn blank(width: int, height: int) -> Seq<Seq<Tile>> {
    Seq::new(
        height as nat,
        |y: int|
            Seq::new(width as nat, |x: int| Tile { kind: TileKind::Passage, occupied: false }),
    )
}

/// The rows `tiles` form a rectangle of `width` columns and `height` rows.
pub open spec fn shaped(tiles: Seq<Seq<Tile>>, width: int, height: int) -> bool {
    &&& tiles.len() == height
    &&& forall|y: int| 0 <= y < height ==> (#[trigger] tiles[y]).len() == width
}

/// Whether the cell at column `x`, row `y` lies on the outermost ring of a
/// grid of `width` columns and `height` rows: in its first or last row, or in
/// its first or last column.
pub open spec fn on_ring(width: int, height: int, x: int, y: int) -> bool {
    x == 0 || y == 0 || x == width - 1 || y == height - 1
}

/// Every cell on the outermost ring of the rows `tiles` is a wall.
pub open spec fn ring_walled(tiles: Seq<Seq<Tile>>, width: int, height: int) -> bool {
    forall|x: int, y: int|
        0 <= x < width && 0 <= y < height && on_ring(width, height, x, y) ==> (#[trigger] cell(
            tiles,
            x,
            y,
        )).kind == TileKind::Wall
}

/// Rows of one shape that hold the same tile in every cell are the same rows.
pub proof fn lemma_same_cells(a: Seq<Seq<Tile>>, b: Seq<Seq<Tile>>, width: int, height: int)
    requires
        shaped(a, width, height),
        shaped(b, width, height),
        forall|x: int, y: int|
            0 <= x < width && 0 <= y < height ==> #[trigger] cell(a, x, y) == cell(b, x, y),
    ensures
        a == b,
{
    assert forall|y: int| 0 <= y < height implies #[trigger] a[y] =~= b[y] by {
        assert forall|x: int| 0 <= x < width implies a[y][x] == b[y][x] by {
            assert(cell(a, x, y) == cell(b, x, y));
        }
    }
    assert(a =~= b);
}

/// Replacing one tile changes that cell and no other, and keeps the shape.
pub proof fn lemma_with_cell(
    tiles: Seq<Seq<Tile>>,
    width: int,
    height: int,
    x: int,
    y: int,
    tile: Tile,
)
    requires
        shaped(tiles, width, height),
        0 <= x < width,
        0 <= y < height,
    ensures
        shaped(with_cell(tiles, x, y, tile), width, height),
        forall|i: int, j: int|
            0 <= i < width && 0 <= j < height ==> #[trigger] cell(
                with_cell(tiles, x, y, tile),
                i,
                j,
            ) == (if i == x && j == y {
                tile
            } else {
                cell(tiles, i, j)
            }),
{
    assert forall|i: int, j: int| 0 <= i < width && 0 <= j < height implies #[trigger] cell(
        with_cell(tiles, x, y, tile),
        i,
        j,
    ) == (if i == x && j == y {
        tile
    } else {
        cell(tiles, i, j)
    }) by {
        assert(tiles[j].len() == width);
    }
}

/// A rectangle of tiles, `width` columns by `height` rows, whose size never
/// changes after construction.
#[derive(Clone, Debug, PartialEq, Eq)]
pub struct Grid {
    width: usize,
    height: usize,
    rows: Vec<Vec<Tile>>,
}

impl View for Grid {
    type V = Seq<Seq<Tile>>;

    /// The rows from top to bottom, each a sequence of tiles from left to right.
    closed spec fn view(&self) -> Seq<Seq<Tile>> {
        Seq::new(self.rows@.len(), |y: int| self.rows@[y]@)
    }
}

impl Grid {
    /// The number of columns.
    pub closed spec fn spec_width(&self) -> usize {
        self.width
    }

    /// The number of rows.
    pub closed spec fn spec_height(&self) -> usize {
        self.height
    }

    /// The grid is a rectangle of the size it claims.
    pub open spec fn wf(&self) -> bool {
        shaped(self@, self.spec_width() as int, self.spec_height() as int)
    }

    /// Whether column `x`, row `y` names a cell of the grid.
    pub open spec fn in_bounds(&self, x: int, y: int) -> bool {
        0 <= x < self.spec_width() && 0 <= y < self.spec_height()
    }

    /// The tile at column `x`, row `y`.
    #[verifier::inline]
    pub open spec fn at(&self, x: int, y: int) -> Tile {
        cell(self@, x, y)
    }

    /// Every cell of the outermost ring is a wall, so that no step from an
    /// inner cell onto a cell that is not a wall can leave the grid.
    pub open spec fn enclosed(&self) -> bool {
        ring_walled(self@, self.spec_width() as int, self.spec_height() as int)
    }

    /// A grid of the given size in which every cell is an unoccupied passage.
    pub fn new(width: usize, height: usize) -> (grid: Grid)
        ensures
            grid.wf(),
            grid.spec_width() == width,
            grid.spec_height() == height,
            grid@ == blank(width as int, height as int),
    {
        let passage = Tile { kind: TileKind::Passage, occupied: false };
        let mut rows: Vec<Vec<Tile>> = Vec::new();
        let mut y: usize = 0;
        while y < height
            invariant
                y <= height,
                rows@.len() == y,
                forall|j: int| 0 <= j < y ==> (#[trigger] rows@[j])@.len() == width,
                forall|i: int, j: int|
                    0 <= j < y && 0 <= i < width ==> #[trigger] rows@[j]@[i] == passage,
            decreases height - y,
        {
            let mut row: Vec<Tile> = Vec::new();
            let mut x: usize = 0;
            while x < width
                invariant
                    x <= width,
                    row@.len() == x,
                    forall|i: int| 0 <= i < x ==> #[trigger] row@[i] == passage,
                decreases width - x,
            {
                row.push(passage);
                x += 1;
            }
            rows.push(row);
            y += 1;
        }
        let grid = Grid { width, height, rows };
        assert(grid@ =~~= blank(width as int, height as int));
        grid
    }

    /// The number of columns.
    #[verifier::when_used_as_spec(spec_width)]
    pub fn width(&self) -> (w: usize)
        ensures
            w == self.spec_width(),
    {
        self.width
    }

    /// The number of rows.
    #[verifier::when_used_as_spec(spec_height)]
    pub fn height(&self) -> (h: usize)
        ensures
            h == self.spec_height(),
    {
        self.height
    }

    /// Whether the cell at column `x`, row `y` lies on the outermost ring of
    /// the grid.
    pub fn is_on_ring(&self, x: usize, y: usize) -> (ring: bool)
        requires
            self.in_bounds(x as int, y as int),
        ensures
            ring == on_ring(self.spec_width() as int, self.spec_height() as int, x as int, y as int),
    {
        x == 0 || y == 0 || x == self.width - 1 || y == self.height - 1
    }

    /// The tile at column `x`, row `y`, which must name a cell of the grid.
    pub fn tile_at(&self, x: usize, y: usize) -> (tile: Tile)
        requires
            self.wf(),
            self.in_bounds(x as int, y as int),
        ensures
            tile == self.at(x as int, y as int),
    {
        self.rows[y][x]
    }

    /// Gives the cell at column `x`, row `y` the kind `kind` and leaves
    /// everything else, its occupancy included, as it was.
    pub fn set_kind(&mut self, x: usize, y: usize, kind: TileKind)
        requires
            old(self).wf(),
            old(self).in_bounds(x as int, y as int),
        ensures
            final(self).wf(),
            final(self).spec_width() == old(self).spec_width(),
            final(self).spec_height() == old(self).spec_height(),
            final(self)@ == with_cell(
                old(self)@,
                x as int,
                y as int,
                (Tile { kind, occupied: old(self).at(x as int, y as int).occupied }),
            ),
    {
        self.rows[y][x].kind = kind;
        assert(self@ =~~= with_cell(
            old(self)@,
            x as int,
            y as int,
            Tile { kind, occupied: old(self).at(x as int, y as int).occupied },
        ));
    }

    /// Marks the cell at column `x`, row `y` as holding the player, or as not
    /// holding it, and leaves everything else, its kind included, as it was.
    pub fn set_occupied(&mut self, x: usize, y: usize, occupied: bool)
        requires
            old(self).wf(),
            old(self).in_bounds(x as int, y as int),
        ensures
            final(self).wf(),
            final(self).spec_width() == old(self).spec_width(),
            final(self).spec_height() == old(self).spec_height(),
            final(self)@ == with_cell(
                old(self)@,
                x as int,
                y as int,
                (Tile { kind: old(self).at(x as int, y as int).kind, occupied }),
            ),
    {
        self.rows[y][x].occupied = occupied;
        assert(self@ =~~= with_cell(
            old(self)@,
            x as int,
            y as int,
            Tile { kind: old(self).at(x as int, y as int).kind, occupied },
        ));
    }

    /// Whether every cell of the outermost ring is a wall.
    pub fn is_enclosed(&self) -> (enclosed: bool)
        requires
            self.wf(),
        ensures
            enclosed == self.enclosed(),
    {
        let mut y: usize = 0;
        while y < self.height
            invariant
                self.wf(),
                y <= self.spec_height(),
                forall|i: int, j: int|
                    self.in_bounds(i, j) && j < y && on_ring(
                        self.spec_width() as int,
                        self.spec_height() as int,
                        i,
                        j,
                    ) ==> (#[trigger] cell(self@, i, j)).kind == TileKind::Wall,
            decreases self.spec_height() - y,
        {
            let mut x: usize = 0;
            while x < self.width
                invariant
                    self.wf(),
                    y < self.spec_height(),
                    x <= self.spec_width(),
                    forall|i: int, j: int|
                        self.in_bounds(i, j) && (j < y || (j == y && i < x)) && on_ring(
                            self.spec_width() as int,
                            self.spec_height() as int,
                            i,
                            j,
                        ) ==> (#[trigger] cell(self@, i, j)).kind == TileKind::Wall,
                decreases self.spec_width() - x,
            {
                if self.is_on_ring(x, y) && self.rows[y][x].kind != TileKind::Wall {
                    assert(cell(self@, x as int, y as int).kind != TileKind::Wall);
                    return false;
                }
                x += 1;
            }
            y += 1;
        }
        true
    }
}

} // verus!
