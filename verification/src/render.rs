//! What a grid looks like: for each cell the colour to paint it in. Nothing
//! is painted here; the commands are handed to whoever owns the screen.

use vstd::prelude::*;
use vstd::arithmetic::div_mod::lemma_fundamental_div_mod_converse;
use crate::grid::{cell, Grid, Tile, TileKind};

verus! {

/// The colour class of a painted cell.
#[derive(Clone, Copy, Debug, PartialEq, Eq, Structural)]
pub enum VisualState {
    WallColor,
    PassageColor,
    GoalColor,
    PlayerColor,
}

/// An order to paint the cell at column `x`, row `y` in the colour `visual`.
#[derive(Clone, Copy, Debug, PartialEq, Eq, Structural)]
pub struct PaintCommand {
    pub x: usize,
    pub y: usize,
    pub visual: VisualState,
}

/// How a tile is shown: the player's colour where the player stands, whatever
/// the tile is; otherwise the colour of its kind.
pub open spec fn visual_of(tile: Tile) -> VisualState {
    if tile.occupied {
        VisualState::PlayerColor
    } else {
        match tile.kind {
            TileKind::Wall => VisualState::WallColor,
            TileKind::Passage => VisualState::PassageColor,
            TileKind::Goal => VisualState::GoalColor,
        }
    }
}

/// The command that paints the cell at column `x`, row `y` of the rows `tiles`.
pub open spec fn paint_of(tiles: Seq<Seq<Tile>>, x: int, y: int) -> PaintCommand {
    PaintCommand { x: x as usize, y: y as usize, visual: visual_of(cell(tiles, x, y)) }
}

/// The commands of a full repaint of a grid of `width` columns and `height`
/// rows: one for each cell, row by row from the top, each row from the left,
/// so that the command at place `i` paints column `i % width` of row
/// `i / width`.
pub open spec fn paint_commands(tiles: Seq<Seq<Tile>>, width: int, height: int) -> Seq<
    PaintCommand,
> {
    Seq::new((width * height) as nat, |i: int| paint_of(tiles, i % width, i / width))
}

/// How a tile is shown.
pub fn visual_state(tile: Tile) -> (visual: VisualState)
    ensures
        visual == visual_of(tile),
{
    if tile.occupied {
        VisualState::PlayerColor
    } else {
        match tile.kind {
            TileKind::Wall => VisualState::WallColor,
            TileKind::Passage => VisualState::PassageColor,
            TileKind::Goal => VisualState::GoalColor,
        }
    }
}

/// The commands of a full repaint of `grid`. The grid is only read.
pub fn render(grid: &Grid) -> (commands: Vec<PaintCommand>)
    requires
        grid.wf(),
    ensures
        commands@ == paint_commands(
            grid@,
            grid.spec_width() as int,
            grid.spec_height() as int,
        ),
{
    let width = grid.width();
    let height = grid.height();
    let mut commands: Vec<PaintCommand> = Vec::new();
    let mut y: usize = 0;
    while y < height
        invariant
            grid.wf(),
            width == grid.spec_width(),
            height == grid.spec_height(),
            y <= height,
            commands@.len() == y * width,
            forall|i: int|
                0 <= i < commands@.len() ==> #[trigger] commands@[i] == paint_of(
                    grid@,
                    i % (width as int),
                    i / (width as int),
                ),
        decreases height - y,
    {
        let mut x: usize = 0;
        while x < width
            invariant
                grid.wf(),
                width == grid.spec_width(),
                height == grid.spec_height(),
                y < height,
                x <= width,
                commands@.len() == y * width + x,
                forall|i: int|
                    0 <= i < commands@.len() ==> #[trigger] commands@[i] == paint_of(
                        grid@,
                        i % (width as int),
                        i / (width as int),
                    ),
            decreases width - x,
        {
            let visual = visual_state(grid.tile_at(x, y));
            proof {
                lemma_fundamental_div_mod_converse(
                    y * width + x,
                    width as int,
                    y as int,
                    x as int,
                );
            }
            commands.push(PaintCommand { x, y, visual });
            x += 1;
        }
        proof {
            assert(y * width + width == (y + 1) * width) by (nonlinear_arith);
        }
        y += 1;
    }
    proof {
        assert(height * width == width * height) by (nonlinear_arith);
        assert(commands@ =~= paint_commands(grid@, width as int, height as int));
    }
    commands
}

/// A full repaint paints every cell: the cell at column `x`, row `y` is
/// painted by the command at place `y * width + x`.
pub proof fn lemma_repaint_covers(tiles: Seq<Seq<Tile>>, width: int, height: int, x: int, y: int)
    requires
        0 <= x < width,
        0 <= y < height,
    ensures
        0 <= y * width + x < paint_commands(tiles, width, height).len(),
        paint_commands(tiles, width, height)[y * width + x] == paint_of(tiles, x, y),
{
    lemma_fundamental_div_mod_converse(y * width + x, width, y, x);
    assert(0 <= y * width && y * width + width <= height * width) by (nonlinear_arith)
        requires
            0 <= y < height,
            0 < width,
    ;
    assert(height * width == width * height) by (nonlinear_arith);
}

/// A full repaint paints no cell twice: two commands at different places paint
/// different cells, and every command paints a cell of the grid.
pub proof fn lemma_repaint_once(tiles: Seq<Seq<Tile>>, width: int, height: int, i: int, j: int)
    requires
        0 <= width <= usize::MAX,
        0 <= height <= usize::MAX,
        0 <= i < paint_commands(tiles, width, height).len(),
        0 <= j < paint_commands(tiles, width, height).len(),
        i != j,
    ensures
        paint_commands(tiles, width, height)[i].x != paint_commands(tiles, width, height)[j].x
            || paint_commands(tiles, width, height)[i].y != paint_commands(
            tiles,
            width,
            height,
        )[j].y,
        0 <= paint_commands(tiles, width, height)[i].x < width,
        0 <= paint_commands(tiles, width, height)[i].y < height,
{
    assert(width > 0 && height > 0) by (nonlinear_arith)
        requires
            0 <= width,
            0 <= height,
            0 <= i < width * height,
    ;
    vstd::arithmetic::div_mod::lemma_fundamental_div_mod(i, width);
    vstd::arithmetic::div_mod::lemma_fundamental_div_mod(j, width);
    vstd::arithmetic::div_mod::lemma_mod_pos_bound(i, width);
    vstd::arithmetic::div_mod::lemma_mod_pos_bound(j, width);
    vstd::arithmetic::div_mod::lemma_div_pos_is_pos(i, width);
    vstd::arithmetic::div_mod::lemma_div_pos_is_pos(j, width);
    assert(i / width < height && j / width < height) by (nonlinear_arith)
        requires
            0 < width,
            0 <= i < width * height,
            0 <= j < width * height,
            i == width * (i / width) + i % width,
            j == width * (j / width) + j % width,
            0 <= i % width < width,
            0 <= j % width < width,
    ;
}

} // verus!
