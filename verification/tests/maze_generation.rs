use terminal_maze::grid::{Grid, TileKind};
use terminal_maze::maze::{carve_direction, CarveDirection};

fn kinds(grid: &Grid) -> Vec<String> {
    let mut rows = Vec::new();
    for y in 0..grid.height() {
        let mut row = String::new();
        for x in 0..grid.width() {
            row.push(match grid.tile_at(x, y).kind {
                TileKind::Wall => '#',
                TileKind::Passage => '.',
                TileKind::Goal => 'G',
            });
        }
        rows.push(row);
    }
    rows
}

fn laid_out(width: usize, height: usize) -> Grid {
    let mut grid = Grid::new(width, height);
    grid.set_screen();
    grid
}

fn on_ring(grid: &Grid, x: usize, y: usize) -> bool {
    x == 0 || y == 0 || x == grid.width() - 1 || y == grid.height() - 1
}

fn carves(grid: &Grid, x: usize, y: usize) -> bool {
    x % 2 == 1 && y % 2 == 1 && x + 3 <= grid.width() && y + 3 <= grid.height()
}

fn carve_target(grid: &Grid, x: usize, y: usize) -> bool {
    (x >= 1 && carves(grid, x - 1, y)) || (y >= 1 && carves(grid, x, y - 1))
}

fn in_win_area(grid: &Grid, x: usize, y: usize) -> bool {
    grid.width() >= 4
        && grid.height() >= 4
        && (x + 3 == grid.width() || x + 2 == grid.width())
        && (y + 3 == grid.height() || y + 2 == grid.height())
}

#[test]
fn lattice_of_seven_by_seven() {
    let grid = laid_out(7, 7);
    assert_eq!(
        kinds(&grid),
        vec![
            "#######",
            "#.#.#.#",
            "#######",
            "#.#.#.#",
            "#######",
            "#.#.#.#",
            "#######",
        ]
    );
    assert_eq!(grid.tile_at(1, 1).kind, TileKind::Passage);
    assert_eq!(grid.tile_at(2, 2).kind, TileKind::Wall);
    assert_eq!(grid.tile_at(1, 2).kind, TileKind::Wall);
}

#[test]
fn lattice_of_even_size() {
    assert_eq!(
        kinds(&laid_out(8, 6)),
        vec![
            "########",
            "#.#.#.##",
            "########",
            "#.#.#.##",
            "########",
            "########",
        ]
    );
}

#[test]
fn lattice_of_wide_and_tall_grids() {
    assert_eq!(kinds(&laid_out(9, 3)), vec!["#########", "#.#.#.#.#", "#########"]);
    assert_eq!(kinds(&laid_out(3, 5)), vec!["###", "#.#", "###", "#.#", "###"]);
}

#[test]
fn lattice_of_small_grids() {
    assert_eq!(kinds(&laid_out(0, 0)), Vec::<String>::new());
    assert_eq!(kinds(&laid_out(1, 1)), vec!["#"]);
    assert_eq!(kinds(&laid_out(2, 2)), vec!["##", "##"]);
    assert_eq!(kinds(&laid_out(3, 3)), vec!["###", "#.#", "###"]);
    assert_eq!(kinds(&laid_out(4, 4)), vec!["####", "#.##", "####", "####"]);
    assert_eq!(kinds(&laid_out(1, 4)), vec!["#", "#", "#", "#"]);
}

#[test]
fn lattice_overwrites_what_was_there() {
    let mut grid = Grid::new(5, 5);
    grid.set_kind(1, 1, TileKind::Goal);
    grid.set_kind(2, 2, TileKind::Goal);
    grid.set_kind(0, 0, TileKind::Goal);
    grid.set_screen();
    assert_eq!(kinds(&grid), vec!["#####", "#.#.#", "#####", "#.#.#", "#####"]);
}

#[test]
fn lattice_keeps_occupancy() {
    let mut grid = Grid::new(5, 5);
    grid.set_occupied(1, 1, true);
    grid.set_occupied(2, 0, true);
    grid.set_screen();
    for y in 0..5 {
        for x in 0..5 {
            assert_eq!(grid.tile_at(x, y).occupied, (x, y) == (1, 1) || (x, y) == (2, 0));
        }
    }
}

#[test]
fn lattice_closes_the_ring() {
    for height in 0..9 {
        for width in 0..9 {
            assert!(laid_out(width, height).is_enclosed(), "{} by {}", width, height);
        }
    }
}

#[test]
fn coin_zero_carves_down_and_the_rest_right() {
    assert_eq!(carve_direction(0), CarveDirection::Down);
    assert_eq!(carve_direction(1), CarveDirection::Right);
    assert_eq!(carve_direction(2), CarveDirection::Right);
    assert_eq!(carve_direction(u16::MAX), CarveDirection::Right);
}

#[test]
fn carve_from_opens_the_right_neighbour() {
    let mut grid = laid_out(7, 7);
    grid.carve_from(1, 3, CarveDirection::Right);
    assert_eq!(
        kinds(&grid),
        vec![
            "#######",
            "#.#.#.#",
            "#######",
            "#...#.#",
            "#######",
            "#.#.#.#",
            "#######",
        ]
    );
}

#[test]
fn carve_from_opens_the_lower_neighbour() {
    let mut grid = laid_out(7, 7);
    grid.carve_from(3, 1, CarveDirection::Down);
    assert_eq!(
        kinds(&grid),
        vec![
            "#######",
            "#.#.#.#",
            "###.###",
            "#.#.#.#",
            "#######",
            "#.#.#.#",
            "#######",
        ]
    );
}

#[test]
fn carve_from_keeps_occupancy() {
    let mut grid = laid_out(5, 5);
    grid.set_occupied(2, 1, true);
    grid.carve_from(1, 1, CarveDirection::Right);
    assert!(grid.tile_at(2, 1).occupied);
    assert_eq!(grid.tile_at(2, 1).kind, TileKind::Passage);
}

#[test]
fn carving_opens_exactly_one_neighbour_of_each_room() {
    for height in 0..14 {
        for width in 0..14 {
            let before = laid_out(width, height);
            let mut grid = before.clone();
            grid.carve_passages();
            assert_eq!((grid.width(), grid.height()), (width, height));
            for y in 0..height {
                for x in 0..width {
                    if carves(&grid, x, y) {
                        let right = grid.tile_at(x + 1, y).kind;
                        let down = grid.tile_at(x, y + 1).kind;
                        assert!(
                            (right == TileKind::Passage && down == TileKind::Wall)
                                || (right == TileKind::Wall && down == TileKind::Passage),
                            "room ({}, {}) of {} by {}",
                            x, y, width, height
                        );
                    }
                    if !carve_target(&grid, x, y) {
                        assert_eq!(grid.tile_at(x, y), before.tile_at(x, y));
                    }
                }
            }
        }
    }
}

#[test]
fn carving_leaves_small_grids_alone() {
    for (width, height) in [(0, 0), (1, 1), (2, 2), (3, 3), (3, 9), (9, 3), (4, 3)] {
        let before = laid_out(width, height);
        let mut grid = before.clone();
        grid.carve_passages();
        assert_eq!(grid, before);
    }
}

#[test]
fn carving_of_four_by_four_opens_one_of_two() {
    let mut grid = laid_out(4, 4);
    grid.carve_passages();
    let picture = kinds(&grid);
    let right = vec!["####", "#..#", "####", "####"];
    let down = vec!["####", "#.##", "#.##", "####"];
    assert!(picture == right || picture == down, "{:?}", picture);
}

#[test]
fn carving_keeps_the_ring_and_the_rooms() {
    for size in 5..20 {
        let mut grid = laid_out(size, size + 1);
        grid.carve_passages();
        assert!(grid.is_enclosed());
        for y in 0..grid.height() {
            for x in 0..grid.width() {
                let kind = grid.tile_at(x, y).kind;
                assert_ne!(kind, TileKind::Goal);
                if !on_ring(&grid, x, y) && x % 2 == 1 && y % 2 == 1 {
                    assert_eq!(kind, TileKind::Passage);
                }
                if x % 2 == 0 && y % 2 == 0 {
                    assert_eq!(kind, TileKind::Wall);
                }
            }
        }
    }
}

#[test]
fn carving_keeps_occupancy() {
    let mut grid = laid_out(9, 9);
    grid.set_occupied(1, 1, true);
    grid.set_occupied(2, 1, true);
    grid.carve_passages();
    for y in 0..9 {
        for x in 0..9 {
            assert_eq!(grid.tile_at(x, y).occupied, (x, y) == (1, 1) || (x, y) == (2, 1));
        }
    }
}

#[test]
fn carving_draws_both_directions() {
    let mut grid = laid_out(41, 41);
    grid.carve_passages();
    let mut right = 0;
    let mut down = 0;
    for y in 0..41 {
        for x in 0..41 {
            if carves(&grid, x, y) {
                if grid.tile_at(x + 1, y).kind == TileKind::Passage {
                    right += 1;
                } else {
                    down += 1;
                }
            }
        }
    }
    assert_eq!(right + down, 19 * 19);
    assert!(right > 0, "no room carved right");
    assert!(down > 0, "no room carved down");
}

#[test]
fn carving_works_on_any_grid() {
    let mut grid = Grid::new(5, 5);
    grid.carve_passages();
    assert_eq!(kinds(&grid), vec![".....", ".....", ".....", ".....", "....."]);
}

#[test]
fn win_area_of_seven_by_seven() {
    let mut grid = laid_out(7, 7);
    grid.set_win_area();
    assert_eq!(
        kinds(&grid),
        vec![
            "#######",
            "#.#.#.#",
            "#######",
            "#.#.#.#",
            "####..#",
            "#.#..G#",
            "#######",
        ]
    );
    assert_eq!(grid.tile_at(5, 5).kind, TileKind::Goal);
    assert_eq!(grid.tile_at(4, 5).kind, TileKind::Passage);
    assert_eq!(grid.tile_at(5, 4).kind, TileKind::Passage);
    assert_eq!(grid.tile_at(4, 4).kind, TileKind::Passage);
}

#[test]
fn win_area_of_even_size() {
    let mut grid = laid_out(8, 6);
    grid.set_win_area();
    assert_eq!(
        kinds(&grid),
        vec![
            "########",
            "#.#.#.##",
            "########",
            "#.#.#..#",
            "#####.G#",
            "########",
        ]
    );
}

#[test]
fn win_area_of_four_by_four() {
    let mut grid = laid_out(4, 4);
    grid.set_win_area();
    assert_eq!(kinds(&grid), vec!["####", "#..#", "#.G#", "####"]);
}

#[test]
fn win_area_is_not_placed_on_small_grids() {
    for (width, height) in [(0, 0), (1, 1), (2, 2), (3, 3), (3, 7), (7, 3), (2, 9)] {
        let before = laid_out(width, height);
        let mut grid = before.clone();
        grid.set_win_area();
        assert_eq!(grid, before, "{} by {}", width, height);
    }
}

#[test]
fn win_area_keeps_occupancy() {
    let mut grid = laid_out(6, 6);
    grid.set_occupied(4, 4, true);
    grid.set_occupied(3, 3, true);
    grid.set_win_area();
    assert!(grid.tile_at(4, 4).occupied);
    assert!(grid.tile_at(3, 3).occupied);
    assert!(!grid.tile_at(3, 4).occupied);
    assert_eq!(grid.tile_at(4, 4).kind, TileKind::Goal);
}

#[test]
fn gen_maze_carves_and_places_the_goal() {
    for height in 0..13 {
        for width in 0..13 {
            let before = laid_out(width, height);
            let mut grid = before.clone();
            grid.gen_maze();
            assert!(grid.is_enclosed());
            for y in 0..height {
                for x in 0..width {
                    let kind = grid.tile_at(x, y).kind;
                    if in_win_area(&grid, x, y) {
                        let goal = x + 2 == width && y + 2 == height;
                        assert_eq!(kind, if goal { TileKind::Goal } else { TileKind::Passage });
                    } else if carve_target(&grid, x, y) {
                        assert_ne!(kind, TileKind::Goal);
                    } else {
                        assert_eq!(kind, before.tile_at(x, y).kind);
                    }
                    if carves(&grid, x, y)
                        && !in_win_area(&grid, x + 1, y)
                        && !in_win_area(&grid, x, y + 1)
                    {
                        let right = grid.tile_at(x + 1, y).kind;
                        let down = grid.tile_at(x, y + 1).kind;
                        assert!(
                            (right == TileKind::Passage && down == TileKind::Wall)
                                || (right == TileKind::Wall && down == TileKind::Passage)
                        );
                    }
                }
            }
        }
    }
}

#[test]
fn generated_maze_has_a_closed_ring() {
    for height in 0..16 {
        for width in 0..16 {
            let mut grid = Grid::new(width, height);
            grid.generate();
            assert_eq!((grid.width(), grid.height()), (width, height));
            assert!(grid.is_enclosed(), "{} by {}", width, height);
            for y in 0..height {
                for x in 0..width {
                    if on_ring(&grid, x, y) {
                        assert_eq!(grid.tile_at(x, y).kind, TileKind::Wall);
                    }
                }
            }
        }
    }
}

#[test]
fn generated_maze_keeps_the_lattice_walls() {
    for size in 5..18 {
        let mut grid = Grid::new(size + 2, size);
        grid.generate();
        for y in 1..grid.height() - 1 {
            for x in 1..grid.width() - 1 {
                let kind = grid.tile_at(x, y).kind;
                if x % 2 == 0 || y % 2 == 0 {
                    if in_win_area(&grid, x, y) {
                        continue;
                    }
                    assert_ne!(kind, TileKind::Goal);
                    if !carve_target(&grid, x, y) {
                        assert_eq!(kind, TileKind::Wall);
                    }
                } else {
                    assert_ne!(kind, TileKind::Wall);
                }
            }
        }
    }
}

#[test]
fn generated_maze_has_one_goal_on_the_last_inner_cell() {
    for height in 0..12 {
        for width in 0..12 {
            let mut grid = Grid::new(width, height);
            grid.generate();
            for y in 0..height {
                for x in 0..width {
                    let goal = width >= 4 && height >= 4 && x == width - 2 && y == height - 2;
                    assert_eq!(grid.tile_at(x, y).kind == TileKind::Goal, goal);
                }
            }
        }
    }
}

#[test]
fn generated_maze_forgets_old_kinds_and_keeps_occupancy() {
    let mut grid = Grid::new(9, 7);
    grid.set_kind(0, 0, TileKind::Goal);
    grid.set_kind(3, 3, TileKind::Goal);
    grid.set_kind(2, 2, TileKind::Goal);
    grid.set_occupied(1, 1, true);
    grid.generate();
    assert_eq!(grid.tile_at(0, 0).kind, TileKind::Wall);
    assert_eq!(grid.tile_at(3, 3).kind, TileKind::Passage);
    assert_eq!(grid.tile_at(2, 2).kind, TileKind::Wall);
    for y in 0..7 {
        for x in 0..9 {
            assert_eq!(grid.tile_at(x, y).occupied, (x, y) == (1, 1));
        }
    }
}

#[test]
fn generated_small_mazes() {
    let mut three = Grid::new(3, 3);
    three.generate();
    assert_eq!(kinds(&three), vec!["###", "#.#", "###"]);
    let mut four = Grid::new(4, 4);
    four.generate();
    assert_eq!(kinds(&four), vec!["####", "#..#", "#.G#", "####"]);
    let mut two = Grid::new(2, 2);
    two.generate();
    assert_eq!(kinds(&two), vec!["##", "##"]);
}
