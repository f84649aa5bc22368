//! The layout assigner: gives every instance its window size and, in grid
//! mode, its cell.

use vstd::prelude::*;
use crate::config::{InstanceLayoutMode, PartyConfig};
use crate::grid::{is_aspect_aware, lemma_grid_has_no_spare_row, Grid, GridPosition};
use crate::instance::{Instance, InstanceManager};
use crate::resolution::Resolution;

verus! {

broadcast use vstd::std_specs::hash::group_hash_axioms;

/// Why no layout could be assigned.
#[derive(Clone, Copy, Debug, PartialEq, Eq, Structural)]
pub enum LayoutError {
    /// More players than the mode can place: the fixed quadrants hold four.
    TooManyPlayers,
    /// A grid needs at least one player.
    NoPlayers,
    /// A grid needs a screen with a positive width and height.
    InvalidScreen,
}

/// The most players that the fixed quadrants can hold.
pub const MAX_QUADRANT_PLAYERS: usize = 4;

/// Windows lower than this are too small to play in.
pub const MIN_USABLE_HEIGHT: u32 = 600;

/// The width of a window of the least usable height that keeps the aspect
/// ratio `width : height`, rounded down and held within `u32`. A window
/// without height has no aspect ratio; it is given the largest width if it
/// has any width, else none.
pub open spec fn rescaled_width(width: nat, height: nat) -> nat {
    if height == 0 {
        if width == 0 {
            0
        } else {
            u32::MAX as nat
        }
    } else if MIN_USABLE_HEIGHT as nat * width / height > u32::MAX as nat {
        u32::MAX as nat
    } else {
        MIN_USABLE_HEIGHT as nat * width / height
    }
}

/// The share of the screen that each of `players` gets in fixed-quadrant
/// mode: all of it for one, half of it for two, split left and right if
/// `vertical` and top and bottom if not, and a quarter for three or four.
pub open spec fn quadrant_share(players: nat, vertical: bool, screen: Resolution) -> Resolution {
    if players == 1 {
        screen
    } else if players == 2 {
        if vertical {
            Resolution { width: screen.width / 2, height: screen.height }
        } else {
            Resolution { width: screen.width, height: screen.height / 2 }
        }
    } else {
        Resolution { width: screen.width / 2, height: screen.height / 2 }
    }
}

/// The window size in fixed-quadrant mode: the player's share of the
/// screen, raised to the least usable height with its width rescaled if the
/// share is lower than that and the low-resolution fix is on.
pub open spec fn quadrant_size(players: nat, cfg: PartyConfig, screen: Resolution) -> Resolution {
    let share = quadrant_share(players, cfg.vertical_two_player, screen);
    if share.height < MIN_USABLE_HEIGHT && cfg.gamescope_fix_lowres {
        Resolution {
            width: rescaled_width(share.width as nat, share.height as nat) as u32,
            height: MIN_USABLE_HEIGHT,
        }
    } else {
        share
    }
}

/// The cell of the player at `index` in a grid of `cols` columns, filled row
/// by row.
pub open spec fn cell_of(index: int, cols: int) -> GridPosition {
    GridPosition { row: (index / cols) as u32, col: (index % cols) as u32 }
}

/// What stands in the way of a layout, if anything.
pub open spec fn layout_obstacle(players: nat, mode: InstanceLayoutMode, screen: Resolution)
    -> Option<LayoutError> {
    match mode {
        InstanceLayoutMode::KWin => if players > MAX_QUADRANT_PLAYERS {
            Some(LayoutError::TooManyPlayers)
        } else {
            None
        },
        InstanceLayoutMode::Sway => if players == 0 {
            Some(LayoutError::NoPlayers)
        } else if players > u32::MAX {
            Some(LayoutError::TooManyPlayers)
        } else if !screen.is_positive() {
            Some(LayoutError::InvalidScreen)
        } else {
            None
        },
        InstanceLayoutMode::Manual => None,
    }
}

/// `after` is `before` with every window set to `size`.
pub open spec fn is_quadrant_layout(before: InstanceManager, after: InstanceManager, size: Resolution)
    -> bool {
    &&& after.grid == before.grid
    &&& after.position_map == before.position_map
    &&& after.items@.len() == before.items@.len()
    &&& forall|i: int|
        0 <= i < after.items@.len() ==> #[trigger] after.items@[i] == (Instance {
            width: size.width,
            height: size.height,
            ..before.items@[i]
        })
}

/// `after` is `before` laid out in the aspect-aware grid for `screen`: every
/// window has the size of a cell, the players fill the cells row by row in
/// their order, and the map holds exactly these cells.
pub open spec fn is_grid_layout(before: InstanceManager, after: InstanceManager, screen: Resolution)
    -> bool {
    &&& after.items@.len() == before.items@.len()
    &&& after.items@.len() <= u32::MAX
    &&& after.grid matches Some(grid)
    &&& grid.res == screen
    &&& is_aspect_aware(grid.rows as nat, grid.cols as nat, after.items@.len(), screen)
    &&& forall|i: int|
        0 <= i < after.items@.len() ==> #[trigger] after.items@[i] == (Instance {
            width: screen.width / grid.cols,
            height: screen.height / grid.rows,
            gridposition: Some(cell_of(i, grid.cols as int)),
            ..before.items@[i]
        })
    &&& forall|key: u64| #[trigger]
        after.position_map@.contains_key(key) ==> after.position_map@[key] < after.items@.len()
            && key == cell_of(after.position_map@[key] as int, grid.cols as int).key_of()
    &&& forall|i: int|
        0 <= i < after.items@.len() ==> after.occupant(#[trigger] cell_of(i, grid.cols as int))
            == Some(i as usize)
}

/// The player in a cell of a grid of `cols` columns that is filled row by
/// row.
pub open spec fn player_of(cell: GridPosition, cols: nat) -> int {
    cell.row * cols + cell.col
}

/// The cells of `players` players in a grid of `cols` columns, each with the
/// index of its player.
pub open spec fn grid_positions(players: nat, cols: nat) -> Map<GridPosition, usize> {
    Map::new(
        |cell: GridPosition| cell.col < cols && player_of(cell, cols) < players,
        |cell: GridPosition| player_of(cell, cols) as usize,
    )
}

/// Filling row by row, the player of a cell and the cell of a player undo
/// each other.
pub proof fn lemma_cell_of_player(cell: GridPosition, index: int, cols: nat)
    requires
        1 <= cols <= u32::MAX,
        0 <= index,
    ensures
        cell.col < cols ==> cell_of(player_of(cell, cols), cols as int) == cell,
        index / (cols as int) <= u32::MAX ==> player_of(cell_of(index, cols as int), cols) == index
            && cell_of(index, cols as int).col < cols,
{
    let c = cols as int;
    if cell.col < cols {
        let i = player_of(cell, cols);
        assert(i / c == cell.row && i % c == cell.col) by (nonlinear_arith)
            requires
                i == cell.row * c + cell.col,
                0 <= cell.col < c,
                0 <= cell.row,
        ;
    }
    assert(index == (index / c) * c + index % c && 0 <= index % c < c && 0 <= index / c)
        by (nonlinear_arith)
        requires
            c >= 1,
            0 <= index,
    ;
    if index / c <= u32::MAX {
        let placed = cell_of(index, c);
        assert(placed.row == index / c && placed.col == index % c);
        assert(placed.row * cols == (index / c) * c);
    }
}

/// In a grid of `cols` columns different players get different cells.
pub proof fn lemma_cells_are_distinct(i: int, j: int, cols: int)
    requires
        cols >= 1,
        0 <= i <= u32::MAX,
        0 <= j <= u32::MAX,
        cell_of(i, cols) == cell_of(j, cols),
    ensures
        i == j,
{
    assert(i == (i / cols) * cols + i % cols && j == (j / cols) * cols + j % cols
        && i / cols <= i && j / cols <= j && i % cols < cols && j % cols < cols)
        by (nonlinear_arith)
        requires
            cols >= 1,
            i >= 0,
            j >= 0,
    ;
}

/// A player of a grid that has a cell for everyone lies inside the grid.
pub proof fn lemma_cell_lies_in_grid(index: nat, players: nat, rows: nat, cols: nat)
    requires
        cols >= 1,
        index < players,
        players <= rows * cols,
    ensures
        index / cols < rows,
        index % cols < cols,
{
    assert(index / cols < rows && index % cols < cols) by (nonlinear_arith)
        requires
            cols >= 1,
            index < rows * cols,
    ;
}

/// The width of a window of the least usable height with the aspect ratio
/// `width : height`.
fn rescale_width(width: u32, height: u32) -> (scaled: u32)
    ensures
        scaled == rescaled_width(width as nat, height as nat),
{
    if height == 0 {
        if width == 0 {
            0
        } else {
            u32::MAX
        }
    } else {
        assert(MIN_USABLE_HEIGHT * width <= 600 * 0xffff_ffff) by (nonlinear_arith)
            requires
                MIN_USABLE_HEIGHT == 600,
                width <= 0xffff_ffff,
        ;
        let scaled: u64 = (MIN_USABLE_HEIGHT as u64) * (width as u64) / (height as u64);
        if scaled > u32::MAX as u64 {
            u32::MAX
        } else {
            scaled as u32
        }
    }
}

/// The window size of each of `players` in fixed-quadrant mode.
pub fn quadrant_resolution(players: usize, cfg: &PartyConfig, screen: Resolution) -> (size:
    Resolution)
    ensures
        size == quadrant_size(players as nat, *cfg, screen),
{
    let share = if players == 1 {
        screen
    } else if players == 2 {
        if cfg.vertical_two_player {
            Resolution { width: screen.width / 2, height: screen.height }
        } else {
            Resolution { width: screen.width, height: screen.height / 2 }
        }
    } else {
        Resolution { width: screen.width / 2, height: screen.height / 2 }
    };
    if share.height < MIN_USABLE_HEIGHT && cfg.gamescope_fix_lowres {
        Resolution { width: rescale_width(share.width, share.height), height: MIN_USABLE_HEIGHT }
    } else {
        share
    }
}

/// Sets every window to `size`.
fn assign_quadrants(manager: &mut InstanceManager, size: Resolution)
    ensures
        is_quadrant_layout(*old(manager), *final(manager), size),
{
    let ghost before = *manager;
    let count: usize = manager.items.len();
    let mut i: usize = 0;
    while i < count
        invariant
            i <= count,
            count == before.items@.len(),
            manager.items@.len() == count,
            manager.grid == before.grid,
            manager.position_map == before.position_map,
            forall|k: int|
                0 <= k < i ==> #[trigger] manager.items@[k] == (Instance {
                    width: size.width,
                    height: size.height,
                    ..before.items@[k]
                }),
            forall|k: int| i <= k < count ==> #[trigger] manager.items@[k] == before.items@[k],
        decreases count - i,
    {
        manager.items[i].width = size.width;
        manager.items[i].height = size.height;
        i = i + 1;
    }
}

/// Lays the instances out in `grid`, which has a cell for each of them.
fn assign_cells(manager: &mut InstanceManager, grid: Grid)
    requires
        grid.is_nonempty(),
        1 <= old(manager).items@.len() <= u32::MAX,
        is_aspect_aware(
            grid.rows as nat,
            grid.cols as nat,
            old(manager).items@.len(),
            grid.res,
        ),
    ensures
        is_grid_layout(*old(manager), *final(manager), grid.res),
        final(manager).grid == Some(grid),
{
    let ghost before = *manager;
    let ghost cols = grid.cols as int;
    let cell = grid.single_cell_res();
    let count: usize = manager.items.len();
    manager.grid = Some(grid);
    manager.position_map.clear();
    let mut i: usize = 0;
    while i < count
        invariant
            i <= count,
            count == before.items@.len(),
            count <= u32::MAX,
            manager.items@.len() == count,
            manager.grid == Some(grid),
            grid.is_nonempty(),
            cols == grid.cols,
            cell.width == grid.res.width / grid.cols,
            cell.height == grid.res.height / grid.rows,
            forall|k: int|
                0 <= k < i ==> #[trigger] manager.items@[k] == (Instance {
                    width: cell.width,
                    height: cell.height,
                    gridposition: Some(cell_of(k, cols)),
                    ..before.items@[k]
                }),
            forall|k: int| i <= k < count ==> #[trigger] manager.items@[k] == before.items@[k],
            forall|key: u64| #[trigger]
                manager.position_map@.contains_key(key) ==> manager.position_map@[key] < i && key
                    == cell_of(manager.position_map@[key] as int, cols).key_of(),
            forall|k: int|
                0 <= k < i ==> manager.position_map@.contains_key(
                    #[trigger] cell_of(k, cols).key_of(),
                ) && manager.position_map@[cell_of(k, cols).key_of()] == k,
        decreases count - i,
    {
        let index: u32 = i as u32;
        let position = GridPosition { row: index / grid.cols, col: index % grid.cols };
        assert(position == cell_of(i as int, cols));
        proof {
            assert forall|k: int| 0 <= k < i implies (#[trigger] cell_of(k, cols)).key_of()
                != position.key_of() by {
                if cell_of(k, cols) == position {
                    lemma_cells_are_distinct(k, i as int, cols);
                }
                position.lemma_key_is_injective(cell_of(k, cols));
            }
        }
        manager.items[i].width = cell.width;
        manager.items[i].height = cell.height;
        manager.items[i].gridposition = Some(position);
        manager.position_map.insert(position.key(), i);
        i = i + 1;
    }
}

/// Gives every instance its window size and, in grid mode, its cell.
///
/// In fixed-quadrant mode at most four players are placed, each in a window
/// of [`quadrant_size`]; grid and cells are left as they are. In grid mode
/// the aspect-aware grid for `screen` is computed, every window gets the size
/// of a cell, the players fill the cells row by row and the map of cells is
/// rebuilt. Manual mode changes nothing. Where [`layout_obstacle`] names an
/// error, that error is returned and nothing is changed.
pub fn set_instance_resolutions(
    instance_manager: &mut InstanceManager,
    cfg: &PartyConfig,
    screen: Resolution,
) -> (result: Result<(), LayoutError>)
    ensures
        match layout_obstacle(
            old(instance_manager).items@.len(),
            cfg.instance_layout_mode,
            screen,
        ) {
            Some(error) => result == Err::<(), LayoutError>(error) && *final(instance_manager)
                == *old(instance_manager),
            None => result is Ok && match cfg.instance_layout_mode {
                InstanceLayoutMode::KWin => is_quadrant_layout(
                    *old(instance_manager),
                    *final(instance_manager),
                    quadrant_size(old(instance_manager).items@.len(), *cfg, screen),
                ),
                InstanceLayoutMode::Sway => is_grid_layout(
                    *old(instance_manager),
                    *final(instance_manager),
                    screen,
                ),
                InstanceLayoutMode::Manual => *final(instance_manager) == *old(instance_manager),
            },
        },
        old(instance_manager).wf() ==> final(instance_manager).wf(),
        result is Ok && cfg.instance_layout_mode == InstanceLayoutMode::Sway
            ==> final(instance_manager).wf(),
{
    let ghost before = *instance_manager;
    let players: usize = instance_manager.items.len();
    match cfg.instance_layout_mode {
        InstanceLayoutMode::KWin => {
            if players > MAX_QUADRANT_PLAYERS {
                return Err(LayoutError::TooManyPlayers);
            }
            let size = quadrant_resolution(players, cfg, screen);
            assign_quadrants(instance_manager, size);
            Ok(())
        },
        InstanceLayoutMode::Sway => {
            if players == 0 {
                return Err(LayoutError::NoPlayers);
            }
            if players > u32::MAX as usize {
                return Err(LayoutError::TooManyPlayers);
            }
            if screen.width == 0 || screen.height == 0 {
                return Err(LayoutError::InvalidScreen);
            }
            let grid = Grid::new(players as u32, screen);
            assign_cells(instance_manager, grid);
            proof {
                lemma_grid_layout_is_a_bijection(before, *instance_manager, screen);
            }
            Ok(())
        },
        InstanceLayoutMode::Manual => Ok(()),
    }
}

/// A grid layout pairs the players with their cells one to one: no two
/// instances share a cell, the map leads from each instance's cell back to
/// the instance, and every cell in the map is the cell of the instance it
/// names. The registry is consistent.
pub proof fn lemma_grid_layout_is_a_bijection(
    before: InstanceManager,
    after: InstanceManager,
    screen: Resolution,
)
    requires
        before.items@.len() >= 1,
        screen.is_positive(),
        is_grid_layout(before, after, screen),
    ensures
        after.wf(),
        forall|i: int, j: int|
            0 <= i < j < after.items@.len() ==> (#[trigger] after.items@[i]).gridposition != (
            #[trigger] after.items@[j]).gridposition,
        forall|i: int|
            0 <= i < after.items@.len() ==> (#[trigger] after.items@[i].gridposition matches Some(
                p,
            ) && after.occupant(p) == Some(i as usize)),
        forall|p: GridPosition|
            (#[trigger] after.occupant(p)) matches Some(i) ==> after.items@[i as int].gridposition
                == Some(p),
        after@.positions == grid_positions(after.items@.len(), (after.grid->0).cols as nat),
{
    let grid = after.grid->0;
    let cols = grid.cols as int;
    let count = after.items@.len();
    lemma_grid_has_no_spare_row(grid.rows as nat, grid.cols as nat, count, screen);
    assert forall|i: int, j: int| 0 <= i < j < count implies (#[trigger] after.items@[i]).gridposition
        != (#[trigger] after.items@[j]).gridposition by {
        if cell_of(i, cols) == cell_of(j, cols) {
            lemma_cells_are_distinct(i, j, cols);
        }
    }
    assert forall|i: int| 0 <= i < count implies (#[trigger] after.items@[i].gridposition matches Some(
        p,
    ) ==> p.row < grid.rows && p.col < grid.cols) by {
        lemma_cell_lies_in_grid(i as nat, count, grid.rows as nat, grid.cols as nat);
    }
    assert forall|p: GridPosition| (#[trigger] after.occupant(p)) is Some implies after.items@[after.occupant(
        p,
    )->0 as int].gridposition == Some(p) by {
        let i = after.occupant(p)->0;
        p.lemma_key_is_injective(cell_of(i as int, cols));
    }
    assert forall|i: int| 0 <= i < count implies (#[trigger] after.items@[i].gridposition matches Some(
        p,
    ) && after.occupant(p) == Some(i as usize)) by {
        assert(after.occupant(cell_of(i, cols)) == Some(i as usize));
    }
    let expected = grid_positions(count, grid.cols as nat);
    let positions = after@.positions;
    assert forall|p: GridPosition| #[trigger] positions.dom().contains(p) implies expected.dom().contains(
        p,
    ) && expected[p] == positions[p] by {
        let i = after.occupant(p)->0 as int;
        assert(after.items@[i].gridposition == Some(p));
        assert(p == cell_of(i, cols));
        lemma_cell_lies_in_grid(i as nat, count, grid.rows as nat, grid.cols as nat);
        lemma_cell_of_player(p, i, grid.cols as nat);
    }
    assert forall|p: GridPosition| #[trigger] expected.dom().contains(p) implies positions.dom().contains(
        p,
    ) by {
        let i = player_of(p, grid.cols as nat);
        lemma_cell_of_player(p, i, grid.cols as nat);
        assert(after.occupant(cell_of(i, cols)) == Some(i as usize));
    }
    assert(positions.dom() =~= expected.dom());
    assert(positions =~= expected);
}

/// The players in a row of a grid of `cols` columns that `players` players
/// fill row by row: as many as the row has cells, until the players run out.
pub open spec fn players_in_row(players: nat, cols: nat, row: int, upto: nat) -> Seq<usize> {
    let first = row * cols;
    let count = if players - first >= upto {
        upto
    } else if players - first >= 0 {
        (players - first) as nat
    } else {
        0
    };
    Seq::new(count, |k: int| (first + k) as usize)
}

proof fn lemma_row_prefix_of_grid_layout(manager: InstanceManager, cols: nat, row: u32, upto: nat)
    requires
        upto <= cols <= u32::MAX,
        manager.items@.len() <= u32::MAX,
        manager@.positions == grid_positions(manager.items@.len(), cols),
    ensures
        manager.row_indices(row, upto) == players_in_row(
            manager.items@.len(),
            cols,
            row as int,
            upto,
        ),
    decreases upto,
{
    if upto > 0 {
        lemma_row_prefix_of_grid_layout(manager, cols, row, (upto - 1) as nat);
        let cell = GridPosition { row, col: (upto - 1) as u32 };
        assert(manager@.positions.dom().contains(cell) <==> manager.occupant(cell) is Some);
        assert(manager.occupant(cell) is Some ==> manager@.positions[cell]
            == manager.occupant(cell)->0);
    }
    assert(manager.row_indices(row, upto) =~= players_in_row(
        manager.items@.len(),
        cols,
        row as int,
        upto,
    ));
}

/// After a grid layout every row holds the players of its cells in their
/// order: row `r` begins with player `r * cols`, and all rows are full but
/// the last one that holds anyone.
pub proof fn lemma_grid_layout_fills_rows(
    before: InstanceManager,
    after: InstanceManager,
    screen: Resolution,
    row: u32,
)
    requires
        before.items@.len() >= 1,
        screen.is_positive(),
        is_grid_layout(before, after, screen),
    ensures
        after.row_members(row) == players_in_row(
            after.items@.len(),
            (after.grid->0).cols as nat,
            row as int,
            (after.grid->0).cols as nat,
        ),
{
    lemma_grid_layout_is_a_bijection(before, after, screen);
    let cols = (after.grid->0).cols as nat;
    lemma_row_prefix_of_grid_layout(after, cols, row, cols);
}

} // verus!
