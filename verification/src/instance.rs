//! The instances of a session and the registry that holds them.

use std::collections::HashMap;
use vstd::prelude::*;
use crate::grid::{Grid, GridPosition};

verus! {

broadcast use vstd::std_specs::hash::group_hash_axioms;

/// One running copy of the game: the devices it owns, the profile it plays
/// as, and the size and cell that the layout gave it.
#[derive(Clone, Debug)]
pub struct Instance {
    /// Indices into the session's list of input devices.
    pub devices: Vec<usize>,
    pub profname: String,
    /// The chosen profile; zero stands for a guest.
    pub profselection: usize,
    pub width: u32,
    pub height: u32,
    pub gridposition: Option<GridPosition>,
}

impl Instance {
    /// Both instances hold the same values.
    pub open spec fn same_content(self, other: Instance) -> bool {
        &&& self.devices@ == other.devices@
        &&& self.profname@ == other.profname@
        &&& self.profselection == other.profselection
        &&& self.width == other.width
        &&& self.height == other.height
        &&& self.gridposition == other.gridposition
    }
}

/// Both lists hold the same instances in the same order.
pub open spec fn same_instances(list: Seq<Instance>, other: Seq<Instance>) -> bool {
    &&& list.len() == other.len()
    &&& forall|i: int| 0 <= i < list.len() ==> (#[trigger] list[i]).same_content(other[i])
}

impl GridPosition {
    /// The number under which the registry files the cell: the row in the
    /// upper half of the word, the column in the lower.
    pub open spec fn key_of(self) -> u64 {
        (self.row as u64 * 0x1_0000_0000 + self.col as u64) as u64
    }

    /// The number under which the registry files the cell.
    pub fn key(&self) -> (key: u64)
        ensures
            key == self.key_of(),
    {
        (self.row as u64) * 0x1_0000_0000 + (self.col as u64)
    }

    /// Different cells are filed under different numbers.
    pub proof fn lemma_key_is_injective(self, other: GridPosition)
        ensures
            self.key_of() == other.key_of() <==> self == other,
    {
    }
}

/// The instances of a session in the order of the players, the grid they
/// are laid out in, if any, and the index of the instance in each occupied
/// cell.
#[derive(Clone, Debug)]
pub struct InstanceManager {
    pub items: Vec<Instance>,
    pub grid: Option<Grid>,
    /// For every occupied cell, filed under its [`GridPosition::key`], the
    /// index of the instance in it. This is derived from `items` and is only
    /// ever rebuilt as a whole.
    pub position_map: HashMap<u64, usize>,
}

/// The registry as a value: the instances in the order of the players, the
/// grid, and the index of the instance in each occupied cell.
pub struct InstanceManagerView {
    pub items: Seq<Instance>,
    pub grid: Option<Grid>,
    pub positions: Map<GridPosition, usize>,
}

impl View for InstanceManager {
    type V = InstanceManagerView;

    open spec fn view(&self) -> InstanceManagerView {
        InstanceManagerView {
            items: self.items@,
            grid: self.grid,
            positions: Map::new(
                |p: GridPosition| self.occupant(p) is Some,
                |p: GridPosition| self.occupant(p)->0,
            ),
        }
    }
}

impl InstanceManager {
    /// The index of the instance that the map records for a cell.
    pub open spec fn occupant(self, position: GridPosition) -> Option<usize> {
        if self.position_map@.contains_key(position.key_of()) && self.position_map@[position.key_of()]
            < self.items@.len() {
            Some(self.position_map@[position.key_of()])
        } else {
            None
        }
    }

    /// The registry is consistent: the map holds exactly the cells that the
    /// instances record, each with the index of its instance, and the cells
    /// lie in the grid. Without a grid no instance has a cell.
    pub open spec fn wf(self) -> bool {
        &&& forall|i: int|
            0 <= i < self.items@.len() ==> (#[trigger] self.items@[i].gridposition matches Some(
                p,
            ) ==> self.position_map@.contains_key(p.key_of()) && self.position_map@[p.key_of()]
                == i)
        &&& forall|key: u64| #[trigger]
            self.position_map@.contains_key(key) ==> {
                &&& self.position_map@[key] < self.items@.len()
                &&& self.items@[self.position_map@[key] as int].gridposition matches Some(p)
                &&& p.key_of() == key
            }
        &&& match self.grid {
            Some(grid) => {
                &&& grid.is_nonempty()
                &&& forall|i: int|
                    0 <= i < self.items@.len() ==> (#[trigger] self.items@[i].gridposition matches Some(
                        p,
                    ) ==> p.row < grid.rows && p.col < grid.cols)
            },
            None => forall|i: int|
                0 <= i < self.items@.len() ==> #[trigger] self.items@[i].gridposition is None,
        }
    }

    /// The indices of the instances recorded in the first `cols` cells of a
    /// row, from left to right; empty cells are passed over.
    pub open spec fn row_indices(self, row: u32, cols: nat) -> Seq<usize>
        decreases cols,
    {
        if cols == 0 {
            Seq::empty()
        } else {
            let left = self.row_indices(row, (cols - 1) as nat);
            match self.occupant(GridPosition { row, col: (cols - 1) as u32 }) {
                Some(index) => left.push(index),
                None => left,
            }
        }
    }

    /// The indices of the instances in a row of the grid, from left to
    /// right. Without a grid there are no rows.
    pub open spec fn row_members(self, row: u32) -> Seq<usize> {
        match self.grid {
            Some(grid) => self.row_indices(row, grid.cols as nat),
            None => Seq::empty(),
        }
    }

    /// An empty registry.
    pub fn new() -> (manager: InstanceManager)
        ensures
            manager.items@.len() == 0,
            manager.grid is None,
            manager.position_map@ == Map::<u64, usize>::empty(),
            manager.wf(),
    {
        InstanceManager { items: Vec::new(), grid: None, position_map: HashMap::new() }
    }

    /// Forgets the instances, the grid and the cells.
    pub fn clear(&mut self)
        ensures
            final(self).items@.len() == 0,
            final(self).grid is None,
            final(self).position_map@ == Map::<u64, usize>::empty(),
            final(self).wf(),
    {
        self.items.clear();
        self.grid = None;
        self.position_map.clear();
    }

    /// The instance that the map records for a cell, if there is one.
    pub fn get(&self, position: GridPosition) -> (found: Option<usize>)
        ensures
            found == self.occupant(position),
    {
        let key: u64 = position.key();
        match self.position_map.get(&key) {
            Some(index) => {
                if *index < self.items.len() {
                    Some(*index)
                } else {
                    None
                }
            },
            None => None,
        }
    }

    /// The instances of a row, from left to right. A cell without an
    /// instance is passed over, so a row that is not full gives fewer
    /// instances than the grid has columns.
    pub fn get_row(&self, row: u32) -> (members: Vec<&Instance>)
        ensures
            members@.len() == self.row_members(row).len(),
            forall|k: int|
                0 <= k < members@.len() ==> *members@[k] == self.items@[self.row_members(
                    row,
                )[k] as int],
    {
        let mut members: Vec<&Instance> = Vec::new();
        match &self.grid {
            Some(grid) => {
                let mut col: u32 = 0;
                while col < grid.cols
                    invariant
                        col <= grid.cols,
                        members@.len() == self.row_indices(row, col as nat).len(),
                        forall|k: int|
                            0 <= k < members@.len() ==> *members@[k] == self.items@[self.row_indices(
                                row,
                                col as nat,
                            )[k] as int],
                    decreases grid.cols - col,
                {
                    match self.get(GridPosition { row, col }) {
                        Some(index) => {
                            members.push(&self.items[index]);
                        },
                        None => {},
                    }
                    col = col + 1;
                }
            },
            None => {},
        }
        members
    }
}

/// The column that an instance records, or -1 if it records no cell.
pub open spec fn column_of(instance: Instance) -> int {
    match instance.gridposition {
        Some(p) => p.col as int,
        None => -1,
    }
}

/// `members` are instances of `row` in the first `cols` columns, from left
/// to right: each records a cell of that row, the columns increase strictly
/// along the sequence, and no instance of the row in those columns is
/// missing.
pub open spec fn is_row_in_order(manager: InstanceManager, members: Seq<usize>, row: u32, cols: nat)
    -> bool {
    &&& forall|k: int|
        0 <= k < members.len() ==> {
            &&& (#[trigger] members[k]) < manager.items@.len()
            &&& manager.items@[members[k] as int].gridposition matches Some(p)
            &&& p.row == row
            &&& p.col < cols
        }
    &&& forall|j: int, k: int|
        0 <= j < k < members.len() ==> column_of(manager.items@[#[trigger] members[j] as int])
            < column_of(manager.items@[#[trigger] members[k] as int])
    &&& forall|i: int|
        0 <= i < manager.items@.len() ==> (#[trigger] manager.items@[i].gridposition matches Some(
            p,
        ) ==> (p.row == row && p.col < cols ==> members.contains(i as usize)))
}

proof fn lemma_row_indices_in_order(manager: InstanceManager, row: u32, cols: nat)
    requires
        manager.wf(),
        cols <= u32::MAX,
    ensures
        is_row_in_order(manager, manager.row_indices(row, cols), row, cols),
    decreases cols,
{
    if cols > 0 {
        let left = manager.row_indices(row, (cols - 1) as nat);
        let members = manager.row_indices(row, cols);
        let cell = GridPosition { row, col: (cols - 1) as u32 };
        lemma_row_indices_in_order(manager, row, (cols - 1) as nat);
        match manager.occupant(cell) {
            Some(index) => {
                let recorded = manager.items@[index as int].gridposition->0;
                assert(manager.position_map@.contains_key(cell.key_of()));
                recorded.lemma_key_is_injective(cell);
                assert(members == left.push(index));
                assert forall|i: int|
                    0 <= i < manager.items@.len() implies (#[trigger] manager.items@[i].gridposition matches Some(
                    p,
                ) ==> (p.row == row && p.col < cols ==> members.contains(i as usize))) by {
                    if manager.items@[i].gridposition is Some {
                        let p = manager.items@[i].gridposition->0;
                        if p.row == row && p.col == cols - 1 {
                            assert(members[left.len() as int] == i);
                        } else if p.row == row && p.col < cols {
                            let k = choose|k: int| 0 <= k < left.len() && left[k] == i as usize;
                            assert(members[k] == i);
                        }
                    }
                }
            },
            None => {
                assert(members == left);
                assert forall|i: int|
                    0 <= i < manager.items@.len() implies (#[trigger] manager.items@[i].gridposition matches Some(
                    p,
                ) ==> (p.row == row && p.col < cols ==> members.contains(i as usize))) by {
                    if manager.items@[i].gridposition is Some {
                        let p = manager.items@[i].gridposition->0;
                        if p.row == row && p.col == cols - 1 {
                            assert(manager.position_map@.contains_key(p.key_of()));
                            assert(p == cell);
                        }
                    }
                }
            },
        }
    }
}

/// In a consistent registry a row comes out in strictly increasing column
/// order, holds only instances that record a cell of that row, and holds
/// every such instance; cells that no instance records are passed over.
pub proof fn lemma_row_is_in_column_order(manager: InstanceManager, row: u32)
    requires
        manager.wf(),
    ensures
        manager.grid matches Some(grid) ==> is_row_in_order(
            manager,
            manager.row_members(row),
            row,
            grid.cols as nat,
        ),
        forall|i: int|
            0 <= i < manager.items@.len() ==> (#[trigger] manager.items@[i].gridposition matches Some(
                p,
            ) ==> (p.row == row ==> manager.row_members(row).contains(i as usize))),
{
    match manager.grid {
        Some(grid) => {
            lemma_row_indices_in_order(manager, row, grid.cols as nat);
        },
        None => {},
    }
}

} // verus!
