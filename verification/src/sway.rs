//! Arranging the windows under Sway: which command to send when a window
//! appears, and how to find the socket of a Sway that was just started.
//!
//! The reactor is a state machine. The caller subscribes to the window
//! manager's events, hands each one to [`RowReactor::step`] and carries out
//! what comes back. Windows must appear in the order in which the instances
//! were launched; the reactor relies on that order and does not check it.

use vstd::prelude::*;
use crate::instance::InstanceManager;
use crate::text::{
    ends_with, has_prefix, has_suffix, push_signed_decimal, same_text, signed_decimal, starts_with,
    texts,
};

verus! {

// ----- commands -----

/// The Sway command that runs `cmd` in a shell.
pub open spec fn exec_command_text(cmd: Seq<char>) -> Seq<char> {
    "exec sh -c '"@ + cmd + "'"@
}

/// The Sway command that runs `cmd` in a shell.
pub fn sway_exec_command(cmd: &str) -> (command: String)
    ensures
        command@ == exec_command_text(cmd@),
{
    let mut command = "exec sh -c '".to_owned();
    command.append(cmd);
    command.append("'");
    command
}

/// The command that moves a container down, which opens a new row.
pub open spec fn move_down_text(container_id: int) -> Seq<char> {
    "[con_id="@ + signed_decimal(container_id) + "] move down"@
}

/// The command that makes a container's row split horizontally.
pub open spec fn split_text(container_id: int) -> Seq<char> {
    "[con_id="@ + signed_decimal(container_id) + "] splith"@
}

/// The commands that start a new row with the given container: first it is
/// moved down, then its row is set to split horizontally, so that the
/// windows that follow line up beside it.
pub fn position_new_row(container_id: i64) -> (commands: Vec<String>)
    ensures
        commands@.len() == 2,
        commands@[0]@ == move_down_text(container_id as int),
        commands@[1]@ == split_text(container_id as int),
{
    let mut move_down = "[con_id=".to_owned();
    push_signed_decimal(&mut move_down, container_id);
    move_down.append("] move down");
    let mut split = "[con_id=".to_owned();
    push_signed_decimal(&mut split, container_id);
    split.append("] splith");
    let mut commands: Vec<String> = Vec::new();
    commands.push(move_down);
    commands.push(split);
    commands
}

// ----- the reactor -----

/// What the window manager reports, as far as placement is concerned.
#[derive(Clone, Copy, Debug, PartialEq, Eq, Structural)]
pub enum WindowEvent {
    /// A window was created in the container with this id.
    Created(i64),
    /// The window manager shuts down.
    Shutdown,
    /// Anything else, a malformed event included.
    Other,
}

/// What the caller is to do after an event.
#[derive(Clone, Copy, Debug, PartialEq, Eq, Structural)]
pub enum Placement {
    /// Send the commands of [`position_new_row`] for this container.
    NewRow(i64),
    /// Nothing: the window manager's own tiling puts the window in place.
    Leave,
    /// Stop listening.
    Stop,
}

/// The state of the reactor: the row being filled and the number of windows
/// already in it, or the end of its work.
#[derive(Clone, Copy, Debug, PartialEq, Eq, Structural)]
pub enum RowState {
    /// `placed` windows are in `row`; the rows before it are done with.
    Filling { row: usize, placed: usize },
    /// The window manager has shut down.
    Stopped,
}

/// The reactor: the capacity of every row and the state.
#[derive(Debug)]
pub struct RowReactor {
    pub capacities: Vec<usize>,
    pub state: RowState,
}

/// The first row from `row` on that still has room, given that `placed`
/// windows are in `row` and none in the rows after it; the number of rows
/// if there is none. Rows without capacity are passed over.
pub open spec fn open_row(capacities: Seq<usize>, row: int, placed: int) -> int
    decreases capacities.len() - row,
{
    if row < 0 || row >= capacities.len() {
        capacities.len() as int
    } else if placed < capacities[row] {
        row
    } else {
        open_row(capacities, row + 1, 0)
    }
}

/// The state after an event and what the caller is to do. A new window goes
/// into the first row that has room; if it is the first of that row, the row
/// is started with it. A window for which no row has room is left alone.
/// After a shutdown nothing is placed any more.
pub open spec fn react(capacities: Seq<usize>, state: RowState, event: WindowEvent) -> (
    RowState,
    Placement,
) {
    match state {
        RowState::Stopped => (RowState::Stopped, Placement::Stop),
        RowState::Filling { row, placed } => match event {
            WindowEvent::Shutdown => (RowState::Stopped, Placement::Stop),
            WindowEvent::Other => (state, Placement::Leave),
            WindowEvent::Created(id) => {
                let target = open_row(capacities, row as int, placed as int);
                if target >= capacities.len() {
                    (RowState::Filling { row: capacities.len() as usize, placed: 0 }, Placement::Leave)
                } else if target == row {
                    (
                        RowState::Filling { row, placed: (placed + 1) as usize },
                        if placed == 0 {
                            Placement::NewRow(id)
                        } else {
                            Placement::Leave
                        },
                    )
                } else {
                    (RowState::Filling { row: target as usize, placed: 1 }, Placement::NewRow(id))
                }
            },
        },
    }
}

/// The number of instances in each of the first `rows` rows of a registry.
pub open spec fn row_capacities(manager: InstanceManager, rows: nat) -> Seq<usize> {
    Seq::new(rows, |row: int| manager.row_members(row as u32).len() as usize)
}

impl RowReactor {
    /// A reactor for rows of the given capacities, before the first window.
    pub fn with_capacities(capacities: Vec<usize>) -> (reactor: RowReactor)
        ensures
            reactor.capacities@ == capacities@,
            reactor.state == (RowState::Filling { row: 0, placed: 0 }),
    {
        RowReactor { capacities, state: RowState::Filling { row: 0, placed: 0 } }
    }

    /// A reactor for the rows of a registry: each row of its grid has room
    /// for the instances that the registry records in it. Without a grid
    /// there are no rows.
    pub fn new(manager: &InstanceManager) -> (reactor: RowReactor)
        ensures
            reactor.state == (RowState::Filling { row: 0, placed: 0 }),
            reactor.capacities@ == row_capacities(
                *manager,
                match manager.grid {
                    Some(grid) => grid.rows as nat,
                    None => 0,
                },
            ),
    {
        let mut capacities: Vec<usize> = Vec::new();
        match &manager.grid {
            Some(grid) => {
                let mut row: u32 = 0;
                while row < grid.rows
                    invariant
                        row <= grid.rows,
                        capacities@ == row_capacities(*manager, row as nat),
                    decreases grid.rows - row,
                {
                    let members = manager.get_row(row);
                    capacities.push(members.len());
                    row = row + 1;
                }
            },
            None => {},
        }
        RowReactor::with_capacities(capacities)
    }

    /// The first row from `row` on that still has room.
    fn find_open_row(&self, row: usize, placed: usize) -> (target: usize)
        ensures
            target == open_row(self.capacities@, row as int, placed as int),
            target <= self.capacities@.len(),
            target < self.capacities@.len() ==> target >= row,
            target < self.capacities@.len() && target == row ==> placed < self.capacities@[row as int],
    {
        if row >= self.capacities.len() {
            return self.capacities.len();
        }
        if placed < self.capacities[row] {
            return row;
        }
        let mut next: usize = row + 1;
        while next < self.capacities.len() && self.capacities[next] == 0
            invariant
                row < next <= self.capacities@.len(),
                open_row(self.capacities@, row as int, placed as int) == open_row(
                    self.capacities@,
                    next as int,
                    0,
                ),
            decreases self.capacities@.len() - next,
        {
            next = next + 1;
        }
        next
    }

    /// Takes one event and says what to do about it, as [`react`] defines.
    pub fn step(&mut self, event: WindowEvent) -> (placement: Placement)
        ensures
            final(self).capacities@ == old(self).capacities@,
            (final(self).state, placement) == react(old(self).capacities@, old(self).state, event),
    {
        match self.state {
            RowState::Stopped => Placement::Stop,
            RowState::Filling { row, placed } => match event {
                WindowEvent::Shutdown => {
                    self.state = RowState::Stopped;
                    Placement::Stop
                },
                WindowEvent::Other => Placement::Leave,
                WindowEvent::Created(id) => {
                    let target = self.find_open_row(row, placed);
                    if target >= self.capacities.len() {
                        self.state = RowState::Filling { row: self.capacities.len(), placed: 0 };
                        Placement::Leave
                    } else if target == row {
                        self.state = RowState::Filling { row, placed: placed + 1 };
                        if placed == 0 {
                            Placement::NewRow(id)
                        } else {
                            Placement::Leave
                        }
                    } else {
                        self.state = RowState::Filling { row: target, placed: 1 };
                        Placement::NewRow(id)
                    }
                },
            },
        }
    }
}

// ----- the reactor and the rows -----

/// The number of windows that the rows before `row` hold when they are full.
pub open spec fn windows_before(capacities: Seq<usize>, row: int) -> int
    decreases row,
{
    if row <= 0 {
        0
    } else {
        windows_before(capacities, row - 1) + capacities[row - 1]
    }
}

/// The reactor stands where `seen` windows leave it: in a row of the grid
/// with no more windows than the row holds, the rows before it full.
pub open spec fn stands_after(capacities: Seq<usize>, state: RowState, seen: int) -> bool {
    &&& state matches RowState::Filling { row, placed }
    &&& row < capacities.len()
    &&& placed <= capacities[row as int]
    &&& seen == windows_before(capacities, row as int) + placed
}

/// Passing over full and empty rows loses no room and skips none: the rows
/// between the row that was left and the row that was found hold no window
/// beyond those already counted.
proof fn lemma_open_row(capacities: Seq<usize>, row: int, placed: int)
    requires
        0 <= row <= capacities.len(),
        row < capacities.len() ==> 0 <= placed <= capacities[row],
        row == capacities.len() ==> placed == 0,
    ensures
        row <= open_row(capacities, row, placed) <= capacities.len(),
        windows_before(capacities, open_row(capacities, row, placed)) + (if open_row(
            capacities,
            row,
            placed,
        ) == row {
            placed
        } else {
            0
        }) == windows_before(capacities, row) + placed,
        open_row(capacities, row, placed) < capacities.len() ==> (if open_row(
            capacities,
            row,
            placed,
        ) == row {
            placed
        } else {
            0
        }) < capacities[open_row(capacities, row, placed)],
    decreases capacities.len() - row,
{
    if row < capacities.len() && placed >= capacities[row] {
        lemma_open_row(capacities, row + 1, 0);
    }
}

/// The reactor fills the rows in order. Where it has seen `seen` windows and
/// the rows have room for another, the next window goes into the row that
/// the count of windows reaches, and a new row is started with it exactly if
/// it is the first window of that row.
pub proof fn lemma_reactor_fills_rows_in_order(
    capacities: Seq<usize>,
    state: RowState,
    seen: int,
    id: i64,
)
    requires
        capacities.len() <= usize::MAX,
        stands_after(capacities, state, seen),
        seen < windows_before(capacities, capacities.len() as int),
    ensures
        stands_after(capacities, react(capacities, state, WindowEvent::Created(id)).0, seen + 1),
        react(capacities, state, WindowEvent::Created(id)).0 matches RowState::Filling {
            row,
            placed,
        } && windows_before(capacities, row as int) <= seen < windows_before(
            capacities,
            row as int,
        ) + capacities[row as int] && (react(capacities, state, WindowEvent::Created(id)).1 == (
        if seen == windows_before(capacities, row as int) {
            Placement::NewRow(id)
        } else {
            Placement::Leave
        })),
{
    lemma_open_row(capacities, state->row as int, state->placed as int);
}

// ----- finding the socket -----

/// An entry of the directory in which Sway keeps its sockets.
#[derive(Clone, Debug)]
pub struct SocketDirEntry {
    pub name: String,
    pub is_dir: bool,
}

/// The time to wait between two looks into the directory, in milliseconds.
pub const SOCKET_POLL_MILLIS: u64 = 200;

/// The directory in which Sway keeps its sockets.
pub fn sway_socket_dir() -> (dir: &'static str)
    ensures
        dir@ == "/run/user/1000"@,
{
    "/run/user/1000"
}

/// An entry is a socket of Sway if it is no directory and its name has the
/// form `sway-ipc.1000.<number>.sock`, of which only the beginning and the
/// end are looked at.
pub open spec fn is_socket_entry(entry: SocketDirEntry) -> bool {
    !entry.is_dir && starts_with(entry.name@, "sway-ipc.1000."@) && ends_with(
        entry.name@,
        ".sock"@,
    )
}

/// The path of an entry of the socket directory.
pub open spec fn socket_path(name: Seq<char>) -> Seq<char> {
    "/run/user/1000"@ + "/"@ + name
}

/// The paths of the sockets among the first `upto` entries, in their order.
pub open spec fn socket_paths(entries: Seq<SocketDirEntry>, upto: int) -> Seq<Seq<char>>
    decreases upto,
{
    if upto <= 0 {
        Seq::empty()
    } else if is_socket_entry(entries[upto - 1]) {
        socket_paths(entries, upto - 1).push(socket_path(entries[upto - 1].name@))
    } else {
        socket_paths(entries, upto - 1)
    }
}

/// The paths of Sway's sockets among the entries of its socket directory.
pub fn get_sway_socket(entries: &[SocketDirEntry]) -> (sockets: Vec<String>)
    ensures
        texts(sockets@) == socket_paths(entries@, entries@.len() as int),
{
    let mut sockets: Vec<String> = Vec::new();
    let mut i: usize = 0;
    while i < entries.len()
        invariant
            i <= entries@.len(),
            texts(sockets@) == socket_paths(entries@, i as int),
        decreases entries@.len() - i,
    {
        let entry = &entries[i];
        if !entry.is_dir && has_prefix(entry.name.as_str(), "sway-ipc.1000.") && has_suffix(
            entry.name.as_str(),
            ".sock",
        ) {
            let mut path = sway_socket_dir().to_owned();
            path.append("/");
            path.append(entry.name.as_str());
            let ghost listed = sockets@;
            sockets.push(path);
            assert(texts(sockets@) =~= texts(listed).push(path@));
        }
        i = i + 1;
    }
    sockets
}

/// The index of the first of `current` from `from` on that is not among
/// `before`.
pub open spec fn first_new_from(before: Seq<Seq<char>>, current: Seq<Seq<char>>, from: int)
    -> Option<int>
    decreases current.len() - from,
{
    if from < 0 || from >= current.len() {
        None
    } else if !before.contains(current[from]) {
        Some(from)
    } else {
        first_new_from(before, current, from + 1)
    }
}

fn is_listed(list: &Vec<String>, text: &str) -> (found: bool)
    ensures
        found == texts(list@).contains(text@),
{
    let mut i: usize = 0;
    while i < list.len()
        invariant
            i <= list@.len(),
            forall|k: int| 0 <= k < i ==> texts(list@)[k] != text@,
        decreases list@.len() - i,
    {
        if same_text(list[i].as_str(), text) {
            assert(texts(list@)[i as int] == text@);
            return true;
        }
        i = i + 1;
    }
    false
}

/// The first socket in `current` that was not there `before`: the socket of
/// the Sway that was started in between.
pub fn first_new_socket(before: &Vec<String>, current: &Vec<String>) -> (socket: Option<String>)
    ensures
        match first_new_from(texts(before@), texts(current@), 0) {
            Some(index) => socket matches Some(path) && path@ == current@[index]@,
            None => socket is None,
        },
{
    let mut i: usize = 0;
    while i < current.len()
        invariant
            i <= current@.len(),
            first_new_from(texts(before@), texts(current@), 0) == first_new_from(
                texts(before@),
                texts(current@),
                i as int,
            ),
        decreases current@.len() - i,
    {
        if !is_listed(before, current[i].as_str()) {
            return Some(current[i].clone());
        }
        i = i + 1;
    }
    None
}

/// What to do after a look into the socket directory.
#[derive(Clone, Debug)]
pub enum Discovery {
    /// The new socket was found.
    Found(String),
    /// No new socket yet: wait and look again.
    Wait,
    /// No new socket after the last look that was allowed: give up.
    TimedOut,
}

/// Decides what to do after the look with the number `attempt`, counted
/// from one, of at most `limit` looks: a new socket ends the search; without
/// one the search goes on until `limit` looks were made.
pub fn discovery_step(before: &Vec<String>, current: &Vec<String>, attempt: u32, limit: u32)
    -> (next: Discovery)
    ensures
        match first_new_from(texts(before@), texts(current@), 0) {
            Some(index) => next matches Discovery::Found(path) && path@ == current@[index]@,
            None => if attempt >= limit {
                next is TimedOut
            } else {
                next is Wait
            },
        },
{
    match first_new_socket(before, current) {
        Some(path) => Discovery::Found(path),
        None => {
            if attempt >= limit {
                Discovery::TimedOut
            } else {
                Discovery::Wait
            }
        },
    }
}

} // verus!
