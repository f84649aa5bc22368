//! What is to be launched: a bare executable or a game with a handler that
//! knows its runtime, its save locations and its arguments.

use vstd::prelude::*;
use crate::text::{ends_with, has_suffix, texts};

verus! {

/// A bare executable: the directory that holds it, its file name and the
/// arguments to pass, which go into the command line as they are.
#[derive(Clone, Debug)]
pub struct Executable {
    pub dir: String,
    pub filename: String,
    pub args: String,
}

/// A managed game and all that is known about how it wants to be run.
#[derive(Clone, Debug)]
pub struct Handler {
    /// The identifier under which saves and links of this game are kept.
    pub uid: String,
    /// The executable, relative to the game's directory.
    pub executable: String,
    /// Arguments; the tokens `$GAMEDIR`, `$PROFILE`, `$WIDTH`, `$HEIGHT` and
    /// `$WIDTHXHEIGHT` stand for values of the instance.
    pub args: Vec<String>,
    /// The game is a Windows program.
    pub win: bool,
    pub is32bit: bool,
    /// The Steam runtime the game needs: `scout`, `soldier` or none.
    pub runtime: String,
    /// Libraries that the compatibility layer loads in their native version.
    pub dll_overrides: Vec<String>,
    pub coldclient: bool,
    /// Where the Steam emulator lies below the game's directory; empty if the
    /// game has none.
    pub path_goldberg: String,
    pub win_unique_appdata: bool,
    pub win_unique_documents: bool,
    pub linux_unique_localshare: bool,
    pub linux_unique_config: bool,
    /// Paths below the game's directory that every player has a copy of.
    pub game_unique_paths: Vec<String>,
    /// The game runs from a directory of links instead of its own.
    pub symlink_dir: bool,
}

/// The game to launch.
#[derive(Clone, Debug)]
pub enum Game {
    ExecRef(Executable),
    HandlerRef(Handler),
}

/// A file name has the extension `exe`: it ends in `.exe` and something
/// stands before the dot.
pub open spec fn has_exe_extension(filename: Seq<char>) -> bool {
    filename.len() >= 5 && ends_with(filename, ".exe"@)
}

impl Executable {
    /// Both name the same executable with the same arguments.
    pub open spec fn same_content(self, other: Executable) -> bool {
        &&& self.dir@ == other.dir@
        &&& self.filename@ == other.filename@
        &&& self.args@ == other.args@
    }

    /// Whether the executable is a Windows program, judged by its extension.
    pub fn is_windows(&self) -> (win: bool)
        ensures
            win == has_exe_extension(self.filename@),
    {
        self.filename.as_str().unicode_len() >= 5 && has_suffix(self.filename.as_str(), ".exe")
    }
}

impl Handler {
    /// Both hold the same knowledge about the same game.
    pub open spec fn same_content(self, other: Handler) -> bool {
        &&& self.uid@ == other.uid@
        &&& self.executable@ == other.executable@
        &&& texts(self.args@) == texts(other.args@)
        &&& self.win == other.win
        &&& self.is32bit == other.is32bit
        &&& self.runtime@ == other.runtime@
        &&& texts(self.dll_overrides@) == texts(other.dll_overrides@)
        &&& self.coldclient == other.coldclient
        &&& self.path_goldberg@ == other.path_goldberg@
        &&& self.win_unique_appdata == other.win_unique_appdata
        &&& self.win_unique_documents == other.win_unique_documents
        &&& self.linux_unique_localshare == other.linux_unique_localshare
        &&& self.linux_unique_config == other.linux_unique_config
        &&& texts(self.game_unique_paths@) == texts(other.game_unique_paths@)
        &&& self.symlink_dir == other.symlink_dir
    }
}

impl Game {
    /// Both refer to the same game in the same way.
    pub open spec fn same_content(self, other: Game) -> bool {
        match (self, other) {
            (Game::ExecRef(a), Game::ExecRef(b)) => a.same_content(b),
            (Game::HandlerRef(a), Game::HandlerRef(b)) => a.same_content(b),
            _ => false,
        }
    }

    /// The game needs the Windows-compatibility layer.
    pub open spec fn is_windows(self) -> bool {
        match self {
            Game::ExecRef(e) => has_exe_extension(e.filename@),
            Game::HandlerRef(h) => h.win,
        }
    }

    /// The executable's name, relative to the game's directory.
    pub open spec fn executable(self) -> Seq<char> {
        match self {
            Game::ExecRef(e) => e.filename@,
            Game::HandlerRef(h) => h.executable@,
        }
    }

    /// Whether the game needs the Windows-compatibility layer.
    pub fn win(&self) -> (win: bool)
        ensures
            win == self.is_windows(),
    {
        match self {
            Game::ExecRef(e) => e.is_windows(),
            Game::HandlerRef(h) => h.win,
        }
    }

    /// The executable's name, relative to the game's directory.
    pub fn executable_name(&self) -> (name: &str)
        ensures
            name@ == self.executable(),
    {
        match self {
            Game::ExecRef(e) => e.filename.as_str(),
            Game::HandlerRef(h) => h.executable.as_str(),
        }
    }
}

} // verus!
