//! What the caller knows about the host, and the directories that follow
//! from it: where the game runs and where each player's data lives.

use vstd::prelude::*;
use crate::config::PartyConfig;
use crate::game::Game;
use crate::instance::Instance;
use crate::text::{decimal, push_decimal};

verus! {

/// Directories and programs of the host.
#[derive(Clone, Debug)]
pub struct HostPaths {
    /// The user's home directory.
    pub home: String,
    /// The user's data directory, usually `~/.local/share`.
    pub local_share: String,
    /// The directory in which profiles, prefixes and links are kept.
    pub party: String,
    /// The Steam installation.
    pub steam: String,
    /// The program that runs a Windows game through the compatibility layer.
    pub umu_run: String,
    /// The compositor build that can route keyboards and mice.
    pub gamescope_kbm: String,
}

/// What the caller found out about the host for this launch.
#[derive(Clone, Debug)]
pub struct HostProbe {
    /// The directory in which the managed game is installed, if it could be
    /// found. It is only asked for when the game does not run from links.
    pub handler_root: Option<String>,
    /// The file named by [`executable_path`] exists.
    pub executable_found: bool,
    /// The Scout runtime is installed.
    pub scout_runtime_found: bool,
    /// The Soldier runtime is installed.
    pub soldier_runtime_found: bool,
}


impl HostPaths {
    /// Both name the same directories and programs.
    pub open spec fn same_content(self, other: HostPaths) -> bool {
        &&& self.home@ == other.home@
        &&& self.local_share@ == other.local_share@
        &&& self.party@ == other.party@
        &&& self.steam@ == other.steam@
        &&& self.umu_run@ == other.umu_run@
        &&& self.gamescope_kbm@ == other.gamescope_kbm@
    }
}

impl HostProbe {
    /// Both report the same findings.
    pub open spec fn same_content(self, other: HostProbe) -> bool {
        &&& match (self.handler_root, other.handler_root) {
            (Some(a), Some(b)) => a@ == b@,
            (None, None) => true,
            _ => false,
        }
        &&& self.executable_found == other.executable_found
        &&& self.scout_runtime_found == other.scout_runtime_found
        &&& self.soldier_runtime_found == other.soldier_runtime_found
    }
}

/// The directory from which the game runs: that of a bare executable, the
/// directory of links of a managed game that uses one, else the directory in
/// which the managed game is installed.
pub open spec fn game_directory(game: Game, host: HostPaths, probe: HostProbe) -> Option<
    Seq<char>,
> {
    match game {
        Game::ExecRef(e) => Some(e.dir@),
        Game::HandlerRef(h) => if h.symlink_dir {
            Some(host.party@ + "/gamesyms/"@ + h.uid@)
        } else {
            match probe.handler_root {
                Some(root) => Some(root@),
                None => None,
            }
        },
    }
}

/// The file that must exist for the launch to go ahead.
pub open spec fn executable_path_text(gamedir: Seq<char>, game: Game) -> Seq<char> {
    gamedir + "/"@ + game.executable()
}

/// The game asks for the named Steam runtime.
pub open spec fn wants_runtime(game: Game, name: Seq<char>) -> bool {
    game matches Game::HandlerRef(h) && h.runtime@ == name
}

/// The directory from which the game runs, or `None` if the managed game's
/// directory would be needed and is not known.
pub fn resolve_game_directory(game: &Game, host: &HostPaths, probe: &HostProbe) -> (dir: Option<
    String,
>)
    ensures
        dir is Some <==> game_directory(*game, *host, *probe) is Some,
        dir matches Some(d) ==> game_directory(*game, *host, *probe) == Some(d@),
{
    match game {
        Game::ExecRef(e) => Some(e.dir.clone()),
        Game::HandlerRef(h) => {
            if h.symlink_dir {
                let mut dir = host.party.clone();
                dir.append("/gamesyms/");
                dir.append(h.uid.as_str());
                Some(dir)
            } else {
                match &probe.handler_root {
                    Some(root) => Some(root.clone()),
                    None => None,
                }
            }
        },
    }
}

/// The file that must exist for the launch to go ahead: the game's
/// executable below the game's directory.
pub fn executable_path(gamedir: &str, game: &Game) -> (path: String)
    ensures
        path@ == executable_path_text(gamedir@, *game),
{
    let mut path = gamedir.to_owned();
    path.append("/");
    path.append(game.executable_name());
    path
}

/// The directory of the profile that the instance plays as.
pub open spec fn profile_dir(host: HostPaths, instance: Instance) -> Seq<char> {
    host.party@ + "/profiles/"@ + instance.profname@
}

/// The directory in which the profile keeps its saves of a managed game.
/// A bare executable has none.
pub open spec fn save_dir(game: Game, host: HostPaths, instance: Instance) -> Seq<char> {
    match game {
        Game::ExecRef(_) => Seq::empty(),
        Game::HandlerRef(h) => profile_dir(host, instance) + "/saves/"@ + h.uid@,
    }
}

/// The data prefix of the compatibility layer: one per instance, numbered
/// from one, or one for all.
pub open spec fn compat_prefix(host: HostPaths, cfg: PartyConfig, index: nat) -> Seq<char> {
    if cfg.proton_separate_pfxs {
        host.party@ + "/pfx"@ + decimal(index + 1)
    } else {
        host.party@ + "/pfx"@
    }
}

pub(crate) fn profile_dir_text(host: &HostPaths, instance: &Instance) -> (dir: String)
    ensures
        dir@ == profile_dir(*host, *instance),
{
    let mut dir = host.party.clone();
    dir.append("/profiles/");
    dir.append(instance.profname.as_str());
    dir
}

pub(crate) fn save_dir_text(game: &Game, host: &HostPaths, instance: &Instance) -> (dir: String)
    ensures
        dir@ == save_dir(*game, *host, *instance),
{
    match game {
        Game::ExecRef(_) => String::new(),
        Game::HandlerRef(h) => {
            let mut dir = profile_dir_text(host, instance);
            dir.append("/saves/");
            dir.append(h.uid.as_str());
            dir
        },
    }
}

pub(crate) fn compat_prefix_text(host: &HostPaths, cfg: &PartyConfig, index: usize) -> (prefix: String)
    requires
        index < usize::MAX,
    ensures
        prefix@ == compat_prefix(*host, *cfg, index as nat),
{
    let mut prefix = host.party.clone();
    prefix.append("/pfx");
    if cfg.proton_separate_pfxs {
        push_decimal(&mut prefix, (index + 1) as u64);
    }
    prefix
}

} // verus!
