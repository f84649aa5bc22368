//! The plan of a launch: what has to be prepared, which command starts the
//! instances and who arranges their windows. The caller carries the plan
//! out.

use vstd::prelude::*;
use crate::config::{InstanceLayoutMode, PartyConfig};
use crate::game::Game;
use crate::input::DeviceInfo;
use crate::instance::InstanceManager;
use crate::launch::{
    command_text, game_directory, launch_cmd, launch_obstacle, HostPaths, HostProbe, LaunchError,
};

verus! {

/// What has to exist before the command is composed.
#[derive(Clone, Copy, Debug, PartialEq, Eq, Structural)]
pub struct Preparation {
    /// Every instance needs its profile and its save directories of the
    /// game.
    pub create_saves: bool,
    /// The game needs its directory of links.
    pub link_game_dir: bool,
}

/// The script that makes KWin tile the windows.
#[derive(Clone, Copy, Debug, PartialEq, Eq, Structural)]
pub enum KWinScript {
    /// Two windows side by side.
    Vertical,
    /// Quadrants, or two windows one above the other.
    Standard,
}

/// Who arranges the windows once the command runs.
#[derive(Clone, Copy, Debug, PartialEq, Eq, Structural)]
pub enum Arrangement {
    /// KWin, with the given script loaded while the instances run.
    KWin(KWinScript),
    /// A Sway of its own, which runs the command and whose windows
    /// the row reactor arranges.
    Sway,
    /// Nobody: the command is run as it is.
    Manual,
}

/// A launch ready to be carried out.
#[derive(Clone, Debug)]
pub struct LaunchPlan {
    pub command: String,
    pub arrangement: Arrangement,
}

/// Only a managed game keeps saves per profile, and only one that asks for
/// it runs from links.
pub open spec fn preparation_for(game: Game) -> Preparation {
    match game {
        Game::HandlerRef(h) => Preparation { create_saves: true, link_game_dir: h.symlink_dir },
        Game::ExecRef(_) => Preparation { create_saves: false, link_game_dir: false },
    }
}

/// The side-by-side script is for exactly two players who asked for the
/// vertical split.
pub open spec fn kwin_script_for(players: nat, vertical: bool) -> KWinScript {
    if players == 2 && vertical {
        KWinScript::Vertical
    } else {
        KWinScript::Standard
    }
}

/// Who arranges the windows in each layout mode.
pub open spec fn arrangement_for(cfg: PartyConfig, players: nat) -> Arrangement {
    match cfg.instance_layout_mode {
        InstanceLayoutMode::KWin => Arrangement::KWin(
            kwin_script_for(players, cfg.vertical_two_player),
        ),
        InstanceLayoutMode::Sway => Arrangement::Sway,
        InstanceLayoutMode::Manual => Arrangement::Manual,
    }
}

impl KWinScript {
    /// The script's file among the resources.
    pub open spec fn file_name_text(self) -> Seq<char> {
        match self {
            KWinScript::Vertical => "splitscreen_kwin_vertical.js"@,
            KWinScript::Standard => "splitscreen_kwin.js"@,
        }
    }

    /// The script's file among the resources.
    pub fn file_name(&self) -> (name: &'static str)
        ensures
            name@ == self.file_name_text(),
    {
        match self {
            KWinScript::Vertical => "splitscreen_kwin_vertical.js",
            KWinScript::Standard => "splitscreen_kwin.js",
        }
    }
}

/// What has to be prepared before the launch of `game`.
pub fn preparation(game: &Game) -> (needed: Preparation)
    ensures
        needed == preparation_for(*game),
{
    match game {
        Game::HandlerRef(h) => Preparation { create_saves: true, link_game_dir: h.symlink_dir },
        Game::ExecRef(_) => Preparation { create_saves: false, link_game_dir: false },
    }
}

/// Plans the launch of all instances of the registry: composes the command
/// as [`launch_cmd`] does and names who arranges the windows. Nothing is
/// started here; a failed check is returned before anything could be.
pub fn launch_game(
    game: &Game,
    input_devices: &[DeviceInfo],
    instance_manager: &InstanceManager,
    cfg: &PartyConfig,
    host: &HostPaths,
    probe: &HostProbe,
) -> (result: Result<LaunchPlan, LaunchError>)
    ensures
        match launch_obstacle(
            *game,
            input_devices@,
            instance_manager.items@,
            *cfg,
            *host,
            *probe,
        ) {
            Some(error) => result == Err::<LaunchPlan, LaunchError>(error),
            None => {
                &&& result matches Ok(plan)
                &&& plan.command@ == command_text(
                    *game,
                    input_devices@,
                    instance_manager.items@,
                    *cfg,
                    *host,
                    game_directory(*game, *host, *probe).unwrap(),
                )
                &&& plan.arrangement == arrangement_for(*cfg, instance_manager.items@.len())
            },
        },
{
    let command = match launch_cmd(game, input_devices, &instance_manager.items, cfg, host, probe) {
        Ok(command) => command,
        Err(error) => {
            return Err(error);
        },
    };
    let arrangement = match cfg.instance_layout_mode {
        InstanceLayoutMode::KWin => {
            if instance_manager.items.len() == 2 && cfg.vertical_two_player {
                Arrangement::KWin(KWinScript::Vertical)
            } else {
                Arrangement::KWin(KWinScript::Standard)
            }
        },
        InstanceLayoutMode::Sway => Arrangement::Sway,
        InstanceLayoutMode::Manual => Arrangement::Manual,
    };
    Ok(LaunchPlan { command, arrangement })
}

} // verus!
