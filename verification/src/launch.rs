//! Synthesis of the shell command that starts every instance in its own
//! compositor window and sandbox.
//!
//! The command is composed in a fixed order: the exported environment, the
//! change into the game's directory, then one sub-command per instance. Each
//! sub-command sizes a compositor window, binds `/dev/null` over the devices
//! of the other players, binds the player's save directories over the places
//! where the game keeps its data, and starts the game, through the
//! compatibility layer if it is a Windows program. All but the last
//! sub-command run in the background, a short pause apart.
//!
//! Nothing here touches the file system or starts a process. The caller
//! supplies what it found on the host in [`HostPaths`] and [`HostProbe`].

pub mod host;
pub mod environment;
pub mod window;
pub mod sandbox;
pub mod arguments;
pub mod determinism;

use vstd::prelude::*;
use crate::config::PartyConfig;
use crate::game::Game;
use crate::input::DeviceInfo;
use crate::instance::Instance;
use crate::launch::arguments::{game_call, push_game_call};
use crate::launch::environment::{
    environment_exports, game_wants_runtime, push_environment_exports,
};
pub use crate::launch::host::{
    executable_path, game_directory, resolve_game_directory, HostPaths, HostProbe,
};
use crate::launch::host::{compat_prefix, compat_prefix_text, wants_runtime};
use crate::launch::sandbox::{push_sandbox_call, sandbox_call};
use crate::launch::window::{
    compositor_call, devices_known, input_routing, push_compositor_call, push_input_routing,
};
use crate::text::concat_range;

verus! {

/// Why no command could be composed.
#[derive(Clone, Copy, Debug, PartialEq, Eq, Structural)]
pub enum LaunchError {
    /// The directory of the managed game is not known.
    GameRootUnknown,
    /// The game's executable does not exist.
    ExecutableNotFound,
    /// The game needs the Scout runtime, which is not installed.
    ScoutRuntimeNotFound,
    /// The game needs the Soldier runtime, which is not installed.
    SoldierRuntimeNotFound,
    /// An instance names an input device that is not in the list.
    UnknownDevice,
}

/// The step into the background and the pause that lets an instance settle
/// before the next is launched. Games under the compatibility layer need
/// several seconds. This works around a matter of timing whose cause is not
/// known: the values are those found to work, and they promise nothing.
pub open spec fn settle_delay(win: bool) -> Seq<char> {
    if win {
        "& sleep 6; "@
    } else {
        "& sleep 0.01; "@
    }
}

fn settle_pause(win: bool) -> (pause: &'static str)
    ensures
        pause@ == settle_delay(win),
{
    if win {
        "& sleep 6; "
    } else {
        "& sleep 0.01; "
    }
}

/// The sub-command of the instance at `index`: the compatibility layer's
/// prefix, the compositor window, the sandbox and the game; and, unless it is
/// the last, the step into the background and the pause before the next.
pub open spec fn instance_command(
    game: Game,
    inputs: Seq<DeviceInfo>,
    instances: Seq<Instance>,
    cfg: PartyConfig,
    host: HostPaths,
    gamedir: Seq<char>,
    index: int,
) -> Seq<char> {
    (if game.is_windows() {
        "WINEPREFIX="@ + compat_prefix(host, cfg, index as nat) + " "@
    } else {
        Seq::empty()
    }) + compositor_call(host, cfg, instances[index]) + input_routing(
        cfg,
        instances[index],
        inputs,
    ) + sandbox_call(game, inputs, instances[index], cfg, host, gamedir, index as nat) + game_call(
        game,
        host,
        gamedir,
        instances[index],
    ) + (if index < instances.len() - 1 {
        settle_delay(game.is_windows())
    } else {
        Seq::empty()
    })
}

/// The sub-command of each instance, by its index.
pub open spec fn instance_piece(
    game: Game,
    inputs: Seq<DeviceInfo>,
    instances: Seq<Instance>,
    cfg: PartyConfig,
    host: HostPaths,
    gamedir: Seq<char>,
) -> spec_fn(int) -> Seq<char> {
    |index: int| instance_command(game, inputs, instances, cfg, host, gamedir, index)
}

/// The command that launches every instance from `gamedir`: the exported
/// environment, the change of directory, and the sub-commands in the order
/// of the instances.
pub open spec fn command_text(
    game: Game,
    inputs: Seq<DeviceInfo>,
    instances: Seq<Instance>,
    cfg: PartyConfig,
    host: HostPaths,
    gamedir: Seq<char>,
) -> Seq<char> {
    environment_exports(game, cfg, host) + "cd \""@ + gamedir + "\"; "@ + concat_range(
        instances.len(),
        instance_piece(game, inputs, instances, cfg, host, gamedir),
    )
}

/// What stands in the way of a launch, if anything. The checks are made in
/// this order, and all of them before any text is composed.
pub open spec fn launch_obstacle(
    game: Game,
    inputs: Seq<DeviceInfo>,
    instances: Seq<Instance>,
    cfg: PartyConfig,
    host: HostPaths,
    probe: HostProbe,
) -> Option<LaunchError> {
    if game_directory(game, host, probe) is None {
        Some(LaunchError::GameRootUnknown)
    } else if !probe.executable_found {
        Some(LaunchError::ExecutableNotFound)
    } else if wants_runtime(game, "scout"@) && !probe.scout_runtime_found {
        Some(LaunchError::ScoutRuntimeNotFound)
    } else if wants_runtime(game, "soldier"@) && !probe.soldier_runtime_found {
        Some(LaunchError::SoldierRuntimeNotFound)
    } else if cfg.kbm_support && !devices_known(instances, inputs.len()) {
        Some(LaunchError::UnknownDevice)
    } else {
        None
    }
}

/// `result` is what [`launch_cmd`] returns on these inputs: the failed
/// check, if there is one, else the composed command.
pub open spec fn is_launch_result(
    result: Result<String, LaunchError>,
    game: Game,
    inputs: Seq<DeviceInfo>,
    instances: Seq<Instance>,
    cfg: PartyConfig,
    host: HostPaths,
    probe: HostProbe,
) -> bool {
    match launch_obstacle(game, inputs, instances, cfg, host, probe) {
        Some(error) => result == Err::<String, LaunchError>(error),
        None => result matches Ok(command) && command@ == command_text(
            game,
            inputs,
            instances,
            cfg,
            host,
            game_directory(game, host, probe).unwrap(),
        ),
    }
}

/// Whether every device that an instance names is in a list of `count`.
fn all_devices_known(instances: &Vec<Instance>, count: usize) -> (known: bool)
    ensures
        known == devices_known(instances@, count as nat),
{
    let mut i: usize = 0;
    while i < instances.len()
        invariant
            i <= instances@.len(),
            forall|a: int, k: int|
                0 <= a < i && 0 <= k < instances@[a].devices@.len()
                    ==> #[trigger] instances@[a].devices@[k] < count,
        decreases instances@.len() - i,
    {
        let owned = &instances[i].devices;
        let mut k: usize = 0;
        while k < owned.len()
            invariant
                k <= owned@.len(),
                i < instances@.len(),
                owned@ == instances@[i as int].devices@,
                forall|b: int| 0 <= b < k ==> #[trigger] owned@[b] < count,
            decreases owned@.len() - k,
        {
            if owned[k] >= count {
                assert(!(instances@[i as int].devices@[k as int] < count));
                return false;
            }
            k = k + 1;
        }
        i = i + 1;
    }
    true
}

fn push_instance_command(
    out: &mut String,
    game: &Game,
    inputs: &[DeviceInfo],
    instances: &Vec<Instance>,
    cfg: &PartyConfig,
    host: &HostPaths,
    gamedir: &str,
    index: usize,
)
    requires
        index < instances@.len(),
        cfg.kbm_support ==> devices_known(instances@, inputs@.len()),
    ensures
        final(out)@ == old(out)@ + instance_command(
            *game,
            inputs@,
            instances@,
            *cfg,
            *host,
            gamedir@,
            index as int,
        ),
{
    let win = game.win();
    let count: usize = instances.len();
    let instance = &instances[index];
    let mut command = String::new();
    if win {
        let prefix = compat_prefix_text(host, cfg, index);
        command.append("WINEPREFIX=");
        command.append(prefix.as_str());
        command.append(" ");
    }
    push_compositor_call(&mut command, host, cfg, instance);
    push_input_routing(&mut command, cfg, instance, inputs);
    push_sandbox_call(&mut command, game, inputs, instance, cfg, host, gamedir, index);
    push_game_call(&mut command, game, host, gamedir, instance);
    if index < count - 1 {
        command.append(settle_pause(win));
    }
    out.append(command.as_str());
}

/// Composes the command once all checks have passed.
fn compose_command(
    game: &Game,
    inputs: &[DeviceInfo],
    instances: &Vec<Instance>,
    cfg: &PartyConfig,
    host: &HostPaths,
    gamedir: &str,
) -> (command: String)
    requires
        cfg.kbm_support ==> devices_known(instances@, inputs@.len()),
    ensures
        command@ == command_text(*game, inputs@, instances@, *cfg, *host, gamedir@),
{
    let mut command = String::new();
    push_environment_exports(&mut command, game, cfg, host);
    command.append("cd \"");
    command.append(gamedir);
    command.append("\"; ");
    let mut all = String::new();
    let mut i: usize = 0;
    while i < instances.len()
        invariant
            i <= instances@.len(),
            cfg.kbm_support ==> devices_known(instances@, inputs@.len()),
            all@ == concat_range(
                i as nat,
                instance_piece(*game, inputs@, instances@, *cfg, *host, gamedir@),
            ),
        decreases instances@.len() - i,
    {
        push_instance_command(&mut all, game, inputs, instances, cfg, host, gamedir, i);
        i = i + 1;
    }
    command.append(all.as_str());
    command
}

/// Composes the shell command that launches all `instances` of `game`.
///
/// Before any text is composed the inputs are checked, in this order: the
/// game's directory is known; its executable exists; the Steam runtime it
/// asks for is installed; and, with keyboard and mouse routing on, every
/// device that an instance names is in `input_devices`. The first check that
/// fails is returned as the error. Otherwise the result is the command
/// described by [`command_text`]. The command is only composed, never run.
pub fn launch_cmd(
    game: &Game,
    input_devices: &[DeviceInfo],
    instances: &Vec<Instance>,
    cfg: &PartyConfig,
    host: &HostPaths,
    probe: &HostProbe,
) -> (result: Result<String, LaunchError>)
    ensures
        is_launch_result(result, *game, input_devices@, instances@, *cfg, *host, *probe),
{
    let gamedir = match resolve_game_directory(game, host, probe) {
        Some(dir) => dir,
        None => {
            return Err(LaunchError::GameRootUnknown);
        },
    };
    if !probe.executable_found {
        return Err(LaunchError::ExecutableNotFound);
    }
    if game_wants_runtime(game, "scout") && !probe.scout_runtime_found {
        return Err(LaunchError::ScoutRuntimeNotFound);
    }
    if game_wants_runtime(game, "soldier") && !probe.soldier_runtime_found {
        return Err(LaunchError::SoldierRuntimeNotFound);
    }
    if cfg.kbm_support && !all_devices_known(instances, input_devices.len()) {
        return Err(LaunchError::UnknownDevice);
    }
    Ok(compose_command(game, input_devices, instances, cfg, host, gamedir.as_str()))
}

impl LaunchError {
    /// The error in words.
    pub open spec fn message_text(self) -> Seq<char> {
        match self {
            LaunchError::GameRootUnknown => "Game directory not found"@,
            LaunchError::ExecutableNotFound => "Executable not found"@,
            LaunchError::ScoutRuntimeNotFound => "Steam Scout Runtime not found"@,
            LaunchError::SoldierRuntimeNotFound => "Steam Soldier Runtime not found"@,
            LaunchError::UnknownDevice => "Instance refers to an unknown input device"@,
        }
    }

    /// The error in words.
    pub fn message(&self) -> (text: String)
        ensures
            text@ == self.message_text(),
    {
        match self {
            LaunchError::GameRootUnknown => "Game directory not found".to_owned(),
            LaunchError::ExecutableNotFound => "Executable not found".to_owned(),
            LaunchError::ScoutRuntimeNotFound => "Steam Scout Runtime not found".to_owned(),
            LaunchError::SoldierRuntimeNotFound => "Steam Soldier Runtime not found".to_owned(),
            LaunchError::UnknownDevice => "Instance refers to an unknown input device".to_owned(),
        }
    }
}

} // verus!
