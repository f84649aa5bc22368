//! Synthesis reads nothing but the contents of its inputs: inputs that hold
//! the same values give the same command, wherever they are stored.

use vstd::prelude::*;
use crate::config::PartyConfig;
use crate::game::{Game, Handler};
use crate::input::{same_devices, DeviceInfo, DeviceType};
use crate::instance::{same_instances, Instance};
use crate::launch::arguments::{argument_piece, game_call, launch_arguments};
use crate::launch::environment::{
    environment_exports, handler_compat_exports, override_piece, runtime_launcher,
};
use crate::launch::host::{game_directory, HostPaths, HostProbe};
use crate::launch::sandbox::{
    device_masks, mask_piece, sandbox_call, save_binds, unique_path_piece,
};
use crate::launch::window::{
    compositor_call, devices_known, held_devices, held_piece, holds_kind, input_routing,
};
use crate::launch::{
    command_text, instance_command, instance_piece, is_launch_result, launch_obstacle, LaunchError,
};
use crate::text::{lemma_concat_range_same, texts};

verus! {

proof fn lemma_same_texts(list: Seq<String>, other: Seq<String>)
    requires
        texts(list) == texts(other),
    ensures
        list.len() == other.len(),
        forall|k: int| 0 <= k < list.len() ==> (#[trigger] list[k])@ == other[k]@,
{
    assert(texts(list).len() == list.len());
    assert(texts(other).len() == other.len());
    assert forall|k: int| 0 <= k < list.len() implies (#[trigger] list[k])@ == other[k]@ by {
        assert(texts(list)[k] == list[k]@);
        assert(texts(other)[k] == other[k]@);
    }
}

proof fn lemma_same_devices_known(instances: Seq<Instance>, other: Seq<Instance>, count: nat)
    requires
        instances.len() == other.len(),
        forall|i: int|
            0 <= i < instances.len() ==> (#[trigger] instances[i]).devices@ == other[i].devices@,
        devices_known(instances, count),
    ensures
        devices_known(other, count),
{
    assert forall|i: int, k: int|
        0 <= i < other.len() && 0 <= k < other[i].devices@.len() implies #[trigger] other[i].devices@[k]
        < count by {
        assert(instances[i].devices@ == other[i].devices@);
        assert(instances[i].devices@[k] < count);
    }
}

proof fn lemma_same_handler_exports(h: Handler, other: Handler)
    requires
        h.same_content(other),
    ensures
        handler_compat_exports(h) == handler_compat_exports(other),
{
    lemma_same_texts(h.dll_overrides@, other.dll_overrides@);
    lemma_concat_range_same(
        h.dll_overrides@.len(),
        override_piece(h.dll_overrides@),
        override_piece(other.dll_overrides@),
    );
}

proof fn lemma_same_environment(
    game: Game,
    cfg: PartyConfig,
    host: HostPaths,
    other_game: Game,
    other_cfg: PartyConfig,
    other_host: HostPaths,
)
    requires
        game.same_content(other_game),
        cfg.same_content(other_cfg),
        host.same_content(other_host),
    ensures
        game.is_windows() == other_game.is_windows(),
        game.executable() == other_game.executable(),
        environment_exports(game, cfg, host) == environment_exports(
            other_game,
            other_cfg,
            other_host,
        ),
        runtime_launcher(game, host) == runtime_launcher(other_game, other_host),
{
    match (game, other_game) {
        (Game::HandlerRef(h), Game::HandlerRef(o)) => {
            lemma_same_handler_exports(h, o);
        },
        _ => {},
    }
}

proof fn lemma_same_input_routing(
    cfg: PartyConfig,
    instance: Instance,
    inputs: Seq<DeviceInfo>,
    other_cfg: PartyConfig,
    other_instance: Instance,
    other_inputs: Seq<DeviceInfo>,
)
    requires
        cfg.same_content(other_cfg),
        instance.same_content(other_instance),
        same_devices(inputs, other_inputs),
        cfg.kbm_support ==> forall|k: int|
            0 <= k < instance.devices@.len() ==> #[trigger] instance.devices@[k] < inputs.len(),
    ensures
        input_routing(cfg, instance, inputs) == input_routing(
            other_cfg,
            other_instance,
            other_inputs,
        ),
{
    if cfg.kbm_support {
        let devices = instance.devices@;
        let count = devices.len() as int;
        assert forall|kind: DeviceType|
            holds_kind(devices, inputs, kind, count) == holds_kind(
                devices,
                other_inputs,
                kind,
                count,
            ) by {
            if holds_kind(devices, inputs, kind, count) {
                let k = choose|k: int|
                    0 <= k < count && inputs[#[trigger] devices[k] as int].device_type == kind;
                assert(inputs[devices[k] as int].same_content(other_inputs[devices[k] as int]));
            }
            if holds_kind(devices, other_inputs, kind, count) {
                let k = choose|k: int|
                    0 <= k < count && other_inputs[#[trigger] devices[k] as int].device_type
                        == kind;
                assert(inputs[devices[k] as int].same_content(other_inputs[devices[k] as int]));
            }
        }
        assert forall|k: int| 0 <= k < count implies #[trigger] held_piece(devices, inputs)(k)
            == held_piece(devices, other_inputs)(k) by {
            assert(devices[k] < inputs.len());
            assert(inputs[devices[k] as int].same_content(other_inputs[devices[k] as int]));
        }
        lemma_concat_range_same(
            devices.len(),
            held_piece(devices, inputs),
            held_piece(devices, other_inputs),
        );
        assert(held_devices(devices, inputs) == held_devices(devices, other_inputs));
    }
}

proof fn lemma_same_device_masks(
    inputs: Seq<DeviceInfo>,
    other_inputs: Seq<DeviceInfo>,
    owned: Seq<usize>,
)
    requires
        same_devices(inputs, other_inputs),
    ensures
        device_masks(inputs, owned) == device_masks(other_inputs, owned),
{
    assert forall|d: int| 0 <= d < inputs.len() implies #[trigger] mask_piece(inputs, owned)(d)
        == mask_piece(other_inputs, owned)(d) by {
        assert(inputs[d].same_content(other_inputs[d]));
    }
    lemma_concat_range_same(
        inputs.len(),
        mask_piece(inputs, owned),
        mask_piece(other_inputs, owned),
    );
}

proof fn lemma_same_save_binds(
    h: Handler,
    host: HostPaths,
    other: Handler,
    other_host: HostPaths,
    gamedir: Seq<char>,
    profile: Seq<char>,
    save: Seq<char>,
    prefix: Seq<char>,
)
    requires
        h.same_content(other),
        host.same_content(other_host),
    ensures
        save_binds(h, host, gamedir, profile, save, prefix) == save_binds(
            other,
            other_host,
            gamedir,
            profile,
            save,
            prefix,
        ),
{
    lemma_same_texts(h.game_unique_paths@, other.game_unique_paths@);
    lemma_concat_range_same(
        h.game_unique_paths@.len(),
        unique_path_piece(h.game_unique_paths@, save, gamedir),
        unique_path_piece(other.game_unique_paths@, save, gamedir),
    );
}

proof fn lemma_same_arguments(
    game: Game,
    other_game: Game,
    gamedir: Seq<char>,
    instance: Instance,
    other_instance: Instance,
)
    requires
        game.same_content(other_game),
        instance.same_content(other_instance),
    ensures
        launch_arguments(game, gamedir, instance) == launch_arguments(
            other_game,
            gamedir,
            other_instance,
        ),
{
    match (game, other_game) {
        (Game::HandlerRef(h), Game::HandlerRef(o)) => {
            lemma_same_texts(h.args@, o.args@);
            lemma_concat_range_same(
                h.args@.len(),
                argument_piece(h.args@, gamedir, instance),
                argument_piece(o.args@, gamedir, other_instance),
            );
        },
        _ => {},
    }
}

proof fn lemma_same_instance_command(
    game: Game,
    inputs: Seq<DeviceInfo>,
    instances: Seq<Instance>,
    cfg: PartyConfig,
    host: HostPaths,
    other_game: Game,
    other_inputs: Seq<DeviceInfo>,
    other_instances: Seq<Instance>,
    other_cfg: PartyConfig,
    other_host: HostPaths,
    gamedir: Seq<char>,
    index: int,
)
    requires
        game.same_content(other_game),
        same_devices(inputs, other_inputs),
        same_instances(instances, other_instances),
        cfg.same_content(other_cfg),
        host.same_content(other_host),
        cfg.kbm_support ==> devices_known(instances, inputs.len()),
        0 <= index < instances.len(),
    ensures
        instance_command(game, inputs, instances, cfg, host, gamedir, index) == instance_command(
            other_game,
            other_inputs,
            other_instances,
            other_cfg,
            other_host,
            gamedir,
            index,
        ),
{
    let instance = instances[index];
    let other_instance = other_instances[index];
    assert(instance.same_content(other_instance));
    lemma_same_environment(game, cfg, host, other_game, other_cfg, other_host);
    assert(compositor_call(host, cfg, instance) == compositor_call(
        other_host,
        other_cfg,
        other_instance,
    ));
    lemma_same_input_routing(cfg, instance, inputs, other_cfg, other_instance, other_inputs);
    lemma_same_device_masks(inputs, other_inputs, instance.devices@);
    match (game, other_game) {
        (Game::HandlerRef(h), Game::HandlerRef(o)) => {
            lemma_same_save_binds(
                h,
                host,
                o,
                other_host,
                gamedir,
                crate::launch::host::profile_dir(host, instance),
                crate::launch::host::save_dir(game, host, instance),
                crate::launch::host::compat_prefix(host, cfg, index as nat),
            );
        },
        _ => {},
    }
    assert(sandbox_call(game, inputs, instance, cfg, host, gamedir, index as nat) == sandbox_call(
        other_game,
        other_inputs,
        other_instance,
        other_cfg,
        other_host,
        gamedir,
        index as nat,
    ));
    lemma_same_arguments(game, other_game, gamedir, instance, other_instance);
    assert(game_call(game, host, gamedir, instance) == game_call(
        other_game,
        other_host,
        gamedir,
        other_instance,
    ));
}

/// Inputs that hold the same values meet the same obstacle, or describe the
/// same command.
pub proof fn lemma_same_inputs_same_command(
    game: Game,
    inputs: Seq<DeviceInfo>,
    instances: Seq<Instance>,
    cfg: PartyConfig,
    host: HostPaths,
    probe: HostProbe,
    other_game: Game,
    other_inputs: Seq<DeviceInfo>,
    other_instances: Seq<Instance>,
    other_cfg: PartyConfig,
    other_host: HostPaths,
    other_probe: HostProbe,
)
    requires
        game.same_content(other_game),
        same_devices(inputs, other_inputs),
        same_instances(instances, other_instances),
        cfg.same_content(other_cfg),
        host.same_content(other_host),
        probe.same_content(other_probe),
    ensures
        launch_obstacle(game, inputs, instances, cfg, host, probe) == launch_obstacle(
            other_game,
            other_inputs,
            other_instances,
            other_cfg,
            other_host,
            other_probe,
        ),
        game_directory(game, host, probe) == game_directory(other_game, other_host, other_probe),
        launch_obstacle(game, inputs, instances, cfg, host, probe) is None ==> command_text(
            game,
            inputs,
            instances,
            cfg,
            host,
            game_directory(game, host, probe).unwrap(),
        ) == command_text(
            other_game,
            other_inputs,
            other_instances,
            other_cfg,
            other_host,
            game_directory(other_game, other_host, other_probe).unwrap(),
        ),
{
    lemma_same_environment(game, cfg, host, other_game, other_cfg, other_host);
    if devices_known(instances, inputs.len()) {
        lemma_same_devices_known(instances, other_instances, inputs.len());
    }
    if devices_known(other_instances, inputs.len()) {
        lemma_same_devices_known(other_instances, instances, inputs.len());
    }
    if launch_obstacle(game, inputs, instances, cfg, host, probe) is None {
        let gamedir = game_directory(game, host, probe).unwrap();
        assert forall|index: int| 0 <= index < instances.len() implies #[trigger] instance_piece(
            game,
            inputs,
            instances,
            cfg,
            host,
            gamedir,
        )(index) == instance_piece(
            other_game,
            other_inputs,
            other_instances,
            other_cfg,
            other_host,
            gamedir,
        )(index) by {
            lemma_same_instance_command(
                game,
                inputs,
                instances,
                cfg,
                host,
                other_game,
                other_inputs,
                other_instances,
                other_cfg,
                other_host,
                gamedir,
                index,
            );
        }
        lemma_concat_range_same(
            instances.len(),
            instance_piece(game, inputs, instances, cfg, host, gamedir),
            instance_piece(other_game, other_inputs, other_instances, other_cfg, other_host, gamedir),
        );
    }
}

/// Synthesis is deterministic: whatever two launches return whose inputs
/// hold the same values, both fail on the same check or both give the same
/// command text.
pub proof fn lemma_launch_is_deterministic(
    first: Result<String, LaunchError>,
    game: Game,
    inputs: Seq<DeviceInfo>,
    instances: Seq<Instance>,
    cfg: PartyConfig,
    host: HostPaths,
    probe: HostProbe,
    second: Result<String, LaunchError>,
    other_game: Game,
    other_inputs: Seq<DeviceInfo>,
    other_instances: Seq<Instance>,
    other_cfg: PartyConfig,
    other_host: HostPaths,
    other_probe: HostProbe,
)
    requires
        is_launch_result(first, game, inputs, instances, cfg, host, probe),
        is_launch_result(
            second,
            other_game,
            other_inputs,
            other_instances,
            other_cfg,
            other_host,
            other_probe,
        ),
        game.same_content(other_game),
        same_devices(inputs, other_inputs),
        same_instances(instances, other_instances),
        cfg.same_content(other_cfg),
        host.same_content(other_host),
        probe.same_content(other_probe),
    ensures
        first matches Err(error) ==> second == Err::<String, LaunchError>(error),
        first matches Ok(command) ==> second matches Ok(other) && other@ == command@,
{
    lemma_same_inputs_same_command(
        game,
        inputs,
        instances,
        cfg,
        host,
        probe,
        other_game,
        other_inputs,
        other_instances,
        other_cfg,
        other_host,
        other_probe,
    );
}

} // verus!
