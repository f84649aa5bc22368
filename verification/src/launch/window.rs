//! The compositor window of an instance and the input devices routed to it.

use vstd::prelude::*;
use crate::config::PartyConfig;
use crate::input::{DeviceInfo, DeviceType};
use crate::instance::Instance;
use crate::launch::host::HostPaths;
use crate::text::{concat_range, decimal, push_decimal};

verus! {

/// The compositor invocation up to the size of the window.
pub open spec fn compositor_call(host: HostPaths, cfg: PartyConfig, instance: Instance) -> Seq<
    char,
> {
    (if cfg.kbm_support {
        host.gamescope_kbm@
    } else {
        "gamescope"@
    }) + " -W "@ + decimal(instance.width as nat) + " -H "@ + decimal(instance.height as nat)
        + " "@ + (if cfg.gamescope_sdl_backend {
        "--backend=sdl"@
    } else {
        Seq::empty()
    }) + " "@
}

/// Every device that every instance names is in the list of `count` devices.
pub open spec fn devices_known(instances: Seq<Instance>, count: nat) -> bool {
    forall|i: int, k: int|
        0 <= i < instances.len() && 0 <= k < instances[i].devices@.len()
            ==> #[trigger] instances[i].devices@[k] < count
}

/// One of the first `upto` devices of the instance is of the given kind.
pub open spec fn holds_kind(
    devices: Seq<usize>,
    inputs: Seq<DeviceInfo>,
    kind: DeviceType,
    upto: int,
) -> bool {
    exists|k: int|
        0 <= k < upto && inputs[#[trigger] devices[k] as int].device_type == kind
}

/// Keyboards and mice are routed; gamepads are hidden instead.
pub open spec fn is_keyboard_or_mouse(kind: DeviceType) -> bool {
    kind == DeviceType::Keyboard || kind == DeviceType::Mouse
}

/// What the device at `k` of the instance adds to the held devices.
pub open spec fn held_piece(devices: Seq<usize>, inputs: Seq<DeviceInfo>) -> spec_fn(int) -> Seq<
    char,
> {
    |k: int|
        if is_keyboard_or_mouse(inputs[devices[k] as int].device_type) {
            inputs[devices[k] as int].path@ + ","@
        } else {
            Seq::empty()
        }
}

/// The keyboards and mice of the instance, each followed by a comma.
pub open spec fn held_devices(devices: Seq<usize>, inputs: Seq<DeviceInfo>) -> Seq<char> {
    concat_range(devices.len(), held_piece(devices, inputs))
}

/// With keyboard and mouse routing on: the compositor ignores the shared
/// keyboard or mouse if the instance has one of its own, and holds exactly
/// the keyboards and mice of the instance.
pub open spec fn input_routing(cfg: PartyConfig, instance: Instance, inputs: Seq<DeviceInfo>) -> Seq<
    char,
> {
    if !cfg.kbm_support {
        Seq::empty()
    } else {
        (if holds_kind(
            instance.devices@,
            inputs,
            DeviceType::Keyboard,
            instance.devices@.len() as int,
        ) {
            "--backend-disable-keyboard "@
        } else {
            Seq::empty()
        }) + (if holds_kind(
            instance.devices@,
            inputs,
            DeviceType::Mouse,
            instance.devices@.len() as int,
        ) {
            "--backend-disable-mouse "@
        } else {
            Seq::empty()
        }) + (if held_devices(instance.devices@, inputs).len() > 0 {
            "--libinput-hold-dev "@ + held_devices(instance.devices@, inputs) + " "@
        } else {
            Seq::empty()
        })
    }
}

pub(crate) fn push_compositor_call(out: &mut String, host: &HostPaths, cfg: &PartyConfig, instance: &Instance)
    ensures
        final(out)@ == old(out)@ + compositor_call(*host, *cfg, *instance),
{
    if cfg.kbm_support {
        out.append(host.gamescope_kbm.as_str());
    } else {
        out.append("gamescope");
    }
    out.append(" -W ");
    push_decimal(out, instance.width as u64);
    out.append(" -H ");
    push_decimal(out, instance.height as u64);
    out.append(" ");
    if cfg.gamescope_sdl_backend {
        out.append("--backend=sdl");
    }
    out.append(" ");
}

pub(crate) fn push_input_routing(
    out: &mut String,
    cfg: &PartyConfig,
    instance: &Instance,
    inputs: &[DeviceInfo],
)
    requires
        cfg.kbm_support ==> forall|k: int|
            0 <= k < instance.devices@.len() ==> #[trigger] instance.devices@[k] < inputs@.len(),
    ensures
        final(out)@ == old(out)@ + input_routing(*cfg, *instance, inputs@),
{
    if !cfg.kbm_support {
        return ;
    }
    let mut has_keyboard = false;
    let mut has_mouse = false;
    let mut held = String::new();
    let mut i: usize = 0;
    while i < instance.devices.len()
        invariant
            i <= instance.devices@.len(),
            forall|k: int|
                0 <= k < instance.devices@.len() ==> #[trigger] instance.devices@[k]
                    < inputs@.len(),
            has_keyboard == holds_kind(instance.devices@, inputs@, DeviceType::Keyboard, i as int),
            has_mouse == holds_kind(instance.devices@, inputs@, DeviceType::Mouse, i as int),
            held@ == concat_range(i as nat, held_piece(instance.devices@, inputs@)),
        decreases instance.devices@.len() - i,
    {
        let device = &inputs[instance.devices[i]];
        if device.device_type == DeviceType::Keyboard {
            has_keyboard = true;
        } else if device.device_type == DeviceType::Mouse {
            has_mouse = true;
        }
        if device.device_type == DeviceType::Keyboard || device.device_type == DeviceType::Mouse {
            held.append(device.path.as_str());
            held.append(",");
        }
        i = i + 1;
    }
    if has_keyboard {
        out.append("--backend-disable-keyboard ");
    }
    if has_mouse {
        out.append("--backend-disable-mouse ");
    }
    if !held.as_str().is_empty() {
        out.append("--libinput-hold-dev ");
        out.append(held.as_str());
        out.append(" ");
    }
}

} // verus!
