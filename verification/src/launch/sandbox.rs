//! The sandbox of an instance: the devices hidden from it and the
//! directories of its player bound over those of the game.

use vstd::prelude::*;
use crate::config::PartyConfig;
use crate::game::{Game, Handler};
use crate::input::{DeviceInfo, DeviceType};
use crate::instance::Instance;
use crate::launch::host::{
    compat_prefix, compat_prefix_text, profile_dir, profile_dir_text, save_dir, save_dir_text,
    HostPaths,
};
use crate::text::concat_range;

verus! {

/// A device is hidden from an instance if it is switched off, or if it is a
/// gamepad that the instance does not own. Keyboards and mice stay visible.
pub open spec fn is_masked(device: DeviceInfo, index: int, owned: Seq<usize>) -> bool {
    !device.enabled || (!owned.contains(index as usize) && device.device_type
        == DeviceType::Gamepad)
}

/// The bind that hides the device at `d`, or nothing if it stays visible.
pub open spec fn mask_piece(inputs: Seq<DeviceInfo>, owned: Seq<usize>) -> spec_fn(int) -> Seq<
    char,
> {
    |d: int|
        if is_masked(inputs[d], d, owned) {
            "--bind /dev/null "@ + inputs[d].path@ + " "@
        } else {
            Seq::empty()
        }
}

/// A bind of `/dev/null` over every hidden device, in the order of the list.
pub open spec fn device_masks(inputs: Seq<DeviceInfo>, owned: Seq<usize>) -> Seq<char> {
    concat_range(inputs.len(), mask_piece(inputs, owned))
}

/// A bind of one directory over another, both quoted.
pub open spec fn quoted_bind(from: Seq<char>, to: Seq<char>) -> Seq<char> {
    "--bind \""@ + from + "\" \""@ + to + "\" "@
}

/// The bind of the player's copy of the path at `k` over the game's.
pub open spec fn unique_path_piece(paths: Seq<String>, save: Seq<char>, gamedir: Seq<char>)
    -> spec_fn(int) -> Seq<char> {
    |k: int| quoted_bind(save + "/"@ + paths[k]@, gamedir + "/"@ + paths[k]@)
}

/// The binds that put the player's data of a Windows game in place of the
/// prefix user's `AppData` and `Documents`.
pub open spec fn windows_data_binds(h: Handler, save: Seq<char>, prefix: Seq<char>) -> Seq<char> {
    (if h.win_unique_appdata {
        quoted_bind(save + "/_AppData"@, prefix + "/drive_c/users/steamuser//AppData"@)
    } else {
        Seq::empty()
    }) + (if h.win_unique_documents {
        quoted_bind(save + "/_Documents"@, prefix + "/drive_c/users/steamuser//Documents"@)
    } else {
        Seq::empty()
    })
}

/// The binds that put the player's data of a native game in place of the
/// user's data and configuration directories.
pub open spec fn linux_data_binds(h: Handler, save: Seq<char>, host: HostPaths) -> Seq<char> {
    (if h.linux_unique_localshare {
        quoted_bind(save + "/_share"@, host.local_share@)
    } else {
        Seq::empty()
    }) + (if h.linux_unique_config {
        quoted_bind(save + "/_config"@, host.home@ + "/.config"@)
    } else {
        Seq::empty()
    })
}

/// The binds of a managed game: the profile's Steam emulator settings, the
/// player's private data directories, and the player's copy of each path
/// that the game keeps for itself.
pub open spec fn save_binds(
    h: Handler,
    host: HostPaths,
    gamedir: Seq<char>,
    profile: Seq<char>,
    save: Seq<char>,
    prefix: Seq<char>,
) -> Seq<char> {
    (if h.path_goldberg@.len() > 0 {
        quoted_bind(profile + "/steam"@, gamedir + "/"@ + h.path_goldberg@ + "/goldbergsave"@)
    } else {
        Seq::empty()
    }) + (if h.win {
        windows_data_binds(h, save, prefix)
    } else {
        linux_data_binds(h, save, host)
    }) + concat_range(
        h.game_unique_paths@.len(),
        unique_path_piece(h.game_unique_paths@, save, gamedir),
    )
}

/// The sandbox invocation with all its binds.
pub open spec fn sandbox_call(
    game: Game,
    inputs: Seq<DeviceInfo>,
    instance: Instance,
    cfg: PartyConfig,
    host: HostPaths,
    gamedir: Seq<char>,
    index: nat,
) -> Seq<char> {
    "-- bwrap --die-with-parent --dev-bind / / --tmpfs /tmp "@ + device_masks(
        inputs,
        instance.devices@,
    ) + (match game {
        Game::HandlerRef(h) => save_binds(
            h,
            host,
            gamedir,
            profile_dir(host, instance),
            save_dir(game, host, instance),
            compat_prefix(host, cfg, index),
        ),
        Game::ExecRef(_) => Seq::empty(),
    })
}

fn owns_device(owned: &Vec<usize>, index: usize) -> (found: bool)
    ensures
        found == owned@.contains(index),
{
    let mut i: usize = 0;
    while i < owned.len()
        invariant
            i <= owned@.len(),
            forall|k: int| 0 <= k < i ==> owned@[k] != index,
        decreases owned@.len() - i,
    {
        if owned[i] == index {
            return true;
        }
        i = i + 1;
    }
    false
}

fn push_device_masks(out: &mut String, inputs: &[DeviceInfo], owned: &Vec<usize>)
    ensures
        final(out)@ == old(out)@ + device_masks(inputs@, owned@),
{
    let mut masks = String::new();
    let mut d: usize = 0;
    while d < inputs.len()
        invariant
            d <= inputs@.len(),
            masks@ == concat_range(d as nat, mask_piece(inputs@, owned@)),
        decreases inputs@.len() - d,
    {
        let device = &inputs[d];
        if !device.enabled || (!owns_device(owned, d) && device.device_type
            == DeviceType::Gamepad) {
            masks.append("--bind /dev/null ");
            masks.append(device.path.as_str());
            masks.append(" ");
        }
        d = d + 1;
    }
    out.append(masks.as_str());
}

fn push_quoted_bind(out: &mut String, from: &str, to: &str)
    ensures
        final(out)@ == old(out)@ + quoted_bind(from@, to@),
{
    out.append("--bind \"");
    out.append(from);
    out.append("\" \"");
    out.append(to);
    out.append("\" ");
}

/// `base` followed by `tail`, as a new text.
fn joined(base: &str, tail: &str) -> (text: String)
    ensures
        text@ == base@ + tail@,
{
    let mut text = base.to_owned();
    text.append(tail);
    text
}

fn push_windows_data_binds(out: &mut String, h: &Handler, save: &str, prefix: &str)
    ensures
        final(out)@ == old(out)@ + windows_data_binds(*h, save@, prefix@),
{
    if h.win_unique_appdata {
        let from = joined(save, "/_AppData");
        let to = joined(prefix, "/drive_c/users/steamuser//AppData");
        push_quoted_bind(out, from.as_str(), to.as_str());
    }
    if h.win_unique_documents {
        let from = joined(save, "/_Documents");
        let to = joined(prefix, "/drive_c/users/steamuser//Documents");
        push_quoted_bind(out, from.as_str(), to.as_str());
    }
}

fn push_linux_data_binds(out: &mut String, h: &Handler, save: &str, host: &HostPaths)
    ensures
        final(out)@ == old(out)@ + linux_data_binds(*h, save@, *host),
{
    if h.linux_unique_localshare {
        let from = joined(save, "/_share");
        push_quoted_bind(out, from.as_str(), host.local_share.as_str());
    }
    if h.linux_unique_config {
        let from = joined(save, "/_config");
        let to = joined(host.home.as_str(), "/.config");
        push_quoted_bind(out, from.as_str(), to.as_str());
    }
}

fn unique_path_binds(paths: &Vec<String>, save: &str, gamedir: &str) -> (binds: String)
    ensures
        binds@ == concat_range(paths@.len(), unique_path_piece(paths@, save@, gamedir@)),
{
    let mut binds = String::new();
    let mut i: usize = 0;
    while i < paths.len()
        invariant
            i <= paths@.len(),
            binds@ == concat_range(i as nat, unique_path_piece(paths@, save@, gamedir@)),
        decreases paths@.len() - i,
    {
        let mut from = joined(save, "/");
        from.append(paths[i].as_str());
        let mut to = joined(gamedir, "/");
        to.append(paths[i].as_str());
        push_quoted_bind(&mut binds, from.as_str(), to.as_str());
        i = i + 1;
    }
    binds
}

fn push_save_binds(
    out: &mut String,
    h: &Handler,
    host: &HostPaths,
    gamedir: &str,
    profile: &str,
    save: &str,
    prefix: &str,
)
    ensures
        final(out)@ == old(out)@ + save_binds(*h, *host, gamedir@, profile@, save@, prefix@),
{
    let mut binds = String::new();
    if !h.path_goldberg.as_str().is_empty() {
        let from = joined(profile, "/steam");
        let mut to = joined(gamedir, "/");
        to.append(h.path_goldberg.as_str());
        to.append("/goldbergsave");
        push_quoted_bind(&mut binds, from.as_str(), to.as_str());
    }
    if h.win {
        push_windows_data_binds(&mut binds, h, save, prefix);
    } else {
        push_linux_data_binds(&mut binds, h, save, host);
    }
    let unique = unique_path_binds(&h.game_unique_paths, save, gamedir);
    binds.append(unique.as_str());
    out.append(binds.as_str());
}

pub(crate) fn push_sandbox_call(
    out: &mut String,
    game: &Game,
    inputs: &[DeviceInfo],
    instance: &Instance,
    cfg: &PartyConfig,
    host: &HostPaths,
    gamedir: &str,
    index: usize,
)
    requires
        index < usize::MAX,
    ensures
        final(out)@ == old(out)@ + sandbox_call(
            *game,
            inputs@,
            *instance,
            *cfg,
            *host,
            gamedir@,
            index as nat,
        ),
{
    let mut call = "-- bwrap --die-with-parent --dev-bind / / --tmpfs /tmp ".to_owned();
    push_device_masks(&mut call, inputs, &instance.devices);
    match game {
        Game::HandlerRef(h) => {
            let profile = profile_dir_text(host, instance);
            let save = save_dir_text(game, host, instance);
            let prefix = compat_prefix_text(host, cfg, index);
            push_save_binds(
                &mut call,
                h,
                host,
                gamedir,
                profile.as_str(),
                save.as_str(),
                prefix.as_str(),
            );
        },
        Game::ExecRef(_) => {},
    }
    out.append(call.as_str());
}

} // verus!
