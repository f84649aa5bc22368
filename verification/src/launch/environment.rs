//! The environment that the command exports, and the program through which
//! the game is started.

use vstd::prelude::*;
use crate::config::PartyConfig;
use crate::game::{Game, Handler};
use crate::launch::host::{wants_runtime, HostPaths};
use crate::text::{concat_range, same_text};

verus! {

/// The SDL library of the Steam runtime, in the game's word size.
pub open spec fn sdl_library(game: Game) -> Seq<char> {
    if game matches Game::HandlerRef(h) && h.is32bit {
        "/ubuntu12_32/steam-runtime/usr/lib/i386-linux-gnu/libSDL2-2.0.so.0"@
    } else {
        "/ubuntu12_32/steam-runtime/usr/lib/x86_64-linux-gnu/libSDL2-2.0.so.0"@
    }
}

/// The compatibility-layer build: the configured one, or the default.
pub open spec fn compat_layer_build(cfg: PartyConfig) -> Seq<char> {
    if cfg.proton_version@.len() == 0 {
        "GE-Proton"@
    } else {
        cfg.proton_version@
    }
}

/// The entry of one library in the list of overrides.
pub open spec fn override_piece(dlls: Seq<String>) -> spec_fn(int) -> Seq<char> {
    |k: int| dlls[k]@ + ","@
}

/// The library overrides of a managed Windows game, and whether the Steam
/// client library of the compatibility layer is switched off.
pub open spec fn handler_compat_exports(h: Handler) -> Seq<char> {
    (if h.dll_overrides@.len() > 0 {
        "WINEDLLOVERRIDES=\""@ + concat_range(
            h.dll_overrides@.len(),
            override_piece(h.dll_overrides@),
        ) + "=n,b\" "@
    } else {
        Seq::empty()
    }) + (if h.coldclient {
        "PROTON_DISABLE_LSTEAMCLIENT=1 "@
    } else {
        Seq::empty()
    })
}

/// The variables that select and configure the compatibility layer.
pub open spec fn compat_exports(game: Game, cfg: PartyConfig) -> Seq<char> {
    "PROTON_VERB=run PROTONPATH="@ + compat_layer_build(cfg) + " "@ + (match game {
        Game::HandlerRef(h) => handler_compat_exports(h),
        Game::ExecRef(_) => Seq::empty(),
    })
}

/// The `export` statement that opens the command.
pub open spec fn environment_exports(game: Game, cfg: PartyConfig, host: HostPaths) -> Seq<char> {
    "export SDL_JOYSTICK_HIDAPI=0 ENABLE_GAMESCOPE_WSI=0 PROTON_DISABLE_HIDRAW=1 "@ + (if cfg.force_sdl
        && !game.is_windows() {
        "SDL_DYNAMIC_API=\""@ + host.steam@ + "/"@ + sdl_library(game) + "\" "@
    } else {
        Seq::empty()
    }) + (if game.is_windows() {
        compat_exports(game, cfg)
    } else {
        Seq::empty()
    }) + "; "@
}

/// The program through which the game is started: the compatibility layer's
/// runner for a Windows game, the entry point of the Steam runtime that a
/// managed native game asks for, or nothing.
pub open spec fn runtime_launcher(game: Game, host: HostPaths) -> Seq<char> {
    if game.is_windows() {
        host.umu_run@
    } else if wants_runtime(game, "scout"@) {
        "\""@ + host.steam@ + "/ubuntu12_32/steam-runtime/run.sh\""@
    } else if wants_runtime(game, "soldier"@) {
        "\""@ + host.steam@ + "/steamapps/common/SteamLinuxRuntime_soldier/_v2-entry-point\""@
    } else {
        Seq::empty()
    }
}

fn override_list(dlls: &Vec<String>) -> (list: String)
    ensures
        list@ == concat_range(dlls@.len(), override_piece(dlls@)),
{
    let mut list = String::new();
    let mut i: usize = 0;
    while i < dlls.len()
        invariant
            i <= dlls.len(),
            list@ == concat_range(i as nat, override_piece(dlls@)),
        decreases dlls.len() - i,
    {
        list.append(dlls[i].as_str());
        list.append(",");
        i = i + 1;
    }
    list
}

fn push_handler_compat_exports(out: &mut String, h: &Handler)
    ensures
        final(out)@ == old(out)@ + handler_compat_exports(*h),
{
    if h.dll_overrides.len() > 0 {
        let list = override_list(&h.dll_overrides);
        out.append("WINEDLLOVERRIDES=\"");
        out.append(list.as_str());
        out.append("=n,b\" ");
    }
    if h.coldclient {
        out.append("PROTON_DISABLE_LSTEAMCLIENT=1 ");
    }
}

fn push_compat_exports(out: &mut String, game: &Game, cfg: &PartyConfig)
    ensures
        final(out)@ == old(out)@ + compat_exports(*game, *cfg),
{
    out.append("PROTON_VERB=run PROTONPATH=");
    if cfg.proton_version.as_str().is_empty() {
        out.append("GE-Proton");
    } else {
        out.append(cfg.proton_version.as_str());
    }
    out.append(" ");
    match game {
        Game::HandlerRef(h) => {
            push_handler_compat_exports(out, h);
        },
        Game::ExecRef(_) => {},
    }
}

fn sdl_library_path(game: &Game) -> (path: &'static str)
    ensures
        path@ == sdl_library(*game),
{
    match game {
        Game::HandlerRef(h) => {
            if h.is32bit {
                "/ubuntu12_32/steam-runtime/usr/lib/i386-linux-gnu/libSDL2-2.0.so.0"
            } else {
                "/ubuntu12_32/steam-runtime/usr/lib/x86_64-linux-gnu/libSDL2-2.0.so.0"
            }
        },
        Game::ExecRef(_) => "/ubuntu12_32/steam-runtime/usr/lib/x86_64-linux-gnu/libSDL2-2.0.so.0",
    }
}

pub(crate) fn push_environment_exports(out: &mut String, game: &Game, cfg: &PartyConfig, host: &HostPaths)
    ensures
        final(out)@ == old(out)@ + environment_exports(*game, *cfg, *host),
{
    let win = game.win();
    out.append("export SDL_JOYSTICK_HIDAPI=0 ENABLE_GAMESCOPE_WSI=0 PROTON_DISABLE_HIDRAW=1 ");
    if cfg.force_sdl && !win {
        out.append("SDL_DYNAMIC_API=\"");
        out.append(host.steam.as_str());
        out.append("/");
        out.append(sdl_library_path(game));
        out.append("\" ");
    }
    if win {
        push_compat_exports(out, game, cfg);
    }
    out.append("; ");
}

/// Whether the game asks for the named Steam runtime.
pub(crate) fn game_wants_runtime(game: &Game, name: &str) -> (wanted: bool)
    ensures
        wanted == wants_runtime(*game, name@),
{
    match game {
        Game::HandlerRef(h) => same_text(h.runtime.as_str(), name),
        Game::ExecRef(_) => false,
    }
}

pub(crate) fn runtime_launcher_text(game: &Game, host: &HostPaths) -> (launcher: String)
    ensures
        launcher@ == runtime_launcher(*game, *host),
{
    if game.win() {
        host.umu_run.clone()
    } else if game_wants_runtime(game, "scout") {
        let mut launcher = "\"".to_owned();
        launcher.append(host.steam.as_str());
        launcher.append("/ubuntu12_32/steam-runtime/run.sh\"");
        launcher
    } else if game_wants_runtime(game, "soldier") {
        let mut launcher = "\"".to_owned();
        launcher.append(host.steam.as_str());
        launcher.append("/steamapps/common/SteamLinuxRuntime_soldier/_v2-entry-point\"");
        launcher
    } else {
        String::new()
    }
}

} // verus!
