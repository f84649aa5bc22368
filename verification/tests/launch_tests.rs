use partydeck::config::{InstanceLayoutMode, PartyConfig};
use partydeck::game::{Executable, Game, Handler};
use partydeck::input::{DeviceInfo, DeviceType};
use partydeck::instance::Instance;
use partydeck::launch::{
    executable_path, launch_cmd, resolve_game_directory, HostPaths, HostProbe, LaunchError,
};

fn host() -> HostPaths {
    HostPaths {
        home: String::from("/h"),
        local_share: String::from("/h/.local/share"),
        party: String::from("/p"),
        steam: String::from("/s"),
        umu_run: String::from("/p/bin/umu-run"),
        gamescope_kbm: String::from("/p/bin/gamescope-kbm"),
    }
}

fn all_found() -> HostProbe {
    HostProbe {
        handler_root: Some(String::from("/games/managed")),
        executable_found: true,
        scout_runtime_found: true,
        soldier_runtime_found: true,
    }
}

fn config() -> PartyConfig {
    PartyConfig {
        instance_layout_mode: InstanceLayoutMode::KWin,
        vertical_two_player: false,
        force_sdl: false,
        gamescope_fix_lowres: false,
        kbm_support: false,
        gamescope_sdl_backend: false,
        proton_version: String::new(),
        proton_separate_pfxs: false,
    }
}

fn device(index: usize, device_type: DeviceType, enabled: bool) -> DeviceInfo {
    DeviceInfo { path: format!("/dev/input/event{}", index), device_type, enabled }
}

fn two_gamepads() -> Vec<DeviceInfo> {
    vec![device(0, DeviceType::Gamepad, true), device(1, DeviceType::Gamepad, true)]
}

fn instance(name: &str, devices: &[usize], width: u32, height: u32) -> Instance {
    Instance {
        devices: devices.to_vec(),
        profname: String::from(name),
        profselection: 1,
        width,
        height,
        gridposition: None,
    }
}

fn native_executable() -> Game {
    Game::ExecRef(Executable {
        dir: String::from("/games/foo"),
        filename: String::from("foo.x86_64"),
        args: String::from("-windowed"),
    })
}

fn handler() -> Handler {
    Handler {
        uid: String::from("mygame"),
        executable: String::from("bin/game"),
        args: Vec::new(),
        win: false,
        is32bit: false,
        runtime: String::new(),
        dll_overrides: Vec::new(),
        coldclient: false,
        path_goldberg: String::new(),
        win_unique_appdata: false,
        win_unique_documents: false,
        linux_unique_localshare: false,
        linux_unique_config: false,
        game_unique_paths: Vec::new(),
        symlink_dir: false,
    }
}

const EXPORTS: &str = "export SDL_JOYSTICK_HIDAPI=0 ENABLE_GAMESCOPE_WSI=0 PROTON_DISABLE_HIDRAW=1 ";
const BWRAP: &str = "-- bwrap --die-with-parent --dev-bind / / --tmpfs /tmp ";

#[test]
fn native_executable_for_two_players() {
    let instances =
        vec![instance("alice", &[0], 960, 540), instance("bob", &[1], 960, 540)];
    let cmd = launch_cmd(
        &native_executable(),
        &two_gamepads(),
        &instances,
        &config(),
        &host(),
        &all_found(),
    );
    let expected = [
        EXPORTS,
        "; ",
        "cd \"/games/foo\"; ",
        "gamescope -W 960 -H 540  ",
        BWRAP,
        "--bind /dev/null /dev/input/event1 ",
        "  \"/games/foo/foo.x86_64\" -windowed ",
        "& sleep 0.01; ",
        "gamescope -W 960 -H 540  ",
        BWRAP,
        "--bind /dev/null /dev/input/event0 ",
        "  \"/games/foo/foo.x86_64\" -windowed ",
    ]
    .concat();
    assert_eq!(cmd, Ok(expected));
}

#[test]
fn single_instance_has_no_pause() {
    let instances = vec![instance("alice", &[0, 1], 1920, 1080)];
    let cmd = launch_cmd(
        &native_executable(),
        &two_gamepads(),
        &instances,
        &config(),
        &host(),
        &all_found(),
    );
    let expected = [
        EXPORTS,
        "; ",
        "cd \"/games/foo\"; ",
        "gamescope -W 1920 -H 1080  ",
        BWRAP,
        "  \"/games/foo/foo.x86_64\" -windowed ",
    ]
    .concat();
    assert_eq!(cmd, Ok(expected));
}

#[test]
fn no_instances_give_only_the_preamble() {
    let cmd =
        launch_cmd(&native_executable(), &two_gamepads(), &Vec::new(), &config(), &host(), &all_found());
    assert_eq!(cmd, Ok([EXPORTS, "; ", "cd \"/games/foo\"; "].concat()));
}

#[test]
fn windows_executable_runs_through_the_compatibility_layer() {
    let game = Game::ExecRef(Executable {
        dir: String::from("/games/bar"),
        filename: String::from("bar.exe"),
        args: String::new(),
    });
    let instances = vec![instance("alice", &[0], 800, 600), instance("bob", &[1], 800, 600)];
    let mut cfg = config();
    cfg.force_sdl = true;
    let cmd = launch_cmd(&game, &two_gamepads(), &instances, &cfg, &host(), &all_found());
    let expected = [
        EXPORTS,
        "PROTON_VERB=run PROTONPATH=GE-Proton ",
        "; ",
        "cd \"/games/bar\"; ",
        "WINEPREFIX=/p/pfx ",
        "gamescope -W 800 -H 600  ",
        BWRAP,
        "--bind /dev/null /dev/input/event1 ",
        " /p/bin/umu-run \"/games/bar/bar.exe\"  ",
        "& sleep 6; ",
        "WINEPREFIX=/p/pfx ",
        "gamescope -W 800 -H 600  ",
        BWRAP,
        "--bind /dev/null /dev/input/event0 ",
        " /p/bin/umu-run \"/games/bar/bar.exe\"  ",
    ]
    .concat();
    assert_eq!(cmd, Ok(expected));
}

#[test]
fn forced_sdl_for_native_games() {
    let instances = vec![instance("alice", &[0, 1], 1920, 1080)];
    let mut cfg = config();
    cfg.force_sdl = true;
    let cmd = launch_cmd(&native_executable(), &two_gamepads(), &instances, &cfg, &host(), &all_found())
        .unwrap();
    assert!(cmd.starts_with(
        &[
            EXPORTS,
            "SDL_DYNAMIC_API=\"/s//ubuntu12_32/steam-runtime/usr/lib/x86_64-linux-gnu/libSDL2-2.0.so.0\" ",
            "; cd ",
        ]
        .concat()
    ));

    let mut h = handler();
    h.is32bit = true;
    let cmd = launch_cmd(&Game::HandlerRef(h), &two_gamepads(), &instances, &cfg, &host(), &all_found())
        .unwrap();
    assert!(cmd.starts_with(
        &[
            EXPORTS,
            "SDL_DYNAMIC_API=\"/s//ubuntu12_32/steam-runtime/usr/lib/i386-linux-gnu/libSDL2-2.0.so.0\" ",
            "; cd ",
        ]
        .concat()
    ));
}

#[test]
fn managed_windows_game_with_everything() {
    let mut h = handler();
    h.executable = String::from("bin/game.exe");
    h.args = ["-w", "$WIDTH", "-h", "$HEIGHT", "$WIDTHXHEIGHT", "$PROFILE", "$GAMEDIR", "$OTHER"]
        .iter()
        .map(|a| String::from(*a))
        .collect();
    h.win = true;
    h.dll_overrides = vec![String::from("winmm"), String::from("xinput1_3")];
    h.coldclient = true;
    h.path_goldberg = String::from("steam_settings");
    h.win_unique_appdata = true;
    h.win_unique_documents = true;
    h.linux_unique_localshare = true;
    h.game_unique_paths = vec![String::from("saves"), String::from("cfg/user")];
    h.symlink_dir = true;
    let mut cfg = config();
    cfg.instance_layout_mode = InstanceLayoutMode::Sway;
    cfg.force_sdl = true;
    cfg.kbm_support = true;
    cfg.gamescope_sdl_backend = true;
    cfg.proton_version = String::from("GE-Proton9-5");
    cfg.proton_separate_pfxs = true;
    let inputs = vec![
        device(0, DeviceType::Gamepad, true),
        device(1, DeviceType::Keyboard, true),
        device(2, DeviceType::Mouse, true),
        device(3, DeviceType::Gamepad, true),
        device(4, DeviceType::Gamepad, false),
    ];
    let instances = vec![instance("alice", &[1, 2], 1280, 720), instance(".Guest", &[3], 1280, 720)];
    let mut probe = all_found();
    probe.handler_root = None;
    let cmd = launch_cmd(&Game::HandlerRef(h), &inputs, &instances, &cfg, &host(), &probe);
    let expected = [
        EXPORTS,
        "PROTON_VERB=run PROTONPATH=GE-Proton9-5 ",
        "WINEDLLOVERRIDES=\"winmm,xinput1_3,=n,b\" ",
        "PROTON_DISABLE_LSTEAMCLIENT=1 ",
        "; ",
        "cd \"/p/gamesyms/mygame\"; ",
        // first instance
        "WINEPREFIX=/p/pfx1 ",
        "/p/bin/gamescope-kbm -W 1280 -H 720 --backend=sdl ",
        "--backend-disable-keyboard ",
        "--backend-disable-mouse ",
        "--libinput-hold-dev /dev/input/event1,/dev/input/event2, ",
        BWRAP,
        "--bind /dev/null /dev/input/event0 ",
        "--bind /dev/null /dev/input/event3 ",
        "--bind /dev/null /dev/input/event4 ",
        "--bind \"/p/profiles/alice/steam\" \"/p/gamesyms/mygame/steam_settings/goldbergsave\" ",
        "--bind \"/p/profiles/alice/saves/mygame/_AppData\" \"/p/pfx1/drive_c/users/steamuser//AppData\" ",
        "--bind \"/p/profiles/alice/saves/mygame/_Documents\" \"/p/pfx1/drive_c/users/steamuser//Documents\" ",
        "--bind \"/p/profiles/alice/saves/mygame/saves\" \"/p/gamesyms/mygame/saves\" ",
        "--bind \"/p/profiles/alice/saves/mygame/cfg/user\" \"/p/gamesyms/mygame/cfg/user\" ",
        " /p/bin/umu-run \"/p/gamesyms/mygame/bin/game.exe\" ",
        " -w 1280 -h 720 \"1280x720\" \"alice\" \"/p/gamesyms/mygame\" $OTHER ",
        "& sleep 6; ",
        // second instance
        "WINEPREFIX=/p/pfx2 ",
        "/p/bin/gamescope-kbm -W 1280 -H 720 --backend=sdl ",
        BWRAP,
        "--bind /dev/null /dev/input/event0 ",
        "--bind /dev/null /dev/input/event4 ",
        "--bind \"/p/profiles/.Guest/steam\" \"/p/gamesyms/mygame/steam_settings/goldbergsave\" ",
        "--bind \"/p/profiles/.Guest/saves/mygame/_AppData\" \"/p/pfx2/drive_c/users/steamuser//AppData\" ",
        "--bind \"/p/profiles/.Guest/saves/mygame/_Documents\" \"/p/pfx2/drive_c/users/steamuser//Documents\" ",
        "--bind \"/p/profiles/.Guest/saves/mygame/saves\" \"/p/gamesyms/mygame/saves\" ",
        "--bind \"/p/profiles/.Guest/saves/mygame/cfg/user\" \"/p/gamesyms/mygame/cfg/user\" ",
        " /p/bin/umu-run \"/p/gamesyms/mygame/bin/game.exe\" ",
        " -w 1280 -h 720 \"1280x720\" \".Guest\" \"/p/gamesyms/mygame\" $OTHER ",
    ]
    .concat();
    assert_eq!(cmd, Ok(expected));
}

#[test]
fn managed_native_game_with_scout_runtime() {
    let mut h = handler();
    h.runtime = String::from("scout");
    h.linux_unique_localshare = true;
    h.linux_unique_config = true;
    h.win_unique_appdata = true;
    h.args = vec![String::from("--fullscreen")];
    let instances = vec![instance("alice", &[0], 960, 1080), instance("bob", &[1], 960, 1080)];
    let cmd =
        launch_cmd(&Game::HandlerRef(h), &two_gamepads(), &instances, &config(), &host(), &all_found());
    let expected = [
        EXPORTS,
        "; ",
        "cd \"/games/managed\"; ",
        "gamescope -W 960 -H 1080  ",
        BWRAP,
        "--bind /dev/null /dev/input/event1 ",
        "--bind \"/p/profiles/alice/saves/mygame/_share\" \"/h/.local/share\" ",
        "--bind \"/p/profiles/alice/saves/mygame/_config\" \"/h/.config\" ",
        " \"/s/ubuntu12_32/steam-runtime/run.sh\" \"/games/managed/bin/game\" ",
        " --fullscreen ",
        "& sleep 0.01; ",
        "gamescope -W 960 -H 1080  ",
        BWRAP,
        "--bind /dev/null /dev/input/event0 ",
        "--bind \"/p/profiles/bob/saves/mygame/_share\" \"/h/.local/share\" ",
        "--bind \"/p/profiles/bob/saves/mygame/_config\" \"/h/.config\" ",
        " \"/s/ubuntu12_32/steam-runtime/run.sh\" \"/games/managed/bin/game\" ",
        " --fullscreen ",
    ]
    .concat();
    assert_eq!(cmd, Ok(expected));
}

#[test]
fn managed_native_game_with_soldier_runtime() {
    let mut h = handler();
    h.runtime = String::from("soldier");
    let instances = vec![instance("alice", &[0, 1], 1920, 1080)];
    let cmd =
        launch_cmd(&Game::HandlerRef(h), &two_gamepads(), &instances, &config(), &host(), &all_found());
    let expected = [
        EXPORTS,
        "; ",
        "cd \"/games/managed\"; ",
        "gamescope -W 1920 -H 1080  ",
        BWRAP,
        " \"/s/steamapps/common/SteamLinuxRuntime_soldier/_v2-entry-point\" \"/games/managed/bin/game\" ",
        " ",
    ]
    .concat();
    assert_eq!(cmd, Ok(expected));
}

#[test]
fn unknown_runtime_is_no_runtime() {
    let mut h = handler();
    h.runtime = String::from("sniper");
    let instances = vec![instance("alice", &[0, 1], 1920, 1080)];
    let mut probe = all_found();
    probe.scout_runtime_found = false;
    probe.soldier_runtime_found = false;
    let cmd = launch_cmd(&Game::HandlerRef(h), &two_gamepads(), &instances, &config(), &host(), &probe)
        .unwrap();
    assert!(cmd.ends_with("/tmp   \"/games/managed/bin/game\"  "));
}

#[test]
fn keyboard_and_mouse_routing() {
    let inputs = vec![
        device(0, DeviceType::Keyboard, true),
        device(1, DeviceType::Mouse, true),
        device(2, DeviceType::Gamepad, true),
        device(3, DeviceType::Keyboard, true),
    ];
    let mut cfg = config();
    cfg.kbm_support = true;
    let instances = vec![
        instance("kbd", &[3, 0], 640, 480),
        instance("mouse", &[1], 640, 480),
        instance("pad", &[2], 640, 480),
    ];
    let cmd = launch_cmd(&native_executable(), &inputs, &instances, &cfg, &host(), &all_found());
    let tail = "  \"/games/foo/foo.x86_64\" -windowed ";
    let expected = [
        EXPORTS,
        "; ",
        "cd \"/games/foo\"; ",
        "/p/bin/gamescope-kbm -W 640 -H 480  ",
        "--backend-disable-keyboard ",
        "--libinput-hold-dev /dev/input/event3,/dev/input/event0, ",
        BWRAP,
        "--bind /dev/null /dev/input/event2 ",
        tail,
        "& sleep 0.01; ",
        "/p/bin/gamescope-kbm -W 640 -H 480  ",
        "--backend-disable-mouse ",
        "--libinput-hold-dev /dev/input/event1, ",
        BWRAP,
        "--bind /dev/null /dev/input/event2 ",
        tail,
        "& sleep 0.01; ",
        "/p/bin/gamescope-kbm -W 640 -H 480  ",
        BWRAP,
        tail,
    ]
    .concat();
    assert_eq!(cmd, Ok(expected));
}

#[test]
fn disabled_devices_are_masked_for_everyone() {
    let inputs = vec![
        device(0, DeviceType::Keyboard, false),
        device(1, DeviceType::Gamepad, false),
        device(2, DeviceType::Mouse, true),
    ];
    let instances = vec![instance("alice", &[0, 1, 2], 640, 480)];
    let cmd = launch_cmd(&native_executable(), &inputs, &instances, &config(), &host(), &all_found())
        .unwrap();
    assert!(cmd.contains(
        "/tmp --bind /dev/null /dev/input/event0 --bind /dev/null /dev/input/event1   \"/games"
    ));
}

#[test]
fn synthesis_is_deterministic() {
    let instances = vec![instance("alice", &[0], 960, 540), instance("bob", &[1], 960, 540)];
    let mut h = handler();
    h.args = vec![String::from("$PROFILE"), String::from("$WIDTHXHEIGHT")];
    h.game_unique_paths = vec![String::from("save")];
    let game = Game::HandlerRef(h);
    let first = launch_cmd(&game, &two_gamepads(), &instances, &config(), &host(), &all_found());
    let second = launch_cmd(
        &game.clone(),
        &two_gamepads(),
        &instances.clone(),
        &config(),
        &host(),
        &all_found(),
    );
    assert!(first.is_ok());
    assert_eq!(first, second);
}

#[test]
fn game_directory_of_each_kind_of_game() {
    assert_eq!(
        resolve_game_directory(&native_executable(), &host(), &all_found()),
        Some(String::from("/games/foo"))
    );
    let mut h = handler();
    assert_eq!(
        resolve_game_directory(&Game::HandlerRef(h.clone()), &host(), &all_found()),
        Some(String::from("/games/managed"))
    );
    let mut probe = all_found();
    probe.handler_root = None;
    assert_eq!(resolve_game_directory(&Game::HandlerRef(h.clone()), &host(), &probe), None);
    h.symlink_dir = true;
    assert_eq!(
        resolve_game_directory(&Game::HandlerRef(h), &host(), &probe),
        Some(String::from("/p/gamesyms/mygame"))
    );
    assert_eq!(
        resolve_game_directory(&native_executable(), &host(), &probe),
        Some(String::from("/games/foo"))
    );
}

#[test]
fn executable_path_joins_directory_and_name() {
    assert_eq!(executable_path("/games/foo", &native_executable()), "/games/foo/foo.x86_64");
    assert_eq!(
        executable_path("/games/managed", &Game::HandlerRef(handler())),
        "/games/managed/bin/game"
    );
}

#[test]
fn unknown_game_directory_is_an_error() {
    let mut probe = all_found();
    probe.handler_root = None;
    probe.executable_found = false;
    let instances = vec![instance("alice", &[0], 960, 540)];
    let cmd =
        launch_cmd(&Game::HandlerRef(handler()), &two_gamepads(), &instances, &config(), &host(), &probe);
    assert_eq!(cmd, Err(LaunchError::GameRootUnknown));
}

#[test]
fn missing_executable_is_an_error() {
    let mut probe = all_found();
    probe.executable_found = false;
    probe.scout_runtime_found = false;
    let mut h = handler();
    h.runtime = String::from("scout");
    let instances = vec![instance("alice", &[0], 960, 540)];
    for game in [native_executable(), Game::HandlerRef(h)] {
        let cmd = launch_cmd(&game, &two_gamepads(), &instances, &config(), &host(), &probe);
        assert_eq!(cmd, Err(LaunchError::ExecutableNotFound));
    }
}

#[test]
fn missing_scout_runtime_is_an_error() {
    let mut probe = all_found();
    probe.scout_runtime_found = false;
    let mut h = handler();
    h.runtime = String::from("scout");
    let instances = vec![instance("alice", &[0], 960, 540)];
    let cmd =
        launch_cmd(&Game::HandlerRef(h.clone()), &two_gamepads(), &instances, &config(), &host(), &probe);
    assert_eq!(cmd, Err(LaunchError::ScoutRuntimeNotFound));
    // The runtime is asked for even where the compatibility layer starts the game.
    h.win = true;
    let cmd = launch_cmd(&Game::HandlerRef(h), &two_gamepads(), &instances, &config(), &host(), &probe);
    assert_eq!(cmd, Err(LaunchError::ScoutRuntimeNotFound));
}

#[test]
fn missing_soldier_runtime_is_an_error() {
    let mut probe = all_found();
    probe.soldier_runtime_found = false;
    let mut h = handler();
    h.runtime = String::from("soldier");
    let instances = vec![instance("alice", &[0], 960, 540)];
    let cmd =
        launch_cmd(&Game::HandlerRef(h.clone()), &two_gamepads(), &instances, &config(), &host(), &probe);
    assert_eq!(cmd, Err(LaunchError::SoldierRuntimeNotFound));
    h.runtime = String::from("scout");
    assert!(
        launch_cmd(&Game::HandlerRef(h), &two_gamepads(), &instances, &config(), &host(), &probe).is_ok()
    );
}

#[test]
fn runtimes_do_not_matter_to_a_bare_executable() {
    let mut probe = all_found();
    probe.scout_runtime_found = false;
    probe.soldier_runtime_found = false;
    probe.handler_root = None;
    let instances = vec![instance("alice", &[0], 960, 540)];
    assert!(
        launch_cmd(&native_executable(), &two_gamepads(), &instances, &config(), &host(), &probe).is_ok()
    );
}

#[test]
fn unknown_device_is_an_error_when_devices_are_routed() {
    let instances = vec![instance("alice", &[0], 960, 540), instance("bob", &[1, 2], 960, 540)];
    let mut cfg = config();
    cfg.kbm_support = true;
    let cmd = launch_cmd(&native_executable(), &two_gamepads(), &instances, &cfg, &host(), &all_found());
    assert_eq!(cmd, Err(LaunchError::UnknownDevice));
    // Without routing the device list is only searched, never indexed.
    let cmd =
        launch_cmd(&native_executable(), &two_gamepads(), &instances, &config(), &host(), &all_found());
    assert!(cmd.is_ok());
}

#[test]
fn errors_have_messages() {
    assert_eq!(LaunchError::ExecutableNotFound.message(), "Executable not found");
    assert_eq!(LaunchError::ScoutRuntimeNotFound.message(), "Steam Scout Runtime not found");
    assert_eq!(LaunchError::SoldierRuntimeNotFound.message(), "Steam Soldier Runtime not found");
    assert_eq!(LaunchError::GameRootUnknown.message(), "Game directory not found");
    assert_eq!(
        LaunchError::UnknownDevice.message(),
        "Instance refers to an unknown input device"
    );
}
