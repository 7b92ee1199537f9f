use sbrw_utility::config::Config;
use sbrw_utility::config::DXVKComponent;
use sbrw_utility::config::GameComponent;
use sbrw_utility::config::KeyValue;
use sbrw_utility::config::WineComponent;
use sbrw_utility::launcher::build_dll_overrides;
use sbrw_utility::launcher::game_session_step;
use sbrw_utility::launcher::launch_game;
use sbrw_utility::launcher::stop_game;
use sbrw_utility::launcher::GameSessionEvent;
use sbrw_utility::launcher::GameSessionState;

fn kv(key: &str, value: &str) -> KeyValue {
    KeyValue { key: key.to_string(), value: value.to_string() }
}

fn sample_config() -> Config {
    Config::new(
        WineComponent {
            version: "wine-10.8-staging-amd64".to_string(),
            path: "/data/runners/wine/wine-10.8-staging-amd64/bin".to_string(),
            esync: true,
            fsync: false,
            feral_gamemode: true,
        },
        DXVKComponent {
            version: "dxvk-1.10.3".to_string(),
            path: "/data/runtime/dxvk/dxvk-1.10.3".to_string(),
            enabled: true,
        },
        GameComponent {
            prefix: "/home/player/.wine-sbrw".to_string(),
            directory: "/home/player/.wine-sbrw/drive_c/SBRW".to_string(),
            launcher: "/home/player/.wine-sbrw/drive_c/SBRW/GameLauncher.exe".to_string(),
            mangohud: true,
            environment_variables: vec![kv("DXVK_HUD", "fps")],
            dll_overrides: vec![kv("dinput8", "n,b")],
        },
    )
}

#[test]
fn override_string_with_no_user_overrides_ends_with_helper_suppression() {
    let s = build_dll_overrides(true, &Vec::new());
    assert_eq!(s, "d3d9,d3d10,d3d10_1,d3d10core,d3d11,dxgi=n;winemenubuilder=");
    let s = build_dll_overrides(false, &Vec::new());
    assert_eq!(s, "d3d9,d3d10,d3d10_1,d3d10core,d3d11,dxgi=b;winemenubuilder=");
}

#[test]
fn helper_suppression_stays_last_whatever_the_user_orders() {
    let user = vec![kv("dinput8", "n,b"), kv("winemenubuilder", "n")];
    let s = build_dll_overrides(true, &user);
    assert_eq!(
        s,
        "d3d9,d3d10,d3d10_1,d3d10core,d3d11,dxgi=n;dinput8=n,b;winemenubuilder=n;winemenubuilder="
    );
    assert!(s.ends_with(";winemenubuilder="));
    let reversed = vec![kv("winemenubuilder", "n"), kv("dinput8", "n,b")];
    assert!(build_dll_overrides(true, &reversed).ends_with(";winemenubuilder="));
}

#[test]
fn overlay_wrapper_wins_when_configured_and_available() {
    let plan = launch_game(&sample_config(), true, true);
    assert_eq!(plan.program, "mangohud");
    assert_eq!(
        plan.args,
        vec![
            "gamemoderun",
            "/data/runners/wine/wine-10.8-staging-amd64/bin/wine",
            "/home/player/.wine-sbrw/drive_c/SBRW/GameLauncher.exe",
        ]
    );
}

#[test]
fn scheduling_wrapper_is_used_without_the_overlay() {
    let mut c = sample_config();
    c.game.mangohud = false;
    let plan = launch_game(&c, true, true);
    assert_eq!(plan.program, "gamemoderun");
    assert_eq!(
        plan.args,
        vec![
            "/data/runners/wine/wine-10.8-staging-amd64/bin/wine",
            "/home/player/.wine-sbrw/drive_c/SBRW/GameLauncher.exe",
        ]
    );
}

#[test]
fn bare_launch_runs_the_layer_directly() {
    let plan = launch_game(&sample_config(), false, false);
    assert_eq!(plan.program, "/data/runners/wine/wine-10.8-staging-amd64/bin/wine");
    assert_eq!(plan.args, vec!["/home/player/.wine-sbrw/drive_c/SBRW/GameLauncher.exe"]);
    assert_eq!(plan.working_dir, "/home/player/.wine-sbrw/drive_c/SBRW");
}

#[test]
fn launch_environment_holds_user_variables_then_fixed_ones() {
    let plan = launch_game(&sample_config(), true, true);
    assert_eq!(plan.envs.len(), 5);
    assert_eq!(plan.envs[0].key, "DXVK_HUD");
    assert_eq!(plan.envs[0].value, "fps");
    assert_eq!(plan.envs[1].key, "WINEPREFIX");
    assert_eq!(plan.envs[1].value, "/home/player/.wine-sbrw");
    assert_eq!(plan.envs[2].key, "WINEESYNC");
    assert_eq!(plan.envs[2].value, "1");
    assert_eq!(plan.envs[3].key, "WINEFSYNC");
    assert_eq!(plan.envs[3].value, "0");
    assert_eq!(plan.envs[4].key, "WINEDLLOVERRIDES");
    assert_eq!(
        plan.envs[4].value,
        "d3d9,d3d10,d3d10_1,d3d10core,d3d11,dxgi=n;dinput8=n,b;winemenubuilder="
    );
}

#[test]
fn session_monitor_walks_the_two_phase_wait() {
    let (s, tag) = game_session_step(&GameSessionState::Launching, &GameSessionEvent::WrapperExited);
    assert_eq!(s, GameSessionState::Running);
    assert_eq!(tag.as_deref(), Some("GameRunning"));
    let (s, tag) = game_session_step(&s, &GameSessionEvent::SessionQuiesced);
    assert_eq!(s, GameSessionState::Stopped);
    assert_eq!(tag.as_deref(), Some("GameStopped"));
}

#[test]
fn session_monitor_reports_a_failed_spawn_as_stopped() {
    let (s, tag) = game_session_step(&GameSessionState::Launching, &GameSessionEvent::SpawnFailed);
    assert_eq!(s, GameSessionState::Stopped);
    assert_eq!(tag.as_deref(), Some("GameStopped"));
}

#[test]
fn session_monitor_ignores_out_of_phase_events() {
    let (s, tag) = game_session_step(&GameSessionState::Stopped, &GameSessionEvent::WrapperExited);
    assert_eq!(s, GameSessionState::Stopped);
    assert!(tag.is_none());
}

#[test]
fn stop_command_kills_the_whole_session() {
    let p = stop_game(&sample_config());
    assert_eq!(p.program, "/data/runners/wine/wine-10.8-staging-amd64/bin/wineserver");
    assert_eq!(p.args, vec!["-k"]);
    assert_eq!(p.envs.len(), 1);
    assert_eq!(p.envs[0].key, "WINEPREFIX");
    assert_eq!(p.envs[0].value, "/home/player/.wine-sbrw");
}
