use sbrw_utility::config::Config;
use sbrw_utility::config::DXVKComponent;
use sbrw_utility::config::GameComponent;
use sbrw_utility::config::KeyValue;
use sbrw_utility::config::WineComponent;
use sbrw_utility::error::SetupError;
use sbrw_utility::finalize::finalize_setup;
use sbrw_utility::finalize::write_config;
use sbrw_utility::store::CommandAvailability;
use sbrw_utility::store::ConfigStore;
use sbrw_utility::wine::install_runtimes;
use sbrw_utility::wine::wineboot_command;

fn sample_config(marker: &str) -> Config {
    Config::new(
        WineComponent {
            version: marker.to_string(),
            path: "/w".to_string(),
            esync: true,
            fsync: true,
            feral_gamemode: false,
        },
        DXVKComponent { version: "d".to_string(), path: "/d".to_string(), enabled: false },
        GameComponent {
            prefix: "/p".to_string(),
            directory: "/p/drive_c/SBRW".to_string(),
            launcher: "/p/drive_c/SBRW/GameLauncher.exe".to_string(),
            mangohud: false,
            environment_variables: vec![KeyValue {
                key: "A".to_string(),
                value: "1".to_string(),
            }],
            dll_overrides: vec![],
        },
    )
}

#[test]
fn fresh_descriptor_carries_no_version_lists() {
    let c = sample_config("w");
    assert!(c.available_wine_versions.is_none());
    assert!(c.available_dxvk_versions.is_none());
}

#[test]
fn descriptor_clone_is_a_faithful_snapshot() {
    let c = sample_config("w");
    let d = c.clone();
    assert_eq!(d.wine.version, c.wine.version);
    assert_eq!(d.game.environment_variables.len(), 1);
    assert_eq!(d.game.environment_variables[0].key, "A");
    assert_eq!(d.dxvk.enabled, c.dxvk.enabled);
}

#[test]
fn initial_descriptor_has_the_documented_defaults() {
    let c = write_config(
        "/p",
        "/p/drive_c/SBRW",
        "wine-10.8-staging-amd64",
        "/data/runners/wine/wine-10.8-staging-amd64/bin",
        "dxvk-1.10.3",
        "/data/runtime/dxvk/dxvk-1.10.3",
    );
    assert_eq!(c.wine.version, "wine-10.8-staging-amd64");
    assert!(c.wine.esync && c.wine.fsync && c.wine.feral_gamemode);
    assert!(c.dxvk.enabled);
    assert_eq!(c.game.launcher, "/p/drive_c/SBRW/GameLauncher.exe");
    assert!(!c.game.mangohud);
    assert!(c.game.environment_variables.is_empty());
    assert_eq!(c.game.dll_overrides.len(), 1);
    assert_eq!(c.game.dll_overrides[0].key, "dinput8");
    assert_eq!(c.game.dll_overrides[0].value, "n,b");
}

#[test]
fn finalize_plan_names_the_fixed_locations() {
    let p = finalize_setup(
        "/p",
        "/data/tools/launcher.tar.gz",
        "/data",
        "wine-10.8-staging-amd64",
        "/w/bin",
        "dxvk-1.10.3",
        "/d",
    )
    .unwrap();
    assert_eq!(p.game_dir, "/p/drive_c/SBRW");
    assert_eq!(p.machine_id_dir, "/p/drive_c/etc");
    assert_eq!(p.config_path, "/data/config.json");
    assert_eq!(p.tools_dir, "/data/tools");
    assert_eq!(p.launcher_extract.program, "tar");
    assert_eq!(p.config.game.prefix, "/p");
}

#[test]
fn finalize_refuses_an_unextractable_launcher_archive() {
    let r = finalize_setup("/p", "/data/tools/launcher.rar", "/data", "w", "/w", "d", "/d");
    assert!(matches!(r, Err(SetupError::UnsupportedFormat(_))));
}

#[test]
fn store_serves_snapshots_once_seeded() {
    let mut store = ConfigStore::new();
    assert!(matches!(store.get_config(), Err(SetupError::NotInitialized)));
    store.init_config(sample_config("first")).unwrap();
    assert_eq!(store.get_config().unwrap().wine.version, "first");
    assert!(matches!(
        store.init_config(sample_config("second")),
        Err(SetupError::AlreadyInitialized)
    ));
    assert_eq!(store.get_config().unwrap().wine.version, "first");
}

#[test]
fn store_updates_replace_the_live_descriptor() {
    let mut store = ConfigStore::new();
    assert!(matches!(
        store.update_config(sample_config("early")),
        Err(SetupError::NotInitialized)
    ));
    store.init_config(sample_config("first")).unwrap();
    store.update_config(sample_config("second")).unwrap();
    assert_eq!(store.get_config().unwrap().wine.version, "second");
}

#[test]
fn command_availability_reads_by_name() {
    let a = CommandAvailability::new(true, false);
    assert!(a.command_is_available("gamemoderun"));
    assert!(!a.command_is_available("mangohud"));
    assert!(!a.command_is_available("unrelated"));
}

#[test]
fn bootstrap_command_selects_the_isolated_environment() {
    let p = wineboot_command("/w/bin/wineboot", "/p");
    assert_eq!(p.program, "/w/bin/wineboot");
    assert!(p.args.is_empty());
    assert_eq!(p.envs.len(), 3);
    assert_eq!(p.envs[0].key, "WINEARCH");
    assert_eq!(p.envs[0].value, "win64");
    assert_eq!(p.envs[1].key, "WINEPREFIX");
    assert_eq!(p.envs[1].value, "/p");
    assert_eq!(p.envs[2].key, "WINEDLLOVERRIDES");
    assert_eq!(p.envs[2].value, "winemenubuilder=");
}

#[test]
fn runtime_installation_plan_runs_in_fixed_order() {
    let plan = install_runtimes("/data/tools/wine-mono-10.0.0-x86.msi", "/w/bin/wine", "/p", "/data/tools");
    assert_eq!(plan.mono_install.program, "/w/bin/wine");
    assert_eq!(
        plan.mono_install.args,
        vec!["msiexec", "/i", "/data/tools/wine-mono-10.0.0-x86.msi"]
    );
    assert_eq!(plan.mono_install.envs[0].key, "WINEPREFIX");
    assert_eq!(
        plan.x86_install.args,
        vec!["/data/tools/vc_redist.x86.exe", "/quiet", "/norestart"]
    );
    assert_eq!(
        plan.x64_install.args,
        vec!["/data/tools/vc_redist.x64.exe", "/quiet", "/norestart"]
    );
    assert_eq!(plan.detection.max_attempts, 60);
    assert_eq!(
        plan.overrides_import.args,
        vec!["regedit", "/s", "/data/tools/overrides.reg"]
    );
}
