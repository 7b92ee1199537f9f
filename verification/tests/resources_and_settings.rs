use sbrw_utility::environment::bundled_resource_names;
use sbrw_utility::environment::extract_bundled_archives;
use sbrw_utility::environment::setup_environment_paths;
use sbrw_utility::error::SetupError;
use sbrw_utility::resource::download_game_launcher;
use sbrw_utility::resource::dxvk_release_url;
use sbrw_utility::resource::get_latest_download_url;
use sbrw_utility::resource::launcher_asset_prefix;
use sbrw_utility::resource::launcher_release_endpoint;
use sbrw_utility::resource::repair_dxvk;
use sbrw_utility::resource::Asset;
use sbrw_utility::setting::add_wine_version;
use sbrw_utility::setting::get_available_dxvk_directories;
use sbrw_utility::setting::get_available_wine_directories;
use sbrw_utility::setting::populate_settings;
use sbrw_utility::setting::ScannedDxvkDir;
use sbrw_utility::setting::ScannedRunnerDir;
use sbrw_utility::config::Config;
use sbrw_utility::config::DXVKComponent;
use sbrw_utility::config::GameComponent;
use sbrw_utility::config::WineComponent;

fn asset(name: &str, url: &str) -> Asset {
    Asset { name: name.to_string(), browser_download_url: url.to_string() }
}

#[test]
fn release_lookup_picks_the_first_matching_asset() {
    let assets = vec![
        asset("Windows.Release.zip", "https://example.net/win.zip"),
        asset("Unix.Release.1.tar.gz", "https://example.net/unix1.tar.gz"),
        asset("Unix.Release.2.tar.gz", "https://example.net/unix2.tar.gz"),
    ];
    let url = get_latest_download_url(&assets, "Unix.Release").unwrap();
    assert_eq!(url, "https://example.net/unix1.tar.gz");
}

#[test]
fn release_lookup_without_match_is_not_found() {
    let assets = vec![asset("Windows.Release.zip", "https://example.net/win.zip")];
    assert!(matches!(
        get_latest_download_url(&assets, "Unix.Release"),
        Err(SetupError::NotFound(_))
    ));
}

#[test]
fn launcher_download_derives_the_file_name_from_the_address() {
    let assets = vec![asset("Unix.Release.tar.gz", "https://example.net/path/launcher.tar.gz")];
    let (url, name) = download_game_launcher(&assets).unwrap();
    assert_eq!(url, "https://example.net/path/launcher.tar.gz");
    assert_eq!(name, "launcher.tar.gz");
}

#[test]
fn launcher_release_constants_are_fixed() {
    assert_eq!(
        launcher_release_endpoint(),
        "https://api.github.com/repos/SoapboxRaceWorld/GameLauncher_NFSW/releases/latest"
    );
    assert_eq!(launcher_asset_prefix(), "Unix.Release");
}

#[test]
fn dxvk_release_address_rewrites_the_version_marker() {
    let (url, file_name) = dxvk_release_url("dxvk-1.10.3");
    assert_eq!(
        url,
        "https://github.com/doitsujin/dxvk/releases/download/v1.10.3/dxvk-1.10.3.tar.gz"
    );
    assert_eq!(file_name, "dxvk-1.10.3.tar.gz");
}

#[test]
fn dxvk_repair_downloads_only_when_the_layer_is_absent() {
    assert!(repair_dxvk("dxvk-1.10.3", "/layer", true).is_none());
    let d = repair_dxvk("dxvk-1.10.3", "/layer", false).unwrap();
    assert_eq!(
        d.url,
        "https://github.com/doitsujin/dxvk/releases/download/v1.10.3/dxvk-1.10.3.tar.gz"
    );
    assert_eq!(d.archive_path, "/layer/dxvk-1.10.3.tar.gz");
}

#[test]
fn setup_layout_lives_under_the_data_directory() {
    let p = setup_environment_paths("/data");
    assert_eq!(p.runners_wine_dir, "/data/runners/wine");
    assert_eq!(p.runners_proton_dir, "/data/runners/proton");
    assert_eq!(p.runtime_dxvk_dir, "/data/runtime/dxvk");
    assert_eq!(p.tools_dir, "/data/tools");
    assert_eq!(p.wine_path, "/data/runners/wine/wine-10.8-staging-amd64");
    assert_eq!(p.dxvk_path, "/data/runtime/dxvk/dxvk-1.10.3");
    assert_eq!(p.mono_msi_path, "/data/tools/wine-mono-10.0.0-x86.msi");
    assert_eq!(p.wine_bin_dir, "/data/runners/wine/wine-10.8-staging-amd64/bin");
    assert_eq!(p.wineboot_path, "/data/runners/wine/wine-10.8-staging-amd64/bin/wineboot");
    assert_eq!(p.wine_cmd_path, "/data/runners/wine/wine-10.8-staging-amd64/bin/wine");
}

#[test]
fn bundled_resources_are_the_fixed_six() {
    let names = bundled_resource_names();
    assert_eq!(
        names,
        vec![
            "wine-10.8-staging-amd64.tar.xz",
            "dxvk-1.10.3.tar.gz",
            "wine-mono-10.0.0-x86.msi",
            "vc_redist.x86.exe",
            "vc_redist.x64.exe",
            "overrides.reg",
        ]
    );
}

#[test]
fn bundled_archives_unpack_into_their_version_directories() {
    let b = extract_bundled_archives("/data/tools", "/data/runners/wine", "/data/runtime/dxvk");
    assert_eq!(b.wine_dir, "/data/runners/wine/wine-10.8-staging-amd64");
    assert_eq!(b.dxvk_dir, "/data/runtime/dxvk/dxvk-1.10.3");
    assert_eq!(b.wine_extract.program, "tar");
    assert_eq!(
        b.wine_extract.args,
        vec![
            "-xf",
            "/data/tools/wine-10.8-staging-amd64.tar.xz",
            "-C",
            "/data/runners/wine/wine-10.8-staging-amd64",
            "--strip-components=1",
        ]
    );
    assert_eq!(b.dxvk_extract.program, "tar");
    assert_eq!(b.dxvk_extract.args[1], "/data/tools/dxvk-1.10.3.tar.gz");
}

fn runner(name: &str, is_dir: bool, has_wine_binary: bool) -> ScannedRunnerDir {
    ScannedRunnerDir {
        name: name.to_string(),
        path: format!("/data/runners/any/{}", name),
        is_dir,
        has_wine_binary,
    }
}

#[test]
fn version_scan_keeps_only_directories_with_the_layer_binary() {
    let wine_entries = vec![
        runner("wine-10.8-staging-amd64", true, true),
        runner("stray-file", false, false),
        runner("incomplete", true, false),
    ];
    let proton_entries = vec![runner("GE-Proton9-5", true, true)];
    let versions =
        get_available_wine_directories(true, true, &wine_entries, &proton_entries).unwrap();
    assert_eq!(versions.len(), 2);
    assert_eq!(versions[0].name, "wine-10.8-staging-amd64");
    assert_eq!(versions[0].path, "/data/runners/any/wine-10.8-staging-amd64/bin");
    assert_eq!(versions[1].name, "GE-Proton9-5");
    assert_eq!(versions[1].path, "/data/runners/any/GE-Proton9-5/files/bin");
}

#[test]
fn version_scan_refuses_missing_directories() {
    assert!(matches!(
        get_available_wine_directories(false, true, &Vec::new(), &Vec::new()),
        Err(SetupError::PathError(_))
    ));
    assert!(matches!(
        get_available_dxvk_directories(false, &Vec::new()),
        Err(SetupError::PathError(_))
    ));
}

#[test]
fn dxvk_scan_needs_both_architecture_directories() {
    let entries = vec![
        ScannedDxvkDir {
            name: "dxvk-1.10.3".to_string(),
            path: "/data/runtime/dxvk/dxvk-1.10.3".to_string(),
            is_dir: true,
            has_x32: true,
            has_x64: true,
        },
        ScannedDxvkDir {
            name: "dxvk-broken".to_string(),
            path: "/data/runtime/dxvk/dxvk-broken".to_string(),
            is_dir: true,
            has_x32: true,
            has_x64: false,
        },
    ];
    let versions = get_available_dxvk_directories(true, &entries).unwrap();
    assert_eq!(versions.len(), 1);
    assert_eq!(versions[0].name, "dxvk-1.10.3");
}

fn bare_config() -> Config {
    Config::new(
        WineComponent {
            version: "w".to_string(),
            path: "/w".to_string(),
            esync: true,
            fsync: true,
            feral_gamemode: true,
        },
        DXVKComponent { version: "d".to_string(), path: "/d".to_string(), enabled: true },
        GameComponent {
            prefix: "/p".to_string(),
            directory: "/p/drive_c/SBRW".to_string(),
            launcher: "/p/drive_c/SBRW/GameLauncher.exe".to_string(),
            mangohud: false,
            environment_variables: vec![],
            dll_overrides: vec![],
        },
    )
}

#[test]
fn populated_settings_carry_the_scanned_lists() {
    let wine_versions = vec![];
    let dxvk_versions = vec![];
    let c = populate_settings(bare_config(), wine_versions, dxvk_versions);
    assert!(c.available_wine_versions.is_some());
    assert!(c.available_dxvk_versions.is_some());
    assert_eq!(c.wine.version, "w");
    assert_eq!(c.game.prefix, "/p");
}

#[test]
fn new_version_archive_names_pass_the_allow_list() {
    let p = add_wine_version("/data/runners", "wine-9.0-amd64.tar.xz").unwrap();
    assert_eq!(p.base_name, "wine-9.0-amd64");
    assert_eq!(p.target_dir, "/data/runners/wine/wine-9.0-amd64");
    assert!(p.is_wine);
    let p = add_wine_version("/data/runners", "GE-Proton9-5.tar.gz").unwrap();
    assert_eq!(p.base_name, "GE-Proton9-5");
    assert_eq!(p.target_dir, "/data/runners/proton/GE-Proton9-5");
    assert!(!p.is_wine);
    let p = add_wine_version("/data/runners", "Proton-8.0.tar.gz").unwrap();
    assert_eq!(p.target_dir, "/data/runners/proton/Proton-8.0");
}

#[test]
fn unknown_or_badly_packed_archives_are_refused() {
    assert!(matches!(
        add_wine_version("/data/runners", "lutris-7.2.tar.xz"),
        Err(SetupError::PathError(_))
    ));
    assert!(matches!(
        add_wine_version("/data/runners", "wine-9.0.zip"),
        Err(SetupError::PathError(_))
    ));
}
