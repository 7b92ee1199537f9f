//! Finalizing a provisioning run: where the target application unpacks
//! inside the prefix, where the host machine identity is mirrored, and
//! the initial environment descriptor that the run persists.

use vstd::prelude::*;
use vstd::string::*;
use crate::archive::extension_spec;
use crate::archive::extract_archive;
use crate::archive::tar_extension;
use crate::archive::tar_plan_is;
use crate::archive::zip_extension;
use crate::archive::zip_plan_is;
use crate::command::CommandPlan;
use crate::config::Config;
use crate::config::DXVKComponent;
use crate::config::GameComponent;
use crate::config::KeyValue;
use crate::config::WineComponent;
use crate::error::SetupError;
use crate::strutil::join_path;

verus! {

/// `c` is the descriptor a fresh provisioning run writes: both
/// synchronisation flags and the scheduling wrapper on, the graphics
/// layer enabled, the overlay off, no environment-variable overrides,
/// and the one fixed library-routing override for the input library.
pub open spec fn initial_config_is(
    c: Config,
    wine_prefix: Seq<char>,
    game_dir: Seq<char>,
    wine_version: Seq<char>,
    wine_path: Seq<char>,
    dxvk_version: Seq<char>,
    dxvk_path: Seq<char>,
) -> bool {
    &&& c.wine.version@ == wine_version
    &&& c.wine.path@ == wine_path
    &&& c.wine.esync
    &&& c.wine.fsync
    &&& c.wine.feral_gamemode
    &&& c.dxvk.version@ == dxvk_version
    &&& c.dxvk.path@ == dxvk_path
    &&& c.dxvk.enabled
    &&& c.game.prefix@ == wine_prefix
    &&& c.game.directory@ == game_dir
    &&& c.game.launcher@ == game_dir + "/"@ + "GameLauncher.exe"@
    &&& !c.game.mangohud
    &&& c.game.environment_variables@.len() == 0
    &&& c.game.dll_overrides@.len() == 1
    &&& c.game.dll_overrides@[0].key@ == "dinput8"@
    &&& c.game.dll_overrides@[0].value@ == "n,b"@
    &&& c.available_wine_versions is None
    &&& c.available_dxvk_versions is None
}

/// The descriptor a fresh provisioning run writes.
pub fn write_config(
    wine_prefix: &str,
    game_dir: &str,
    wine_version: &str,
    wine_path: &str,
    dxvk_version: &str,
    dxvk_path: &str,
) -> (c: Config)
    ensures
        initial_config_is(
            c,
            wine_prefix@,
            game_dir@,
            wine_version@,
            wine_path@,
            dxvk_version@,
            dxvk_path@,
        ),
{
    let wine = WineComponent {
        version: String::from_str(wine_version),
        path: String::from_str(wine_path),
        esync: true,
        fsync: true,
        feral_gamemode: true,
    };
    let dxvk = DXVKComponent {
        version: String::from_str(dxvk_version),
        path: String::from_str(dxvk_path),
        enabled: true,
    };
    let environment_variables: Vec<KeyValue> = Vec::new();
    let mut dll_overrides: Vec<KeyValue> = Vec::new();
    dll_overrides.push(
        KeyValue { key: String::from_str("dinput8"), value: String::from_str("n,b") },
    );
    let game = GameComponent {
        prefix: String::from_str(wine_prefix),
        directory: String::from_str(game_dir),
        launcher: join_path(game_dir, "GameLauncher.exe"),
        mangohud: false,
        environment_variables,
        dll_overrides,
    };
    Config::new(wine, dxvk, game)
}

/// Everything the finalize step asks the shell to do, in order: create
/// the application directory inside the prefix and unpack the launcher
/// archive into it, mirror the machine identity, persist the initial
/// descriptor, and clean the working directory up.
#[derive(Debug)]
pub struct FinalizePlan {
    /// The application directory inside the prefix.
    pub game_dir: String,
    /// Unpack the downloaded launcher archive into it.
    pub launcher_extract: CommandPlan,
    /// The directory that receives the mirrored machine identity.
    pub machine_id_dir: String,
    /// The descriptor to persist.
    pub config: Config,
    /// Where the descriptor is persisted.
    pub config_path: String,
    /// The working directory to remove afterwards.
    pub tools_dir: String,
}

/// `p` names the fixed finalize locations under the prefix and the data
/// directory and carries the initial descriptor.
pub open spec fn finalize_plan_is(
    p: FinalizePlan,
    wine_prefix: Seq<char>,
    app_dir: Seq<char>,
    wine_version: Seq<char>,
    wine_path: Seq<char>,
    dxvk_version: Seq<char>,
    dxvk_path: Seq<char>,
) -> bool {
    &&& p.game_dir@ == wine_prefix + "/"@ + "drive_c/SBRW"@
    &&& p.machine_id_dir@ == wine_prefix + "/"@ + "drive_c/etc"@
    &&& initial_config_is(
        p.config,
        wine_prefix,
        p.game_dir@,
        wine_version,
        wine_path,
        dxvk_version,
        dxvk_path,
    )
    &&& p.config_path@ == app_dir + "/"@ + "config.json"@
    &&& p.tools_dir@ == app_dir + "/"@ + "tools"@
}

/// The finalize plan for a run: refuse a launcher archive whose
/// extension no extraction tool handles; otherwise the application
/// directory, its extraction command, the machine-identity directory,
/// the initial descriptor and its location, and the working directory to
/// clean up.
pub fn finalize_setup(
    wine_prefix: &str,
    launcher_path: &str,
    app_dir: &str,
    wine_version: &str,
    wine_path: &str,
    dxvk_version: &str,
    dxvk_path: &str,
) -> (r: Result<FinalizePlan, SetupError>)
    ensures
        zip_extension(extension_spec(launcher_path@)) || tar_extension(
            extension_spec(launcher_path@),
        ) ==> (r matches Ok(p) && finalize_plan_is(
            p,
            wine_prefix@,
            app_dir@,
            wine_version@,
            wine_path@,
            dxvk_version@,
            dxvk_path@,
        )),
        zip_extension(extension_spec(launcher_path@)) ==> (r matches Ok(p) && zip_plan_is(
            p.launcher_extract,
            launcher_path@,
            wine_prefix@ + "/"@ + "drive_c/SBRW"@,
        )),
        tar_extension(extension_spec(launcher_path@)) ==> (r matches Ok(p) && tar_plan_is(
            p.launcher_extract,
            launcher_path@,
            wine_prefix@ + "/"@ + "drive_c/SBRW"@,
        )),
        !zip_extension(extension_spec(launcher_path@)) && !tar_extension(
            extension_spec(launcher_path@),
        ) ==> (r matches Err(e) && e is UnsupportedFormat),
{
    let game_dir = join_path(wine_prefix, "drive_c/SBRW");
    let launcher_extract = match extract_archive(launcher_path, game_dir.as_str()) {
        Ok(p) => p,
        Err(e) => {
            return Err(e);
        },
    };
    let machine_id_dir = join_path(wine_prefix, "drive_c/etc");
    let config = write_config(
        wine_prefix,
        game_dir.as_str(),
        wine_version,
        wine_path,
        dxvk_version,
        dxvk_path,
    );
    let config_path = join_path(app_dir, "config.json");
    let tools_dir = join_path(app_dir, "tools");
    Ok(
        FinalizePlan {
            game_dir,
            launcher_extract,
            machine_id_dir,
            config,
            config_path,
            tools_dir,
        },
    )
}

} // verus!
