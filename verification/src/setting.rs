//! Settings operations: discovering installed compatibility-layer and
//! graphics-layer versions from directory scans, attaching them to the
//! descriptor for display, and admitting a new layer version from an
//! archive whose name passes the allow-list.

use vstd::prelude::*;
use vstd::string::*;
use crate::config::Config;
use crate::config::RunnerVersion;
use crate::config::RuntimeVersion;
use crate::error::SetupError;
use crate::strutil::ends_with;
use crate::strutil::join_path;
use crate::strutil::starts_with;
use crate::strutil::trim_end_matches;
use crate::strutil::trim_end_spec;

verus! {

/// One scanned entry of a versions directory: its name and path, whether
/// it is a directory, and whether the layer binary exists under the
/// expected marker subdirectory.
#[derive(Debug)]
pub struct ScannedRunnerDir {
    pub name: String,
    pub path: String,
    pub is_dir: bool,
    pub has_wine_binary: bool,
}

/// One scanned entry of the graphics-layer versions directory: its name
/// and path, whether it is a directory, and whether it holds both the
/// 32-bit and the 64-bit library subdirectories.
#[derive(Debug)]
pub struct ScannedDxvkDir {
    pub name: String,
    pub path: String,
    pub is_dir: bool,
    pub has_x32: bool,
    pub has_x64: bool,
}

/// The discovered versions of one runner scan: every directory holding
/// the layer binary under `marker`, as (name, path-under-marker), in
/// scan order.
pub open spec fn runner_versions_model(
    entries: Seq<ScannedRunnerDir>,
    marker: Seq<char>,
) -> Seq<(Seq<char>, Seq<char>)>
    decreases entries.len(),
{
    if entries.len() == 0 {
        Seq::empty()
    } else {
        let e = entries[0];
        let rest = runner_versions_model(entries.skip(1), marker);
        if e.is_dir && e.has_wine_binary {
            seq![(e.name@, e.path@ + "/"@ + marker)] + rest
        } else {
            rest
        }
    }
}

/// The discovered versions of the graphics-layer scan: every directory
/// holding both library subdirectories, as (name, path), in scan order.
pub open spec fn dxvk_versions_model(entries: Seq<ScannedDxvkDir>) -> Seq<(Seq<char>, Seq<char>)>
    decreases entries.len(),
{
    if entries.len() == 0 {
        Seq::empty()
    } else {
        let e = entries[0];
        let rest = dxvk_versions_model(entries.skip(1));
        if e.is_dir && e.has_x32 && e.has_x64 {
            seq![(e.name@, e.path@)] + rest
        } else {
            rest
        }
    }
}

/// The versions found in one scanned directory listing, for one marker.
fn collect_runner_versions(entries: &Vec<ScannedRunnerDir>, marker: &str) -> (r: Vec<
    RunnerVersion,
>)
    ensures
        r@.map_values(|v: RunnerVersion| v@) == runner_versions_model(entries@, marker@),
{
    let mut out: Vec<RunnerVersion> = Vec::new();
    let mut i: usize = 0;
    proof {
        assert(entries@.skip(0) =~= entries@);
        assert(out@.map_values(|v: RunnerVersion| v@) =~= Seq::<(Seq<char>, Seq<char>)>::empty());
        assert(Seq::<(Seq<char>, Seq<char>)>::empty() + runner_versions_model(entries@, marker@)
            =~= runner_versions_model(entries@, marker@));
    }
    while i < entries.len()
        invariant
            i <= entries@.len(),
            out@.map_values(|v: RunnerVersion| v@) + runner_versions_model(
                entries@.skip(i as int),
                marker@,
            ) == runner_versions_model(entries@, marker@),
        decreases entries@.len() - i,
    {
        proof {
            assert(entries@.skip(i as int)[0] == entries@[i as int]);
            assert(entries@.skip(i as int).skip(1) =~= entries@.skip(i as int + 1));
        }
        let ghost prev = out@;
        let e = &entries[i];
        if e.is_dir && e.has_wine_binary {
            out.push(
                RunnerVersion { name: e.name.clone(), path: join_path(e.path.as_str(), marker) },
            );
            proof {
                assert(out@.map_values(|v: RunnerVersion| v@) =~= prev.map_values(
                    |v: RunnerVersion| v@,
                ) + seq![(entries@[i as int].name@, entries@[i as int].path@ + "/"@ + marker@)]);
            }
        }
        proof {
            assert(out@.map_values(|v: RunnerVersion| v@) + runner_versions_model(
                entries@.skip(i as int + 1),
                marker@,
            ) =~= runner_versions_model(entries@, marker@));
        }
        i += 1;
    }
    proof {
        assert(entries@.skip(entries@.len() as int) =~= Seq::<ScannedRunnerDir>::empty());
        assert(out@.map_values(|v: RunnerVersion| v@) + Seq::<(Seq<char>, Seq<char>)>::empty()
            =~= out@.map_values(|v: RunnerVersion| v@));
    }
    out
}

/// The installed compatibility-layer versions: plain layer builds found
/// under their `bin` marker, then the alternative-distribution builds
/// under their `files/bin` marker, in scan order. A missing versions
/// directory on either side is refused.
pub fn get_available_wine_directories(
    wine_dir_exists: bool,
    proton_dir_exists: bool,
    wine_entries: &Vec<ScannedRunnerDir>,
    proton_entries: &Vec<ScannedRunnerDir>,
) -> (r: Result<Vec<RunnerVersion>, SetupError>)
    ensures
        !(wine_dir_exists && proton_dir_exists) ==> (r matches Err(e) && e is PathError),
        wine_dir_exists && proton_dir_exists ==> (r matches Ok(v) && v@.map_values(
            |x: RunnerVersion| x@,
        ) == runner_versions_model(wine_entries@, "bin"@) + runner_versions_model(
            proton_entries@,
            "files/bin"@,
        )),
{
    if !wine_dir_exists || !proton_dir_exists {
        return Err(SetupError::PathError(String::from_str("wine/proton directory not found")));
    }
    let mut versions = collect_runner_versions(wine_entries, "bin");
    let mut proton_versions = collect_runner_versions(proton_entries, "files/bin");
    let ghost head = versions@.map_values(|x: RunnerVersion| x@);
    let ghost tail = proton_versions@.map_values(|x: RunnerVersion| x@);
    versions.append(&mut proton_versions);
    proof {
        assert(versions@.map_values(|x: RunnerVersion| x@) =~= head + tail);
    }
    Ok(versions)
}

/// The installed graphics-layer versions: directories holding both
/// library subdirectories, in scan order. A missing versions directory
/// is refused.
pub fn get_available_dxvk_directories(
    dxvk_dir_exists: bool,
    entries: &Vec<ScannedDxvkDir>,
) -> (r: Result<Vec<RuntimeVersion>, SetupError>)
    ensures
        !dxvk_dir_exists ==> (r matches Err(e) && e is PathError),
        dxvk_dir_exists ==> (r matches Ok(v) && v@.map_values(|x: RuntimeVersion| x@)
            == dxvk_versions_model(entries@)),
{
    if !dxvk_dir_exists {
        return Err(SetupError::PathError(String::from_str("dxvk directory not found")));
    }
    let mut out: Vec<RuntimeVersion> = Vec::new();
    let mut i: usize = 0;
    proof {
        assert(entries@.skip(0) =~= entries@);
        assert(out@.map_values(|v: RuntimeVersion| v@) =~= Seq::<(Seq<char>, Seq<char>)>::empty());
        assert(Seq::<(Seq<char>, Seq<char>)>::empty() + dxvk_versions_model(entries@)
            =~= dxvk_versions_model(entries@));
    }
    while i < entries.len()
        invariant
            i <= entries@.len(),
            out@.map_values(|v: RuntimeVersion| v@) + dxvk_versions_model(entries@.skip(i as int))
                == dxvk_versions_model(entries@),
        decreases entries@.len() - i,
    {
        proof {
            assert(entries@.skip(i as int)[0] == entries@[i as int]);
            assert(entries@.skip(i as int).skip(1) =~= entries@.skip(i as int + 1));
        }
        let ghost prev = out@;
        let e = &entries[i];
        if e.is_dir && e.has_x32 && e.has_x64 {
            out.push(RuntimeVersion { name: e.name.clone(), path: e.path.clone() });
            proof {
                assert(out@.map_values(|v: RuntimeVersion| v@) =~= prev.map_values(
                    |v: RuntimeVersion| v@,
                ) + seq![(entries@[i as int].name@, entries@[i as int].path@)]);
            }
        }
        proof {
            assert(out@.map_values(|v: RuntimeVersion| v@) + dxvk_versions_model(
                entries@.skip(i as int + 1),
            ) =~= dxvk_versions_model(entries@));
        }
        i += 1;
    }
    proof {
        assert(entries@.skip(entries@.len() as int) =~= Seq::<ScannedDxvkDir>::empty());
        assert(out@.map_values(|v: RuntimeVersion| v@) + Seq::<(Seq<char>, Seq<char>)>::empty()
            =~= out@.map_values(|v: RuntimeVersion| v@));
    }
    Ok(out)
}

/// The descriptor with freshly discovered version lists attached for
/// display; everything else is kept as it was.
pub fn populate_settings(
    config: Config,
    wine_versions: Vec<RunnerVersion>,
    dxvk_versions: Vec<RuntimeVersion>,
) -> (r: Config)
    ensures
        r.wine == config.wine,
        r.dxvk == config.dxvk,
        crate::config::game_equiv(r.game, config.game),
        r.available_wine_versions == Some(wine_versions),
        r.available_dxvk_versions == Some(dxvk_versions),
{
    Config {
        wine: config.wine,
        dxvk: config.dxvk,
        game: config.game,
        available_wine_versions: Some(wine_versions),
        available_dxvk_versions: Some(dxvk_versions),
    }
}

/// The archive name begins like a plain layer build.
pub open spec fn is_wine_archive_name(name: Seq<char>) -> bool {
    "wine-"@.is_prefix_of(name)
}

/// The archive name begins like an alternative-distribution build.
pub open spec fn is_proton_archive_name(name: Seq<char>) -> bool {
    "Proton-"@.is_prefix_of(name) || "GE-Proton"@.is_prefix_of(name)
}

/// The archive name carries an accepted compressed-tar extension.
pub open spec fn has_valid_archive_extension(name: Seq<char>) -> bool {
    ".tar.xz"@.is_suffix_of(name) || ".tar.gz"@.is_suffix_of(name)
}

/// The version name an accepted archive unpacks under: the file name
/// with every trailing accepted extension removed.
pub open spec fn archive_base_name(name: Seq<char>) -> Seq<char> {
    trim_end_spec(trim_end_spec(name, ".tar.xz"@), ".tar.gz"@)
}

/// Where an accepted archive is admitted: its version name and target
/// directory under the runners directory.
#[derive(Debug)]
pub struct WineArchivePlan {
    pub base_name: String,
    pub target_dir: String,
    pub is_wine: bool,
}

/// The admission decision for a new layer archive: the name must begin
/// like a layer build and carry an accepted extension, and an accepted
/// archive unpacks under the matching runners subdirectory. Whether a
/// version of that name already exists is checked against the returned
/// target directory before extracting.
pub fn add_wine_version(runners_dir: &str, file_name: &str) -> (r: Result<
    WineArchivePlan,
    SetupError,
>)
    ensures
        !((is_wine_archive_name(file_name@) || is_proton_archive_name(file_name@))
            && has_valid_archive_extension(file_name@)) ==> (r matches Err(e) && e is PathError),
        (is_wine_archive_name(file_name@) || is_proton_archive_name(file_name@))
            && has_valid_archive_extension(file_name@) ==> (r matches Ok(p) && {
            &&& p.base_name@ == archive_base_name(file_name@)
            &&& p.is_wine == is_wine_archive_name(file_name@)
            &&& p.target_dir@ == runners_dir@ + "/"@ + (if is_wine_archive_name(file_name@) {
                "wine"@
            } else {
                "proton"@
            }) + "/"@ + archive_base_name(file_name@)
        }),
{
    let is_wine = starts_with(file_name, "wine-");
    let is_proton = starts_with(file_name, "Proton-") || starts_with(file_name, "GE-Proton");
    let has_ext = ends_with(file_name, ".tar.xz") || ends_with(file_name, ".tar.gz");
    if !(is_wine || is_proton) || !has_ext {
        return Err(SetupError::PathError(String::from_str("Invalid archive file")));
    }
    let trimmed = trim_end_matches(file_name, ".tar.xz");
    let base_name = trim_end_matches(trimmed.as_str(), ".tar.gz");
    let family_dir = if is_wine {
        join_path(runners_dir, "wine")
    } else {
        join_path(runners_dir, "proton")
    };
    let target_dir = join_path(family_dir.as_str(), base_name.as_str());
    Ok(WineArchivePlan { base_name, target_dir, is_wine })
}

} // verus!
