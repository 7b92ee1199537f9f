//! The fixed layout of one provisioning run: which component versions are
//! bundled, where every working directory lives under the application
//! data directory, and the extraction of the two bundled archives into
//! their version directories.

use vstd::prelude::*;
use vstd::string::*;
use crate::archive::extension_spec;
use crate::archive::extract_archive;
use crate::archive::extract_tarball;
use crate::archive::lemma_extension_after_join;
use crate::archive::tar_extension;
use crate::archive::tar_plan_is;
use crate::archive::zip_extension;
use crate::command::CommandPlan;
use crate::strutil::join_path;
use crate::strutil::lemma_after_last_at;
use crate::strutil::lower_seq;

verus! {

/// The bundled compatibility-layer version.
pub fn wine_version_name() -> (r: String)
    ensures
        r@ == "wine-10.8-staging-amd64"@,
{
    String::from_str("wine-10.8-staging-amd64")
}

/// The bundled graphics-layer version.
pub fn dxvk_version_name() -> (r: String)
    ensures
        r@ == "dxvk-1.10.3"@,
{
    String::from_str("dxvk-1.10.3")
}

/// The bundled managed-runtime installer package.
pub fn mono_msi_name() -> (r: String)
    ensures
        r@ == "wine-mono-10.0.0-x86.msi"@,
{
    String::from_str("wine-mono-10.0.0-x86.msi")
}

/// The file names of every bundled resource written into the working
/// directory: the two component archives, the managed-runtime installer,
/// both redistributable installers, and the override file.
pub fn bundled_resource_names() -> (r: Vec<String>)
    ensures
        r@.len() == 6,
        r@[0]@ == "wine-10.8-staging-amd64.tar.xz"@,
        r@[1]@ == "dxvk-1.10.3.tar.gz"@,
        r@[2]@ == "wine-mono-10.0.0-x86.msi"@,
        r@[3]@ == "vc_redist.x86.exe"@,
        r@[4]@ == "vc_redist.x64.exe"@,
        r@[5]@ == "overrides.reg"@,
{
    let mut r: Vec<String> = Vec::new();
    r.push(String::from_str("wine-10.8-staging-amd64.tar.xz"));
    r.push(String::from_str("dxvk-1.10.3.tar.gz"));
    r.push(String::from_str("wine-mono-10.0.0-x86.msi"));
    r.push(String::from_str("vc_redist.x86.exe"));
    r.push(String::from_str("vc_redist.x64.exe"));
    r.push(String::from_str("overrides.reg"));
    r
}

/// Every path one provisioning run works with, laid out under the
/// application data directory.
#[derive(Debug)]
pub struct SetupPaths {
    pub runners_wine_dir: String,
    pub runners_proton_dir: String,
    pub runtime_dxvk_dir: String,
    pub tools_dir: String,
    pub wine_path: String,
    pub dxvk_path: String,
    pub mono_msi_path: String,
    pub wine_bin_dir: String,
    pub wineboot_path: String,
    pub wine_cmd_path: String,
}

/// The working-directory layout of one provisioning run under `app_dir`,
/// with the bundled component versions in place.
pub fn setup_environment_paths(app_dir: &str) -> (r: SetupPaths)
    ensures
        r.runners_wine_dir@ == app_dir@ + "/"@ + "runners/wine"@,
        r.runners_proton_dir@ == app_dir@ + "/"@ + "runners/proton"@,
        r.runtime_dxvk_dir@ == app_dir@ + "/"@ + "runtime/dxvk"@,
        r.tools_dir@ == app_dir@ + "/"@ + "tools"@,
        r.wine_path@ == r.runners_wine_dir@ + "/"@ + "wine-10.8-staging-amd64"@,
        r.dxvk_path@ == r.runtime_dxvk_dir@ + "/"@ + "dxvk-1.10.3"@,
        r.mono_msi_path@ == r.tools_dir@ + "/"@ + "wine-mono-10.0.0-x86.msi"@,
        r.wine_bin_dir@ == r.wine_path@ + "/"@ + "bin"@,
        r.wineboot_path@ == r.wine_path@ + "/"@ + "bin/wineboot"@,
        r.wine_cmd_path@ == r.wine_path@ + "/"@ + "bin/wine"@,
{
    let runners_wine_dir = join_path(app_dir, "runners/wine");
    let runners_proton_dir = join_path(app_dir, "runners/proton");
    let runtime_dxvk_dir = join_path(app_dir, "runtime/dxvk");
    let tools_dir = join_path(app_dir, "tools");
    let wine_path = join_path(runners_wine_dir.as_str(), "wine-10.8-staging-amd64");
    let dxvk_path = join_path(runtime_dxvk_dir.as_str(), "dxvk-1.10.3");
    let mono_msi_path = join_path(tools_dir.as_str(), "wine-mono-10.0.0-x86.msi");
    let wine_bin_dir = join_path(wine_path.as_str(), "bin");
    let wineboot_path = join_path(wine_path.as_str(), "bin/wineboot");
    let wine_cmd_path = join_path(wine_path.as_str(), "bin/wine");
    SetupPaths {
        runners_wine_dir,
        runners_proton_dir,
        runtime_dxvk_dir,
        tools_dir,
        wine_path,
        dxvk_path,
        mono_msi_path,
        wine_bin_dir,
        wineboot_path,
        wine_cmd_path,
    }
}

/// The bundled compatibility-layer archive routes to the tar tool.
proof fn lemma_wine_archive_is_tar(dir: Seq<char>)
    ensures
        tar_extension(extension_spec(dir + "/"@ + "wine-10.8-staging-amd64.tar.xz"@)),
        !zip_extension(extension_spec(dir + "/"@ + "wine-10.8-staging-amd64.tar.xz"@)),
{
    reveal_strlit("wine-10.8-staging-amd64.tar.xz");
    reveal_strlit("xz");
    reveal_strlit("zip");
    let name = "wine-10.8-staging-amd64.tar.xz"@;
    lemma_extension_after_join(dir, name);
    lemma_after_last_at(name, '/', 0);
    assert(name.subrange(0, name.len() as int) =~= name);
    lemma_after_last_at(name, '.', 28);
    assert(name.subrange(28, 30) =~= "xz"@);
    assert(extension_spec(name) == "xz"@);
    assert(lower_seq("xz"@) =~= "xz"@);
    assert(lower_seq("xz"@) != "zip"@);
}

/// The bundled graphics-layer archive routes to the tar tool.
proof fn lemma_dxvk_archive_is_tar(dir: Seq<char>)
    ensures
        tar_extension(extension_spec(dir + "/"@ + "dxvk-1.10.3.tar.gz"@)),
        !zip_extension(extension_spec(dir + "/"@ + "dxvk-1.10.3.tar.gz"@)),
{
    reveal_strlit("dxvk-1.10.3.tar.gz");
    reveal_strlit("gz");
    reveal_strlit("zip");
    let name = "dxvk-1.10.3.tar.gz"@;
    lemma_extension_after_join(dir, name);
    lemma_after_last_at(name, '/', 0);
    assert(name.subrange(0, name.len() as int) =~= name);
    lemma_after_last_at(name, '.', 16);
    assert(name.subrange(16, 18) =~= "gz"@);
    assert(extension_spec(name) == "gz"@);
    assert(lower_seq("gz"@) =~= "gz"@);
    assert(lower_seq("gz"@) != "zip"@);
}

/// The extraction of the two bundled archives: each version directory and
/// the tar command that unpacks the matching archive from the working
/// directory into it.
#[derive(Debug)]
pub struct BundledArchives {
    pub wine_dir: String,
    pub dxvk_dir: String,
    pub wine_extract: CommandPlan,
    pub dxvk_extract: CommandPlan,
}

/// The extraction plan for the two bundled archives. Their fixed names
/// always dispatch to the tar tool, so the plan always exists.
pub fn extract_bundled_archives(
    tools_dir: &str,
    runners_wine_dir: &str,
    runtime_dxvk_dir: &str,
) -> (r: BundledArchives)
    ensures
        r.wine_dir@ == runners_wine_dir@ + "/"@ + "wine-10.8-staging-amd64"@,
        r.dxvk_dir@ == runtime_dxvk_dir@ + "/"@ + "dxvk-1.10.3"@,
        tar_plan_is(
            r.wine_extract,
            tools_dir@ + "/"@ + "wine-10.8-staging-amd64.tar.xz"@,
            r.wine_dir@,
        ),
        tar_plan_is(r.dxvk_extract, tools_dir@ + "/"@ + "dxvk-1.10.3.tar.gz"@, r.dxvk_dir@),
{
    let wine_dir = join_path(runners_wine_dir, "wine-10.8-staging-amd64");
    let dxvk_dir = join_path(runtime_dxvk_dir, "dxvk-1.10.3");
    let wine_tar = join_path(tools_dir, "wine-10.8-staging-amd64.tar.xz");
    let dxvk_tar = join_path(tools_dir, "dxvk-1.10.3.tar.gz");
    proof {
        lemma_wine_archive_is_tar(tools_dir@);
        lemma_dxvk_archive_is_tar(tools_dir@);
    }
    let wine_extract = match extract_archive(wine_tar.as_str(), wine_dir.as_str()) {
        Ok(p) => p,
        Err(_) => {
            proof {
                assert(false);
            }
            extract_tarball(wine_tar.as_str(), wine_dir.as_str())
        },
    };
    let dxvk_extract = match extract_archive(dxvk_tar.as_str(), dxvk_dir.as_str()) {
        Ok(p) => p,
        Err(_) => {
            proof {
                assert(false);
            }
            extract_tarball(dxvk_tar.as_str(), dxvk_dir.as_str())
        },
    };
    BundledArchives { wine_dir, dxvk_dir, wine_extract, dxvk_extract }
}

} // verus!
