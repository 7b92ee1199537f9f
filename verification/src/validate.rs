//! Diagnostic checks against an observed environment. Each check is
//! independently callable and none short-circuits the others; the
//! full-installation check runs all five in a fixed order and fails fast.
//!
//! The checks work on plain observations gathered by the unverified shell:
//! which marker files exist, what each expected library entry in the
//! prefix looks like, and the lines of the prefix's system settings file.

use vstd::prelude::*;
use vstd::string::*;
use crate::archive::extension_spec;
use crate::error::SetupError;
use crate::strutil::concat2;
use crate::strutil::eq_ignore_ascii_case;
use crate::strutil::lower_seq;
use crate::strutil::seq_contains;
use crate::strutil::starts_with;
use crate::strutil::str_eq;

verus! {

broadcast use vstd::string::group_string_axioms;

/// Which of the prefix's three bootstrap marker files exist.
#[derive(Debug, Clone, Copy, PartialEq, Eq, Structural)]
pub struct PrefixMarkers {
    pub user_reg: bool,
    pub system_reg: bool,
    pub userdef_reg: bool,
}

impl PrefixMarkers {
    /// All three marker files are present.
    pub open spec fn complete(self) -> bool {
        self.user_reg && self.system_reg && self.userdef_reg
    }
}

/// The observed state of one directory entry expected to be a symbolic
/// link.
#[derive(Debug)]
pub enum EntryState {
    /// No entry of that name exists.
    Missing,
    /// An entry exists but is a regular file or directory, not a link.
    PlainFile,
    /// A symbolic link exists, pointing at the carried target path.
    Symlink(String),
}

/// One expected library binding: the library's file name in the source
/// directory and the observed state of the prefix entry of the same name.
#[derive(Debug)]
pub struct DllEntry {
    pub name: String,
    pub state: EntryState,
}

/// The defect shapes one expected library binding can show.
#[derive(Debug, Clone, Copy, PartialEq, Eq, Structural)]
pub enum DllIssue {
    /// The prefix entry is absent entirely.
    TargetMissing,
    /// The prefix entry exists but is not a symbolic link.
    NotASymlink,
    /// The prefix entry is a link pointing outside the expected directory.
    WrongTarget,
}

/// One reported binding defect: the library name and its defect shape.
#[derive(Debug)]
pub struct DllFinding {
    pub name: String,
    pub issue: DllIssue,
}

impl View for DllFinding {
    type V = (Seq<char>, DllIssue);

    open spec fn view(&self) -> (Seq<char>, DllIssue) {
        (self.name@, self.issue)
    }
}

/// The observed graphics-layer binding state: whether the layer directory
/// exists, and the source listing of its 64-bit and 32-bit library
/// directories paired with the matching prefix entries.
#[derive(Debug)]
pub struct DxvkProbe {
    pub dxvk_dir_exists: bool,
    pub x64_entries: Vec<DllEntry>,
    pub x32_entries: Vec<DllEntry>,
}

/// Everything one validation pass observes about an environment.
#[derive(Debug)]
pub struct EnvironmentProbe {
    pub markers: PrefixMarkers,
    pub launcher_exe_exists: bool,
    pub wine_bin_dir_exists: bool,
    pub dxvk_path: String,
    pub dxvk: DxvkProbe,
    pub system_reg_lines: Vec<String>,
}

/// The path `t` lies under the directory `dir`: it is `dir` itself or
/// extends it at a path-separator boundary.
pub open spec fn path_under(t: Seq<char>, dir: Seq<char>) -> bool {
    t == dir || (dir + "/"@).is_prefix_of(t)
}

/// The file name carries the library extension, compared without case.
pub open spec fn is_dll_name(n: Seq<char>) -> bool {
    lower_seq(extension_spec(n)) == "dll"@
}

/// The defect an observed entry shows against its expected source
/// directory, or nothing for a correct-target link.
pub open spec fn classify_spec(state: EntryState, dir: Seq<char>) -> Option<DllIssue> {
    match state {
        EntryState::Missing => Some(DllIssue::TargetMissing),
        EntryState::PlainFile => Some(DllIssue::NotASymlink),
        EntryState::Symlink(t) => if path_under(t@, dir) {
            None
        } else {
            Some(DllIssue::WrongTarget)
        },
    }
}

/// The defects of a whole source listing against `dir`, in listing order:
/// entries that are not library files are skipped, and each library entry
/// contributes its defect shape, if any.
pub open spec fn dll_issues(entries: Seq<DllEntry>, dir: Seq<char>) -> Seq<(Seq<char>, DllIssue)>
    decreases entries.len(),
{
    if entries.len() == 0 {
        Seq::empty()
    } else {
        let e = entries[0];
        let rest = dll_issues(entries.skip(1), dir);
        if is_dll_name(e.name@) {
            match classify_spec(e.state, dir) {
                Some(k) => seq![(e.name@, k)] + rest,
                None => rest,
            }
        } else {
            rest
        }
    }
}

/// The settings file records the runtime as installed: some value line
/// carrying the installed flag stands under a section whose header starts
/// with `section_prefix`.
pub open spec fn installed_flag(lines: Seq<String>, section_prefix: Seq<char>, in_section: bool) -> bool
    decreases lines.len(),
{
    if lines.len() == 0 {
        false
    } else {
        let l = lines[0]@;
        if "["@.is_prefix_of(l) {
            installed_flag(lines.skip(1), section_prefix, section_prefix.is_prefix_of(l))
        } else if seq_contains(l, "\"Installed\"=dword:00000001"@) {
            in_section || installed_flag(lines.skip(1), section_prefix, in_section)
        } else {
            installed_flag(lines.skip(1), section_prefix, in_section)
        }
    }
}

/// The section header prefix under which the 64-bit runtime records its
/// installed flag.
pub open spec fn vc_x64_section() -> Seq<char> {
    "[Software\\\\Microsoft\\\\VisualStudio\\\\14.0\\\\VC\\\\Runtimes\\\\x64]"@
}

/// The section header prefix under which the 32-bit runtime records its
/// installed flag.
pub open spec fn vc_x86_section() -> Seq<char> {
    "[Software\\\\Wow6432Node\\\\Microsoft\\\\VisualStudio\\\\14.0\\\\VC\\\\Runtimes\\\\x86]"@
}

/// The prefix exists: all three marker files are present.
pub open spec fn prefix_ok(p: EnvironmentProbe) -> bool {
    p.markers.complete()
}

/// The target executable is present in the prefix.
pub open spec fn launcher_ok(p: EnvironmentProbe) -> bool {
    p.launcher_exe_exists
}

/// The compatibility-layer binary directory is present.
pub open spec fn wine_bin_ok(p: EnvironmentProbe) -> bool {
    p.wine_bin_dir_exists
}

/// The graphics layer is present and every expected binding is a
/// correct-target link.
pub open spec fn dxvk_ok(p: EnvironmentProbe) -> bool {
    &&& p.dxvk.dxvk_dir_exists
    &&& dll_issues(p.dxvk.x64_entries@, p.dxvk_path@ + "/x64"@).len() == 0
    &&& dll_issues(p.dxvk.x32_entries@, p.dxvk_path@ + "/x32"@).len() == 0
}

/// Both redistributable runtimes are recorded as installed.
pub open spec fn runtimes_ok(p: EnvironmentProbe) -> bool {
    &&& installed_flag(p.system_reg_lines@, vc_x64_section(), false)
    &&& installed_flag(p.system_reg_lines@, vc_x86_section(), false)
}

/// All five checks pass.
pub open spec fn environment_healthy(p: EnvironmentProbe) -> bool {
    prefix_ok(p) && launcher_ok(p) && wine_bin_ok(p) && dxvk_ok(p) && runtimes_ok(p)
}

/// The prefix-existence check: all three marker files must be present.
pub fn check_wine_prefix(markers: &PrefixMarkers) -> (r: Result<(), SetupError>)
    ensures
        r is Ok <==> markers.complete(),
        r is Err ==> r matches Err(SetupError::PathError(_)),
{
    if markers.user_reg && markers.system_reg && markers.userdef_reg {
        Ok(())
    } else {
        Err(
            SetupError::PathError(
                String::from_str("Missing required registry files in wine prefix"),
            ),
        )
    }
}

/// The target-executable check.
pub fn check_game_launcher_exe(launcher_exe_exists: bool) -> (r: Result<(), SetupError>)
    ensures
        r is Ok <==> launcher_exe_exists,
        r is Err ==> r matches Err(SetupError::PathError(_)),
{
    if launcher_exe_exists {
        Ok(())
    } else {
        Err(SetupError::PathError(String::from_str("GameLauncher.exe not found in wine prefix")))
    }
}

/// The compatibility-layer binary-directory check.
pub fn check_wine_bin_dir(wine_bin_dir_exists: bool) -> (r: Result<(), SetupError>)
    ensures
        r is Ok <==> wine_bin_dir_exists,
        r is Err ==> r matches Err(SetupError::PathError(_)),
{
    if wine_bin_dir_exists {
        Ok(())
    } else {
        Err(SetupError::PathError(String::from_str("Wine not found")))
    }
}

/// The defect an observed entry shows against its expected source
/// directory; a correct-target link shows none.
pub fn classify_dll_entry(state: &EntryState, dir: &str) -> (r: Option<DllIssue>)
    ensures
        r == classify_spec(*state, dir@),
{
    match state {
        EntryState::Missing => Some(DllIssue::TargetMissing),
        EntryState::PlainFile => Some(DllIssue::NotASymlink),
        EntryState::Symlink(t) => {
            if str_eq(t.as_str(), dir) {
                None
            } else {
                let dir_slash = concat2(dir, "/");
                if starts_with(t.as_str(), dir_slash.as_str()) {
                    None
                } else {
                    Some(DllIssue::WrongTarget)
                }
            }
        },
    }
}

/// The defects of one source listing against its expected directory, in
/// listing order.
pub fn check_dll_symlinks(entries: &Vec<DllEntry>, dir: &str) -> (r: Vec<DllFinding>)
    ensures
        r@.map_values(|f: DllFinding| f@) == dll_issues(entries@, dir@),
{
    let mut out: Vec<DllFinding> = Vec::new();
    let mut i: usize = 0;
    proof {
        assert(entries@.skip(0) =~= entries@);
        assert(out@.map_values(|f: DllFinding| f@) =~= Seq::<(Seq<char>, DllIssue)>::empty());
        assert(Seq::<(Seq<char>, DllIssue)>::empty() + dll_issues(entries@, dir@) =~= dll_issues(
            entries@,
            dir@,
        ));
    }
    while i < entries.len()
        invariant
            i <= entries@.len(),
            out@.map_values(|f: DllFinding| f@) + dll_issues(entries@.skip(i as int), dir@)
                == dll_issues(entries@, dir@),
        decreases entries@.len() - i,
    {
        proof {
            assert(entries@.skip(i as int)[0] == entries@[i as int]);
            assert(entries@.skip(i as int).skip(1) =~= entries@.skip(i as int + 1));
        }
        let ghost prev = out@;
        let e = &entries[i];
        let ext = crate::archive::extension_of(e.name.as_str());
        proof {
            reveal_strlit("dll");
            assert(lower_seq("dll"@) =~= "dll"@);
        }
        if eq_ignore_ascii_case(ext.as_str(), "dll") {
            match classify_dll_entry(&e.state, dir) {
                Some(k) => {
                    out.push(DllFinding { name: e.name.clone(), issue: k });
                    proof {
                        assert(out@.map_values(|f: DllFinding| f@) =~= prev.map_values(
                            |f: DllFinding| f@,
                        ) + seq![(entries@[i as int].name@, k)]);
                    }
                },
                None => {},
            }
        }
        proof {
            assert(out@.map_values(|f: DllFinding| f@) + dll_issues(
                entries@.skip(i as int + 1),
                dir@,
            ) =~= dll_issues(entries@, dir@));
        }
        i += 1;
    }
    proof {
        assert(entries@.skip(entries@.len() as int) =~= Seq::<DllEntry>::empty());
        assert(out@.map_values(|f: DllFinding| f@) + Seq::<(Seq<char>, DllIssue)>::empty()
            =~= out@.map_values(|f: DllFinding| f@));
    }
    out
}

/// The graphics-layer binding check: the layer directory must exist and
/// every expected 64-bit and 32-bit binding must be a correct-target link.
pub fn check_dxvk_symlinks(dxvk_path: &str, probe: &DxvkProbe) -> (r: Result<(), SetupError>)
    ensures
        r is Ok <==> (probe.dxvk_dir_exists && dll_issues(
            probe.x64_entries@,
            dxvk_path@ + "/x64"@,
        ).len() == 0 && dll_issues(probe.x32_entries@, dxvk_path@ + "/x32"@).len() == 0),
        r is Err ==> r matches Err(SetupError::PathError(_)),
{
    if !probe.dxvk_dir_exists {
        return Err(SetupError::PathError(String::from_str("provided dxvk path not found")));
    }
    proof {
        reveal_strlit("/");
        reveal_strlit("/x64");
        reveal_strlit("/x32");
        reveal_strlit("x64");
        reveal_strlit("x32");
    }
    let x64_dir = crate::strutil::join_path(dxvk_path, "x64");
    let x32_dir = crate::strutil::join_path(dxvk_path, "x32");
    proof {
        assert(x64_dir@ =~= dxvk_path@ + "/x64"@);
        assert(x32_dir@ =~= dxvk_path@ + "/x32"@);
    }
    let sys64 = check_dll_symlinks(&probe.x64_entries, x64_dir.as_str());
    let sys32 = check_dll_symlinks(&probe.x32_entries, x32_dir.as_str());
    if sys64.len() == 0 && sys32.len() == 0 {
        proof {
            assert(dll_issues(probe.x64_entries@, dxvk_path@ + "/x64"@).len() == 0);
            assert(dll_issues(probe.x32_entries@, dxvk_path@ + "/x32"@).len() == 0);
        }
        Ok(())
    } else {
        Err(SetupError::PathError(String::from_str("DXVK symlink issues")))
    }
}

/// The redistributable check: the settings-file lines must record both the
/// 64-bit and the 32-bit runtime as installed.
pub fn check_vc_runtimes(lines: &Vec<String>) -> (r: Result<(), SetupError>)
    ensures
        r is Ok <==> (installed_flag(lines@, vc_x64_section(), false) && installed_flag(
            lines@,
            vc_x86_section(),
            false,
        )),
        r is Err ==> r matches Err(SetupError::RuntimesMissing),
{
    let mut x64_installed = false;
    let mut x86_installed = false;
    let mut m64 = false;
    let mut m86 = false;
    let mut i: usize = 0;
    proof {
        assert(lines@.skip(0) =~= lines@);
    }
    while i < lines.len()
        invariant
            i <= lines@.len(),
            (x64_installed || installed_flag(lines@.skip(i as int), vc_x64_section(), m64))
                == installed_flag(lines@, vc_x64_section(), false),
            (x86_installed || installed_flag(lines@.skip(i as int), vc_x86_section(), m86))
                == installed_flag(lines@, vc_x86_section(), false),
        decreases lines@.len() - i,
    {
        proof {
            assert(lines@.skip(i as int)[0] == lines@[i as int]);
            assert(lines@.skip(i as int).skip(1) =~= lines@.skip(i as int + 1));
        }
        let line = lines[i].as_str();
        if starts_with(line, "[") {
            m64 = starts_with(
                line,
                "[Software\\\\Microsoft\\\\VisualStudio\\\\14.0\\\\VC\\\\Runtimes\\\\x64]",
            );
            m86 = starts_with(
                line,
                "[Software\\\\Wow6432Node\\\\Microsoft\\\\VisualStudio\\\\14.0\\\\VC\\\\Runtimes\\\\x86]",
            );
        } else if crate::strutil::contains_sub(line, "\"Installed\"=dword:00000001") {
            if m64 {
                x64_installed = true;
            }
            if m86 {
                x86_installed = true;
            }
        }
        i += 1;
    }
    proof {
        assert(lines@.skip(lines@.len() as int) =~= Seq::<String>::empty());
    }
    if x64_installed && x86_installed {
        Ok(())
    } else {
        Err(SetupError::RuntimesMissing)
    }
}

/// The full-installation check: prefix, target executable, binary
/// directory, graphics-layer bindings and runtimes, in that order,
/// stopping at the first failure.
pub fn validate_installation(probe: &EnvironmentProbe) -> (r: Result<(), SetupError>)
    ensures
        r is Ok <==> environment_healthy(*probe),
        !prefix_ok(*probe) ==> r matches Err(SetupError::PathError(_)),
        prefix_ok(*probe) && !launcher_ok(*probe) ==> r matches Err(SetupError::PathError(_)),
        prefix_ok(*probe) && launcher_ok(*probe) && !wine_bin_ok(*probe) ==> r matches Err(
            SetupError::PathError(_),
        ),
        prefix_ok(*probe) && launcher_ok(*probe) && wine_bin_ok(*probe) && !dxvk_ok(*probe)
            ==> r matches Err(SetupError::PathError(_)),
        prefix_ok(*probe) && launcher_ok(*probe) && wine_bin_ok(*probe) && dxvk_ok(*probe)
            && !runtimes_ok(*probe) ==> r matches Err(SetupError::RuntimesMissing),
{
    check_wine_prefix(&probe.markers)?;
    check_game_launcher_exe(probe.launcher_exe_exists)?;
    check_wine_bin_dir(probe.wine_bin_dir_exists)?;
    check_dxvk_symlinks(probe.dxvk_path.as_str(), &probe.dxvk)?;
    check_vc_runtimes(&probe.system_reg_lines)?;
    Ok(())
}

} // verus!
