//! Binding replacement libraries into target directories by filename:
//! for every regular file of a source directory, a symbolic link is placed
//! in the destination directory, optionally after removing an existing
//! entry. The binder produces an ordered list of filesystem actions; the
//! unverified shell performs them and stops at the first failure.

use vstd::prelude::*;
use vstd::string::*;
use crate::error::SetupError;
use crate::strutil::join_path;

verus! {

/// One observed entry of a source directory: its file name, whether it is
/// a regular file, and whether the destination directory already holds an
/// entry of the same name.
#[derive(Debug)]
pub struct SourceEntry {
    pub name: String,
    pub is_file: bool,
    pub dest_exists: bool,
}

/// One filesystem action of a binding plan.
#[derive(Debug)]
pub enum LinkAction {
    /// Remove the entry at this path.
    RemoveFile(String),
    /// Create a symbolic link at the second path pointing at the first.
    CreateLink(String, String),
}

/// The mathematical shape of a [`LinkAction`].
pub enum LinkActionModel {
    RemoveFile(Seq<char>),
    CreateLink(Seq<char>, Seq<char>),
}

impl View for LinkAction {
    type V = LinkActionModel;

    open spec fn view(&self) -> LinkActionModel {
        match self {
            LinkAction::RemoveFile(p) => LinkActionModel::RemoveFile(p@),
            LinkAction::CreateLink(s, d) => LinkActionModel::CreateLink(s@, d@),
        }
    }
}

/// The actions one source entry contributes: nothing for a non-file;
/// otherwise a link creation, preceded by a removal when `force` is set
/// and the destination entry already exists.
pub open spec fn entry_actions(
    e: SourceEntry,
    src_dir: Seq<char>,
    dest_dir: Seq<char>,
    force: bool,
) -> Seq<LinkActionModel> {
    if e.is_file {
        let src = src_dir + "/"@ + e.name@;
        let dst = dest_dir + "/"@ + e.name@;
        if force && e.dest_exists {
            seq![LinkActionModel::RemoveFile(dst), LinkActionModel::CreateLink(src, dst)]
        } else {
            seq![LinkActionModel::CreateLink(src, dst)]
        }
    } else {
        Seq::empty()
    }
}

/// The actions of a whole binding run, in source-directory order.
pub open spec fn link_plan_model(
    entries: Seq<SourceEntry>,
    src_dir: Seq<char>,
    dest_dir: Seq<char>,
    force: bool,
) -> Seq<LinkActionModel>
    decreases entries.len(),
{
    if entries.len() == 0 {
        Seq::empty()
    } else {
        entry_actions(entries[0], src_dir, dest_dir, force) + link_plan_model(
            entries.skip(1),
            src_dir,
            dest_dir,
            force,
        )
    }
}

/// The view of a produced action list.
pub open spec fn plan_view(plan: Seq<LinkAction>) -> Seq<LinkActionModel> {
    plan.map_values(|a: LinkAction| a@)
}

/// The binding plan for every regular file of `entries`: a link at
/// `dest_dir/<name>` pointing at `src_dir/<name>`, removing an existing
/// destination entry first when `force` is set.
pub fn create_symlinks_by_filename(
    src_dir: &str,
    dest_dir: &str,
    force: bool,
    entries: &Vec<SourceEntry>,
) -> (r: Vec<LinkAction>)
    ensures
        plan_view(r@) == link_plan_model(entries@, src_dir@, dest_dir@, force),
{
    let mut out: Vec<LinkAction> = Vec::new();
    let mut i: usize = 0;
    proof {
        assert(entries@.skip(0) =~= entries@);
        assert(plan_view(out@) =~= Seq::<LinkActionModel>::empty());
        assert(Seq::<LinkActionModel>::empty() + link_plan_model(
            entries@,
            src_dir@,
            dest_dir@,
            force,
        ) =~= link_plan_model(entries@, src_dir@, dest_dir@, force));
    }
    while i < entries.len()
        invariant
            i <= entries@.len(),
            plan_view(out@) + link_plan_model(entries@.skip(i as int), src_dir@, dest_dir@, force)
                == link_plan_model(entries@, src_dir@, dest_dir@, force),
        decreases entries@.len() - i,
    {
        proof {
            assert(entries@.skip(i as int)[0] == entries@[i as int]);
            assert(entries@.skip(i as int).skip(1) =~= entries@.skip(i as int + 1));
        }
        let ghost prev = out@;
        let e = &entries[i];
        if e.is_file {
            let src = join_path(src_dir, e.name.as_str());
            let dst = join_path(dest_dir, e.name.as_str());
            if force && e.dest_exists {
                out.push(LinkAction::RemoveFile(dst.clone()));
                out.push(LinkAction::CreateLink(src, dst));
                proof {
                    assert(plan_view(out@) =~= plan_view(prev) + entry_actions(
                        entries@[i as int],
                        src_dir@,
                        dest_dir@,
                        force,
                    ));
                }
            } else {
                out.push(LinkAction::CreateLink(src, dst));
                proof {
                    assert(plan_view(out@) =~= plan_view(prev) + entry_actions(
                        entries@[i as int],
                        src_dir@,
                        dest_dir@,
                        force,
                    ));
                }
            }
        } else {
            proof {
                assert(plan_view(out@) =~= plan_view(prev) + entry_actions(
                    entries@[i as int],
                    src_dir@,
                    dest_dir@,
                    force,
                ));
            }
        }
        proof {
            assert(plan_view(out@) + link_plan_model(
                entries@.skip(i as int + 1),
                src_dir@,
                dest_dir@,
                force,
            ) =~= link_plan_model(entries@, src_dir@, dest_dir@, force));
        }
        i += 1;
    }
    proof {
        assert(entries@.skip(entries@.len() as int) =~= Seq::<SourceEntry>::empty());
        assert(plan_view(out@) + Seq::<LinkActionModel>::empty() =~= plan_view(out@));
    }
    out
}

/// The graphics-layer binding plan: the layer's 32-bit libraries are bound
/// into the prefix's `syswow64` directory and its 64-bit libraries into
/// `system32`, overwriting existing entries; an absent layer directory is
/// refused.
pub fn setup_dxvk(
    wine_prefix: &str,
    dxvk_path: &str,
    dxvk_present: bool,
    x32_entries: &Vec<SourceEntry>,
    x64_entries: &Vec<SourceEntry>,
) -> (r: Result<Vec<LinkAction>, SetupError>)
    ensures
        !dxvk_present ==> (r matches Err(e) && e is PathError),
        dxvk_present ==> (r matches Ok(plan) && plan_view(plan@) == link_plan_model(
            x32_entries@,
            dxvk_path@ + "/x32"@,
            wine_prefix@ + "/drive_c/windows"@ + "/syswow64"@,
            true,
        ) + link_plan_model(
            x64_entries@,
            dxvk_path@ + "/x64"@,
            wine_prefix@ + "/drive_c/windows"@ + "/system32"@,
            true,
        )),
{
    if !dxvk_present {
        return Err(SetupError::PathError(String::from_str("DXVK path not found")));
    }
    proof {
        reveal_strlit("/");
        reveal_strlit("/x32");
        reveal_strlit("/x64");
        reveal_strlit("x32");
        reveal_strlit("x64");
        reveal_strlit("/drive_c/windows");
        reveal_strlit("drive_c/windows");
        reveal_strlit("/syswow64");
        reveal_strlit("syswow64");
        reveal_strlit("/system32");
        reveal_strlit("system32");
    }
    let windows_dir = join_path(wine_prefix, "drive_c/windows");
    let x32_src = join_path(dxvk_path, "x32");
    let x64_src = join_path(dxvk_path, "x64");
    let syswow = join_path(windows_dir.as_str(), "syswow64");
    let system = join_path(windows_dir.as_str(), "system32");
    proof {
        assert(x32_src@ =~= dxvk_path@ + "/x32"@);
        assert(x64_src@ =~= dxvk_path@ + "/x64"@);
        assert(syswow@ =~= wine_prefix@ + "/drive_c/windows"@ + "/syswow64"@);
        assert(system@ =~= wine_prefix@ + "/drive_c/windows"@ + "/system32"@);
    }
    let mut plan = create_symlinks_by_filename(x32_src.as_str(), syswow.as_str(), true, x32_entries);
    let mut tail = create_symlinks_by_filename(x64_src.as_str(), system.as_str(), true, x64_entries);
    let ghost head_model = plan_view(plan@);
    let ghost tail_model = plan_view(tail@);
    plan.append(&mut tail);
    proof {
        assert(plan_view(plan@) =~= head_model + tail_model);
    }
    Ok(plan)
}

} // verus!
