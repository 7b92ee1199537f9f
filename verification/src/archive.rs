//! Archive extraction, described as external-tool command plans chosen by
//! file extension: the zip tool for `.zip`, the tar tool (stripping the
//! single leading path component) for the tar family, and a refusal for
//! anything else.

use vstd::prelude::*;
use vstd::string::*;
use crate::command::CommandPlan;
use crate::error::SetupError;
use crate::strutil::after_last;
use crate::strutil::after_last_spec;
use crate::strutil::eq_ignore_ascii_case;
use crate::strutil::lower_seq;

verus! {

broadcast use vstd::string::group_string_axioms;

/// The extension of the final path segment of `path`: the part after the
/// segment's last dot, or empty when the segment has no dot or only a
/// leading one.
pub open spec fn extension_spec(path: Seq<char>) -> Seq<char> {
    let seg = after_last_spec(path, '/');
    let tail = after_last_spec(seg, '.');
    if tail.len() + 1 < seg.len() {
        tail
    } else {
        Seq::empty()
    }
}

/// The extension names an archive handled by the zip tool.
pub open spec fn zip_extension(e: Seq<char>) -> bool {
    lower_seq(e) == "zip"@
}

/// The extension names an archive handled by the tar tool.
pub open spec fn tar_extension(e: Seq<char>) -> bool {
    ||| lower_seq(e) == "gz"@
    ||| lower_seq(e) == "xz"@
    ||| lower_seq(e) == "bz2"@
    ||| lower_seq(e) == "tar"@
}

/// The plan `p` invokes the tar tool on `file`, unpacking into `dest` and
/// stripping the single leading path component.
pub open spec fn tar_plan_is(p: CommandPlan, file: Seq<char>, dest: Seq<char>) -> bool {
    &&& p.program@ == "tar"@
    &&& p.args@.len() == 5
    &&& p.args@[0]@ == "-xf"@
    &&& p.args@[1]@ == file
    &&& p.args@[2]@ == "-C"@
    &&& p.args@[3]@ == dest
    &&& p.args@[4]@ == "--strip-components=1"@
    &&& p.envs@.len() == 0
    &&& p.cwd is None
}

/// The plan `p` invokes the zip tool on `file`, unpacking into `dest`.
pub open spec fn zip_plan_is(p: CommandPlan, file: Seq<char>, dest: Seq<char>) -> bool {
    &&& p.program@ == "unzip"@
    &&& p.args@.len() == 3
    &&& p.args@[0]@ == file
    &&& p.args@[1]@ == "-d"@
    &&& p.args@[2]@ == dest
    &&& p.envs@.len() == 0
    &&& p.cwd is None
}

/// A file name that holds no separator keeps its extension when joined
/// under any directory.
pub proof fn lemma_extension_after_join(dir: Seq<char>, name: Seq<char>)
    requires
        forall|j: int| 0 <= j < name.len() ==> name[j] != '/',
    ensures
        extension_spec(dir + "/"@ + name) == extension_spec(name),
{
    reveal_strlit("/");
    let s = dir + "/"@ + name;
    let k = dir.len() + 1;
    assert(s[k - 1] == '/');
    assert(forall|j: int| k <= j < s.len() ==> s[j] == name[j - k]);
    crate::strutil::lemma_after_last_at(s, '/', k as int);
    assert(s.subrange(k as int, s.len() as int) =~= name);
    crate::strutil::lemma_after_last_at(name, '/', 0);
    assert(name.subrange(0, name.len() as int) =~= name);
}

/// The extension of the final segment of `path`, as Rust's path handling
/// reads it.
pub fn extension_of(path: &str) -> (r: String)
    ensures
        r@ == extension_spec(path@),
{
    let seg = after_last(path, '/');
    let tail = after_last(seg.as_str(), '.');
    let tl = tail.as_str().unicode_len();
    let sl = seg.as_str().unicode_len();
    if sl > 0 && tl < sl - 1 {
        tail
    } else {
        String::new()
    }
}

/// The tar-tool command that unpacks `file` into `dest`.
pub fn extract_tarball(file: &str, dest: &str) -> (p: CommandPlan)
    ensures
        tar_plan_is(p, file@, dest@),
{
    let mut args: Vec<String> = Vec::new();
    args.push(String::from_str("-xf"));
    args.push(String::from_str(file));
    args.push(String::from_str("-C"));
    args.push(String::from_str(dest));
    args.push(String::from_str("--strip-components=1"));
    CommandPlan { program: String::from_str("tar"), args, envs: Vec::new(), cwd: None }
}

/// The zip-tool command that unpacks `file` into `dest`.
pub fn extract_zip(file: &str, dest: &str) -> (p: CommandPlan)
    ensures
        zip_plan_is(p, file@, dest@),
{
    let mut args: Vec<String> = Vec::new();
    args.push(String::from_str(file));
    args.push(String::from_str("-d"));
    args.push(String::from_str(dest));
    CommandPlan { program: String::from_str("unzip"), args, envs: Vec::new(), cwd: None }
}

/// The extraction command for the archive at `file`, chosen by its
/// extension; an unrecognized extension is refused, with the extension as
/// read carried in the error.
pub fn extract_archive(file: &str, dest: &str) -> (r: Result<CommandPlan, SetupError>)
    ensures
        zip_extension(extension_spec(file@)) ==> (r matches Ok(p) && zip_plan_is(
            p,
            file@,
            dest@,
        )),
        tar_extension(extension_spec(file@)) ==> (r matches Ok(p) && tar_plan_is(
            p,
            file@,
            dest@,
        )),
        !zip_extension(extension_spec(file@)) && !tar_extension(extension_spec(file@)) ==> (
        r matches Err(e) && e matches SetupError::UnsupportedFormat(x) && x@ == extension_spec(
            file@,
        )),
{
    proof {
        reveal_strlit("zip");
        reveal_strlit("gz");
        reveal_strlit("xz");
        reveal_strlit("bz2");
        reveal_strlit("tar");
        assert(lower_seq("zip"@) =~= "zip"@);
        assert(lower_seq("gz"@) =~= "gz"@);
        assert(lower_seq("xz"@) =~= "xz"@);
        assert(lower_seq("bz2"@) =~= "bz2"@);
        assert(lower_seq("tar"@) =~= "tar"@);
        assert("zip"@[0] != "tar"@[0] && "zip"@[0] != "bz2"@[0]);
        assert("zip"@.len() != "gz"@.len() && "zip"@.len() != "xz"@.len());
        assert("tar"@.len() != "gz"@.len() && "tar"@.len() != "xz"@.len());
        assert("tar"@[0] != "bz2"@[0]);
        assert("gz"@[0] != "xz"@[0]);
        assert("gz"@.len() != "bz2"@.len() && "xz"@.len() != "bz2"@.len());
    }
    let ext = extension_of(file);
    let e = ext.as_str();
    if eq_ignore_ascii_case(e, "zip") {
        Ok(extract_zip(file, dest))
    } else if eq_ignore_ascii_case(e, "gz") || eq_ignore_ascii_case(e, "xz")
        || eq_ignore_ascii_case(e, "bz2") || eq_ignore_ascii_case(e, "tar") {
        Ok(extract_tarball(file, dest))
    } else {
        Err(SetupError::UnsupportedFormat(ext))
    }
}

} // verus!
