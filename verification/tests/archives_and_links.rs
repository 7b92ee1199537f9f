use sbrw_utility::archive::extension_of;
use sbrw_utility::archive::extract_archive;
use sbrw_utility::archive::extract_tarball;
use sbrw_utility::archive::extract_zip;
use sbrw_utility::error::SetupError;
use sbrw_utility::symlink::create_symlinks_by_filename;
use sbrw_utility::symlink::setup_dxvk;
use sbrw_utility::symlink::LinkAction;
use sbrw_utility::symlink::SourceEntry;

#[test]
fn tar_family_routes_to_the_tar_tool() {
    let p = extract_archive("x.tar.gz", "/dest").unwrap();
    assert_eq!(p.program, "tar");
    assert_eq!(p.args, vec!["-xf", "x.tar.gz", "-C", "/dest", "--strip-components=1"]);
    assert!(extract_archive("a/b/x.tar", "/dest").is_ok());
    assert!(extract_archive("x.tar.xz", "/dest").is_ok());
    assert!(extract_archive("x.tar.bz2", "/dest").is_ok());
}

#[test]
fn zip_routes_to_the_zip_tool() {
    let p = extract_archive("x.zip", "/dest").unwrap();
    assert_eq!(p.program, "unzip");
    assert_eq!(p.args, vec!["x.zip", "-d", "/dest"]);
}

#[test]
fn extension_match_ignores_case() {
    let p = extract_archive("x.ZIP", "/dest").unwrap();
    assert_eq!(p.program, "unzip");
    let p = extract_archive("x.TAR.GZ", "/dest").unwrap();
    assert_eq!(p.program, "tar");
}

#[test]
fn unknown_extension_is_refused() {
    match extract_archive("x.rar", "/dest") {
        Err(SetupError::UnsupportedFormat(ext)) => assert_eq!(ext, "rar"),
        other => panic!("expected an unsupported-format refusal, got {:?}", other),
    }
    assert!(matches!(extract_archive("noext", "/d"), Err(SetupError::UnsupportedFormat(_))));
}

#[test]
fn extension_reading_matches_path_semantics() {
    assert_eq!(extension_of("a/b/x.tar.gz"), "gz");
    assert_eq!(extension_of("x.zip"), "zip");
    assert_eq!(extension_of("archive"), "");
    assert_eq!(extension_of("dir.v2/archive"), "");
    assert_eq!(extension_of(".hidden"), "");
}

#[test]
fn extraction_tools_build_exact_commands() {
    let t = extract_tarball("/tmp/a.tar.xz", "/opt/out");
    assert_eq!(t.program, "tar");
    assert_eq!(t.args, vec!["-xf", "/tmp/a.tar.xz", "-C", "/opt/out", "--strip-components=1"]);
    assert!(t.envs.is_empty());
    let z = extract_zip("/tmp/a.zip", "/opt/out");
    assert_eq!(z.program, "unzip");
    assert_eq!(z.args, vec!["/tmp/a.zip", "-d", "/opt/out"]);
}

fn entry(name: &str, is_file: bool, dest_exists: bool) -> SourceEntry {
    SourceEntry { name: name.to_string(), is_file, dest_exists }
}

#[test]
fn binder_links_every_regular_file_by_name() {
    let entries = vec![entry("a.dll", true, false), entry("sub", false, false)];
    let plan = create_symlinks_by_filename("/src", "/dst", false, &entries);
    assert_eq!(plan.len(), 1);
    match &plan[0] {
        LinkAction::CreateLink(s, d) => {
            assert_eq!(s, "/src/a.dll");
            assert_eq!(d, "/dst/a.dll");
        },
        other => panic!("expected a link creation, got {:?}", other),
    }
}

#[test]
fn binder_removes_existing_destinations_only_under_force() {
    let entries = vec![entry("a.dll", true, true)];
    let forced = create_symlinks_by_filename("/src", "/dst", true, &entries);
    assert_eq!(forced.len(), 2);
    assert!(matches!(&forced[0], LinkAction::RemoveFile(p) if p == "/dst/a.dll"));
    assert!(matches!(&forced[1], LinkAction::CreateLink(_, _)));
    let unforced = create_symlinks_by_filename("/src", "/dst", false, &entries);
    assert_eq!(unforced.len(), 1);
    assert!(matches!(&unforced[0], LinkAction::CreateLink(_, _)));
}

#[test]
fn dxvk_binding_covers_both_architectures() {
    let x32 = vec![entry("d3d9.dll", true, false)];
    let x64 = vec![entry("d3d11.dll", true, true)];
    let plan = setup_dxvk("/prefix", "/layer", true, &x32, &x64).unwrap();
    assert_eq!(plan.len(), 3);
    assert!(matches!(
        &plan[0],
        LinkAction::CreateLink(s, d)
            if s == "/layer/x32/d3d9.dll" && d == "/prefix/drive_c/windows/syswow64/d3d9.dll"
    ));
    assert!(matches!(
        &plan[1],
        LinkAction::RemoveFile(p) if p == "/prefix/drive_c/windows/system32/d3d11.dll"
    ));
    assert!(matches!(
        &plan[2],
        LinkAction::CreateLink(s, d)
            if s == "/layer/x64/d3d11.dll" && d == "/prefix/drive_c/windows/system32/d3d11.dll"
    ));
}

#[test]
fn dxvk_binding_refuses_a_missing_layer() {
    let r = setup_dxvk("/prefix", "/layer", false, &Vec::new(), &Vec::new());
    assert!(matches!(r, Err(SetupError::PathError(_))));
}
