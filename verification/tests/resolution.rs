use static_website_host::path::FsPath;
use static_website_host::resolve::{joined_path, resolve, Resolution};
use static_website_host::state::Context;
use static_website_host::www::{choose_response, STATUS_NOT_FOUND, STATUS_OK};

fn fs_path(segs: &[&str]) -> FsPath {
    FsPath { segments: segs.iter().map(|s| s.to_string()).collect() }
}

fn segs(v: &[&str]) -> Vec<String> {
    v.iter().map(|s| s.to_string()).collect()
}

fn ctx() -> Context {
    Context::new(
        "static-website-host".to_string(),
        "1.0.0".to_string(),
        fs_path(&["srv", "www"]),
        fs_path(&["srv", "www", "not_found.html"]),
    )
    .expect("canonical site root")
}

#[test]
fn join_plain_request() {
    let root = fs_path(&["srv", "www"]);
    let joined = joined_path(&root, &segs(&["about"]));
    assert_eq!(joined.segments, segs(&["srv", "www", "about"]));
}

#[test]
fn join_strips_leading_root_markers() {
    let root = fs_path(&["srv", "www"]);
    let joined = joined_path(&root, &segs(&["/", "/", "a", "b"]));
    assert_eq!(joined.segments, segs(&["srv", "www", "a", "b"]));
}

#[test]
fn join_keeps_inner_parent_markers_for_the_filesystem() {
    let root = fs_path(&["srv", "www"]);
    let joined = joined_path(&root, &segs(&["/", "..", "..", "etc", "passwd"]));
    assert_eq!(joined.segments, segs(&["srv", "www", "..", "..", "etc", "passwd"]));
}

#[test]
fn empty_request_joins_to_the_root_itself() {
    let root = fs_path(&["srv", "www"]);
    let joined = joined_path(&root, &segs(&[]));
    assert_eq!(joined.segments, segs(&["srv", "www"]));
}

#[test]
fn root_request_behaves_like_the_empty_request() {
    let root = fs_path(&["srv", "www"]);
    let empty = joined_path(&root, &segs(&[]));
    let bare = joined_path(&root, &segs(&["/"]));
    assert_eq!(empty.segments, bare.segments);
}

#[test]
fn plain_file_is_allowed() {
    let root = fs_path(&["srv", "www"]);
    let canon = fs_path(&["srv", "www", "page.html"]);
    match resolve(&root, Some(canon), false, false) {
        Resolution::Allowed(p) => {
            assert_eq!(p.segments, segs(&["srv", "www", "page.html"]));
        }
        Resolution::Denied => panic!("contained file must be allowed"),
    }
}

#[test]
fn escaped_canonical_path_is_denied() {
    let root = fs_path(&["srv", "www"]);
    let canon = fs_path(&["etc", "passwd"]);
    assert!(matches!(resolve(&root, Some(canon), false, false), Resolution::Denied));
}

#[test]
fn failed_canonicalization_is_denied() {
    let root = fs_path(&["srv", "www"]);
    assert!(matches!(resolve(&root, None, false, false), Resolution::Denied));
}

#[test]
fn directory_with_index_serves_the_index() {
    let root = fs_path(&["srv", "www"]);
    let canon = fs_path(&["srv", "www", "about"]);
    match resolve(&root, Some(canon), true, true) {
        Resolution::Allowed(p) => {
            assert_eq!(p.segments, segs(&["srv", "www", "about", "index.html"]));
        }
        Resolution::Denied => panic!("directory with index must be allowed"),
    }
}

#[test]
fn directory_without_index_is_denied() {
    let root = fs_path(&["srv", "www"]);
    let canon = fs_path(&["srv", "www", "about"]);
    assert!(matches!(resolve(&root, Some(canon), true, false), Resolution::Denied));
}

#[test]
fn allowed_resolution_always_descends_from_the_root() {
    let root = fs_path(&["srv", "www"]);
    let cases = [
        (Some(fs_path(&["srv", "www", "a.css"])), false, false),
        (Some(fs_path(&["srv", "www", "d"])), true, true),
        (Some(fs_path(&["srv"])), false, false),
        (Some(fs_path(&["etc"])), true, true),
        (None, true, true),
    ];
    for (canon, is_dir, index_exists) in cases {
        if let Resolution::Allowed(p) = resolve(&root, canon, is_dir, index_exists) {
            assert!(p.starts_with(&root));
        }
    }
}

#[test]
fn resolving_twice_with_unchanged_answers_matches() {
    let root = fs_path(&["srv", "www"]);
    let first = resolve(&root, Some(fs_path(&["srv", "www", "x"])), true, true);
    let second = resolve(&root, Some(fs_path(&["srv", "www", "x"])), true, true);
    match (first, second) {
        (Resolution::Allowed(a), Resolution::Allowed(b)) => assert_eq!(a.segments, b.segments),
        (Resolution::Denied, Resolution::Denied) => {}
        _ => panic!("same answers must resolve the same way"),
    }
}

#[test]
fn scenario_directory_request_serves_index_with_ok() {
    // Site root holds `about/index.html`; the request names `/about`.
    let c = ctx();
    let joined = joined_path(&c.site, &segs(&["/", "about"]));
    assert_eq!(joined.segments, segs(&["srv", "www", "about"]));
    // The filesystem canonicalizes the joined path to itself, reports a
    // directory, and finds the index file.
    let (status, target) = choose_response(&c, Some(joined), true, true);
    assert_eq!(status, STATUS_OK);
    assert_eq!(target.segments, segs(&["srv", "www", "about", "index.html"]));
}

#[test]
fn scenario_traversal_request_gets_the_not_found_file() {
    // The request names `/../../etc/passwd`. Whether that file exists or
    // not, the answer is 404 with the not-found file.
    let c = ctx();
    let joined = joined_path(&c.site, &segs(&["/", "..", "..", "etc", "passwd"]));
    assert_eq!(joined.segments, segs(&["srv", "www", "..", "..", "etc", "passwd"]));
    // If the target exists, canonicalization walks above the root:
    let (status, target) = choose_response(&c, Some(fs_path(&["etc", "passwd"])), false, false);
    assert_eq!(status, STATUS_NOT_FOUND);
    assert_eq!(target.segments, c.not_found_file.segments);
    // If it does not, canonicalization fails; the answer is the same:
    let (status, target) = choose_response(&c, None, false, false);
    assert_eq!(status, STATUS_NOT_FOUND);
    assert_eq!(target.segments, c.not_found_file.segments);
}

#[test]
fn scenario_missing_file_gets_the_not_found_file() {
    // The request names `/missing.png`, which does not exist, so the joined
    // path fails to canonicalize.
    let c = ctx();
    let (status, target) = choose_response(&c, None, false, false);
    assert_eq!(status, STATUS_NOT_FOUND);
    assert_eq!(target.segments, segs(&["srv", "www", "not_found.html"]));
}

#[test]
fn context_refuses_a_site_root_with_indirection() {
    let refused = Context::new(
        "s".to_string(),
        "1".to_string(),
        fs_path(&["srv", "..", "www"]),
        fs_path(&["srv", "www", "not_found.html"]),
    );
    assert!(refused.is_none());
}

#[test]
fn context_keeps_its_fields() {
    let c = ctx();
    assert_eq!(c.name, "static-website-host");
    assert_eq!(c.version, "1.0.0");
    assert_eq!(c.site.segments, segs(&["srv", "www"]));
    assert_eq!(c.not_found_file.segments, segs(&["srv", "www", "not_found.html"]));
}

#[test]
fn starts_with_checks_component_prefixes() {
    let root = fs_path(&["srv", "www"]);
    assert!(fs_path(&["srv", "www"]).starts_with(&root));
    assert!(fs_path(&["srv", "www", "a"]).starts_with(&root));
    assert!(!fs_path(&["srv"]).starts_with(&root));
    assert!(!fs_path(&["srv", "wwwx"]).starts_with(&root));
    // A string prefix is not a component prefix.
    assert!(!fs_path(&["srv", "www-evil", "a"]).starts_with(&root));
}
