use runner::lang::Lang;
use runner::paths::{check_path, child_path};
use runner::payload::{source_files, Payload};
use runner::tmpdir::TmpDir;

#[test]
fn sources_land_under_the_working_directory_inside_the_jail() {
    assert_eq!(
        check_path("/tmp/j/merged", "/srv/runner", "check"),
        Some("/tmp/j/merged/srv/runner/check".to_string())
    );
    assert_eq!(
        check_path("/tmp/j/merged", "/app", "lib"),
        Some("/tmp/j/merged/app/lib".to_string())
    );
}

#[test]
fn a_service_working_in_the_root_writes_right_below_the_jail_root() {
    assert_eq!(check_path("/tmp/j/merged", "/", "check"), Some("/tmp/j/merged/check".to_string()));
}

#[test]
fn a_relative_working_directory_has_no_place_in_the_jail() {
    assert_eq!(check_path("/tmp/j/merged", "srv/runner", "check"), None);
    assert_eq!(check_path("/tmp/j/merged", "", "check"), None);
    assert_eq!(check_path("/tmp/j/merged", ".", "check"), None);
}

#[test]
fn only_the_leading_slash_is_dropped() {
    assert_eq!(
        check_path("/tmp/j/merged", "/srv/żółw/ü", "check"),
        Some("/tmp/j/merged/srv/żółw/ü/check".to_string())
    );
    assert_eq!(check_path("/r", "//a", "check"), Some("/r//a/check".to_string()));
}

#[test]
fn child_path_puts_one_slash_between() {
    assert_eq!(child_path("/a/b", "c.txt"), "/a/b/c.txt");
    assert_eq!(child_path("", "c"), "/c");
}

#[test]
fn nothing_below_a_directory_is_the_directory() {
    assert_eq!(child_path("/a/b", ""), "/a/b");
}

#[test]
fn every_file_of_a_run_lands_inside_its_own_jail() {
    let payload = Payload {
        timeout: None,
        solution_text: "int main(){}".to_string(),
        lang_slug: Lang::Cpp,
        asserts: Some("[]".to_string()),
        checker_text: Some("int check(){}".to_string()),
    };
    let ours = TmpDir::with_id("123e4567-e89b-42d3-a456-426614174000").unwrap();
    let theirs = TmpDir::with_id("123e4567-e89b-42d3-a456-426614174001").unwrap();
    let dir = check_path(ours.chroot(), "/srv/runner", Lang::Cpp.sources_subdir()).unwrap();
    let written: Vec<String> =
        source_files(&payload).iter().map(|f| child_path(&dir, f.name)).collect();
    assert_eq!(
        written,
        vec![
            "/tmp/123e4567-e89b-42d3-a456-426614174000/merged/srv/runner/check/asserts.json",
            "/tmp/123e4567-e89b-42d3-a456-426614174000/merged/srv/runner/check/solution.cpp",
            "/tmp/123e4567-e89b-42d3-a456-426614174000/merged/srv/runner/check/checker.cpp",
        ]
    );
    for path in written {
        assert!(path.starts_with(&format!("{}/", ours.chroot())));
        assert!(!path.starts_with(&format!("{}/", theirs.chroot())));
    }
}
