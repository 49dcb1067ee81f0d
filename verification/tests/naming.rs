use svg_to_png::paths::{dest_path, file_name, is_eligible, join, png_name, stem};

fn b(s: &str) -> Vec<u8> {
    s.as_bytes().to_vec()
}

#[test]
fn test_preserves_filename() {
    let dest = dest_path(&b("output"), &b("input/my-special-file.svg"));
    assert_eq!(dest, b("output/my-special-file.png"));
}

#[test]
fn test_file_name_component() {
    assert_eq!(file_name(&b("a/b/c.svg")), b("c.svg"));
    assert_eq!(file_name(&b("plain.svg")), b("plain.svg"));
}

#[test]
fn test_stem_keeps_inner_dots() {
    assert_eq!(stem(&b("archive.tar.svg")), b("archive.tar"));
    assert_eq!(png_name(&b("archive.tar.svg")), b("archive.tar.png"));
}

#[test]
fn test_stem_of_dotless_name_is_whole() {
    assert_eq!(stem(&b("makefile")), b("makefile"));
}

#[test]
fn test_hidden_name_has_no_extension() {
    assert!(!is_eligible(&b(".svg")));
    assert!(!is_eligible(&b("dir/.svg")));
}

#[test]
fn test_eligibility() {
    assert!(is_eligible(&b("x.svg")));
    assert!(is_eligible(&b("deep/nested/x.svg")));
    assert!(!is_eligible(&b("x.png")));
    assert!(!is_eligible(&b("x.svg.bak")));
    assert!(!is_eligible(&b("noextension")));
    assert!(!is_eligible(&b("trailingdot.")));
    assert!(!is_eligible(&b("a.b/after-dotted-dir")));
}

#[test]
fn test_join_inserts_separator_once() {
    assert_eq!(join(&b("out"), &b("a.png")), b("out/a.png"));
    assert_eq!(join(&b("out/"), &b("a.png")), b("out/a.png"));
    assert_eq!(join(&b(""), &b("a.png")), b("a.png"));
}

#[test]
fn test_dest_path_nested_output_dir() {
    let dest = dest_path(&b("deeply/nested/output"), &b("input/test.svg"));
    assert_eq!(dest, b("deeply/nested/output/test.png"));
}
