use apply_license::{manifest_license, parse_spdx, render_license_text, DEFAULT_LICENSE};

#[test]
fn cargo_project_with_author() {
    let (license, rewrite) = manifest_license(None, None);
    assert_eq!(license, "MIT OR Apache-2.0");
    assert!(rewrite);
    let ls = parse_spdx(&license).unwrap();
    let files = render_license_text(&ls, &["John Doe"], 2024).unwrap();
    let names: Vec<&str> = files.iter().map(|(n, _)| n.as_str()).collect();
    assert_eq!(names, vec!["LICENSE-MIT", "LICENSE-APACHE"]);
}

#[test]
fn existing_license_is_kept() {
    assert_eq!(manifest_license(Some("MIT"), Some("GPL-3.0")), (String::from("MIT"), false));
}

#[test]
fn requested_license_fills_a_missing_one() {
    assert_eq!(manifest_license(None, Some("GPL-3.0")), (String::from("GPL-3.0"), true));
    assert_eq!(DEFAULT_LICENSE, "MIT OR Apache-2.0");
}
