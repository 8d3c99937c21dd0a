use apply_license::{
    license_file_names, license_files, licenses, parse_spdx, render_license_text, License,
};

fn get_license(id: &str) -> License {
    licenses().into_iter().find(|l| l.spdx == id).unwrap()
}

#[test]
fn single_license_with_author() {
    let ls = parse_spdx("MIT").unwrap();
    let files = render_license_text(&ls, &["John Doe"], 2024).unwrap();
    assert_eq!(files.len(), 1);
    assert_eq!(files[0].0, "LICENSE");
    assert!(!files.iter().any(|(n, _)| n == "LICENSE-MIT"));
    assert!(files[0].1.contains("THE SOFTWARE IS PROVIDED \"AS IS\""));
    assert!(files[0].1.contains("John Doe"));
}

#[test]
fn multiple_license_with_author() {
    let ls = parse_spdx("MIT/Apache-2.0").unwrap();
    let files = render_license_text(&ls, &["John Doe"], 2024).unwrap();
    assert!(!files.iter().any(|(n, _)| n == "LICENSE"));
    let mit = files.iter().find(|(n, _)| n == "LICENSE-MIT").unwrap();
    assert!(mit.1.contains("THE SOFTWARE IS PROVIDED \"AS IS\""));
    let apache = files.iter().find(|(n, _)| n == "LICENSE-APACHE").unwrap();
    assert!(apache.1.contains("Apache License"));
}

#[test]
fn year_and_holders_fill_the_template() {
    let files =
        render_license_text(&[get_license("MIT")], &["John Doe", "Jane Roe"], 2021).unwrap();
    assert!(files[0].1.contains("Copyright (c) 2021 John Doe, Jane Roe"));
    assert!(!files[0].1.contains("{{"));
}

#[test]
fn file_names_follow_the_count() {
    assert_eq!(license_file_names(&[get_license("GPL-3.0")]), vec!["LICENSE"]);
    assert_eq!(
        license_file_names(&[get_license("MIT"), get_license("Apache-2.0")]),
        vec!["LICENSE-MIT", "LICENSE-APACHE"]
    );
    assert!(license_file_names(&[]).is_empty());
}

#[test]
fn files_pair_names_with_texts() {
    let ls = [get_license("MIT"), get_license("MPL-2.0")];
    let files = license_files(&ls, vec![String::from("a"), String::from("b")]);
    assert_eq!(
        files,
        vec![
            (String::from("LICENSE-MIT"), String::from("a")),
            (String::from("LICENSE-MPL"), String::from("b")),
        ]
    );
}

#[test]
fn no_license_renders_no_file() {
    assert!(render_license_text(&[], &["John Doe"], 2024).unwrap().is_empty());
}
