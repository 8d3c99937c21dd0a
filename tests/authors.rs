use apply_license::{display_name, parse_author_names, LicenseError};

#[test]
fn git_style_author_keeps_the_name() {
    assert_eq!(
        parse_author_names(&["John Doe <jd@example.com>"]).unwrap(),
        vec!["John Doe"]
    );
}

#[test]
fn plain_author_is_unchanged() {
    assert_eq!(parse_author_names(&["John Doe"]).unwrap(), vec!["John Doe"]);
}

#[test]
fn no_authors_is_an_error() {
    assert_eq!(parse_author_names(&[]).unwrap_err(), LicenseError::NoAuthors);
}

#[test]
fn several_authors_keep_their_order() {
    assert_eq!(
        parse_author_names(&["Jane Roe", "John Doe <jd@example.com>", "A <b> <c@d>"]).unwrap(),
        vec!["Jane Roe", "John Doe", "A <b>"]
    );
}

#[test]
fn name_without_email_part_is_unchanged() {
    assert_eq!(
        parse_author_names(&["John Doe <>", "<jd@example.com>"]).unwrap(),
        vec!["John Doe <>", "<jd@example.com>"]
    );
}

#[test]
fn display_name_prefers_the_capture() {
    assert_eq!(display_name("John Doe <jd@example.com>", Some("John Doe")), "John Doe");
    assert_eq!(display_name("John Doe", None), "John Doe");
}

#[test]
fn author_with_line_break_is_no_error() {
    assert_eq!(
        parse_author_names(&["John\nDoe <jd@example.com>"]).unwrap(),
        vec!["Doe"]
    );
}
