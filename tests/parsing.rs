use apply_license::{is_valid_spdx_id, licenses, parse_spdx, License, LicenseError};

fn get_license(id: &str) -> License {
    licenses().into_iter().find(|l| l.spdx == id).unwrap()
}

#[test]
fn parse_licenses() {
    assert!(licenses().iter().any(|l| l.spdx == "MIT"));
}

#[test]
fn valid_spdx_ids() {
    assert!(is_valid_spdx_id("MIT"));
    assert!(!is_valid_spdx_id("foobar"));
}

#[test]
fn simple() {
    assert_eq!(parse_spdx("GPL-3.0").unwrap(), &[get_license("GPL-3.0")]);
}

#[test]
fn compound() {
    assert_eq!(
        parse_spdx("MIT OR Apache-2.0").unwrap(),
        &[get_license("MIT"), get_license("Apache-2.0")],
    );
}

#[test]
fn cargo_manifest_licenses() {
    assert_eq!(
        parse_spdx("MIT/Apache-2.0").unwrap(),
        &[get_license("MIT"), get_license("Apache-2.0")]
    );
}

#[test]
fn spdx_ids_are_case_sensitive_whole_entries() {
    assert!(is_valid_spdx_id("Apache-2.0"));
    assert!(!is_valid_spdx_id("mit"));
    assert!(!is_valid_spdx_id("MI"));
    assert!(!is_valid_spdx_id(""));
    assert!(!is_valid_spdx_id("MIT\nISC"));
    assert!(is_valid_spdx_id("0BSD"));
    assert!(is_valid_spdx_id("zlib-acknowledgement"));
}

#[test]
fn single_known_id_resolves_to_its_entry() {
    for l in licenses() {
        let parsed = parse_spdx(&l.spdx).unwrap();
        assert_eq!(parsed, vec![l]);
    }
}

#[test]
fn and_joins_like_or_and_slash() {
    let expected = vec![get_license("MPL-2.0"), get_license("GPL-3.0")];
    assert_eq!(parse_spdx("MPL-2.0 AND GPL-3.0").unwrap(), expected);
    assert_eq!(parse_spdx("MPL-2.0 OR GPL-3.0").unwrap(), expected);
    assert_eq!(parse_spdx("MPL-2.0/GPL-3.0").unwrap(), expected);
}

#[test]
fn slash_and_or_forms_resolve_alike() {
    assert_eq!(
        parse_spdx("MIT/Apache-2.0").unwrap(),
        parse_spdx("MIT OR Apache-2.0").unwrap()
    );
}

#[test]
fn unknown_token_is_invalid() {
    assert_eq!(
        parse_spdx("foobar").unwrap_err(),
        LicenseError::InvalidSpdxId(String::from("foobar"))
    );
    assert_eq!(
        parse_spdx("MIT OR foobar").unwrap_err(),
        LicenseError::InvalidSpdxId(String::from("foobar"))
    );
}

#[test]
fn known_but_absent_token_is_unsupported() {
    assert_eq!(
        parse_spdx("ISC").unwrap_err(),
        LicenseError::UnsupportedLicense(String::from("ISC"))
    );
    assert_eq!(
        parse_spdx("MIT/BSD-3-Clause").unwrap_err(),
        LicenseError::UnsupportedLicense(String::from("BSD-3-Clause"))
    );
}

#[test]
fn first_failing_token_decides_the_error() {
    assert_eq!(
        parse_spdx("ISC OR foobar").unwrap_err(),
        LicenseError::UnsupportedLicense(String::from("ISC"))
    );
    assert_eq!(
        parse_spdx("foobar OR ISC").unwrap_err(),
        LicenseError::InvalidSpdxId(String::from("foobar"))
    );
}

#[test]
fn empty_and_operator_only_expressions_give_no_license() {
    assert_eq!(parse_spdx("").unwrap(), vec![]);
    assert_eq!(parse_spdx("   ").unwrap(), vec![]);
    assert_eq!(parse_spdx("OR AND WITH").unwrap(), vec![]);
}

#[test]
fn whitespace_runs_separate_tokens() {
    assert_eq!(
        parse_spdx("  MIT \t OR\nApache-2.0  ").unwrap(),
        vec![get_license("MIT"), get_license("Apache-2.0")]
    );
}

#[test]
fn slash_mode_keeps_spaces_in_tokens() {
    assert_eq!(
        parse_spdx("MIT / Apache-2.0").unwrap_err(),
        LicenseError::InvalidSpdxId(String::from("MIT "))
    );
    assert_eq!(
        parse_spdx("MIT/").unwrap_err(),
        LicenseError::InvalidSpdxId(String::new())
    );
}

#[test]
fn duplicate_tokens_are_kept() {
    assert_eq!(
        parse_spdx("MIT OR MIT").unwrap(),
        vec![get_license("MIT"), get_license("MIT")]
    );
}

#[test]
fn catalog_spdx_ids_are_unique_and_known() {
    let all = licenses();
    for (i, a) in all.iter().enumerate() {
        assert!(is_valid_spdx_id(&a.spdx));
        for b in &all[i + 1..] {
            assert_ne!(a.spdx, b.spdx);
        }
    }
}

#[test]
fn unicode_whitespace_separates_tokens() {
    assert_eq!(
        parse_spdx("MIT\u{3000}OR\u{A0}Apache-2.0\u{2028}").unwrap(),
        vec![get_license("MIT"), get_license("Apache-2.0")]
    );
}

#[test]
fn error_messages_name_the_token() {
    assert_eq!(
        LicenseError::InvalidSpdxId(String::from("foobar")).message(),
        "invalid SPDX license ID: foobar"
    );
    assert_eq!(
        LicenseError::UnsupportedLicense(String::from("ISC")).message(),
        "SPDX ID 'ISC' is valid, but unsupported by this program. Please open a PR!"
    );
    assert_eq!(LicenseError::NoAuthors.message(), "at least one author is required");
}
