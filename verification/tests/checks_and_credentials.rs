use train_viewer::digest::{authorization_header, hex_lower, md5_hex};
use train_viewer::refresh::{
    archive_import_wanted, archive_needs_download, checksum_is_current, clean_etag,
    etag_is_current, strip_quotes, update_plan, ArchiveCheck, UpdatePlan,
};

#[test]
fn md5_in_lowercase_hex() {
    assert_eq!(md5_hex(b""), "d41d8cd98f00b204e9800998ecf8427e");
    assert_eq!(md5_hex(b"abc"), "900150983cd24fb0d6963f7d28e17f72");
    assert_eq!(md5_hex(b"The quick brown fox jumps over the lazy dog").len(), 32);
    assert_eq!(hex_lower(&[0x00, 0x0f, 0xa5, 0xff]), "000fa5ff");
}

#[test]
fn basic_authorization_value() {
    assert_eq!(
        authorization_header("Aladdin", "open sesame"),
        "Basic QWxhZGRpbjpvcGVuIHNlc2FtZQ=="
    );
    assert_eq!(authorization_header("", ""), "Basic Og==");
}

#[test]
fn quotes_are_removed() {
    assert_eq!(strip_quotes("\"abc\""), "abc");
    assert_eq!(strip_quotes("a\"b\"\"c"), "abc");
    assert_eq!(clean_etag("\"\\abc\""), "abc");
    assert_eq!(clean_etag("W/\"x\\\"y\""), "W/x\\y");
    let once = strip_quotes("\"\"a\"");
    assert_eq!(strip_quotes(&once), once);
    assert!(!clean_etag("\"\\\"\"").contains('"'));
}

#[test]
fn plan_of_a_switched_update() {
    assert_eq!(update_plan(false, &None), UpdatePlan::Download);
    assert_eq!(update_plan(true, &None), UpdatePlan::MissingSetting);
    assert_eq!(update_plan(true, &Some("true".to_string())), UpdatePlan::CompareChecksum);
    assert_eq!(update_plan(true, &Some("TRUE".to_string())), UpdatePlan::Keep);
    assert_eq!(update_plan(true, &Some(String::new())), UpdatePlan::Keep);
}

#[test]
fn checksum_comparisons() {
    let md5 = "900150983cd24fb0d6963f7d28e17f72";
    assert!(etag_is_current("\"900150983cd24fb0d6963f7d28e17f72\"", md5));
    assert!(!etag_is_current("\"0000\"", md5));
    assert!(!checksum_is_current("\"900150983cd24fb0d6963f7d28e17f72\"", md5));
    assert!(checksum_is_current(md5, md5));
    assert!(!checksum_is_current("", md5));
}

fn check(etag: &str, remote: Option<u64>, local: u64) -> ArchiveCheck {
    ArchiveCheck {
        etag: etag.to_string(),
        local_md5: "900150983cd24fb0d6963f7d28e17f72".to_string(),
        remote_length: remote,
        local_length: local,
    }
}

#[test]
fn archive_download_decision() {
    assert!(archive_needs_download(&None));
    assert!(!archive_needs_download(&Some(check("\"900150983cd24fb0d6963f7d28e17f72\"", None, 3))));
    assert!(archive_needs_download(&Some(check("\"ffff\"", Some(3), 3))));
    assert!(!archive_needs_download(&Some(check("\"abcd-2\"", Some(3), 3))));
    assert!(archive_needs_download(&Some(check("\"abcd-2\"", Some(4), 3))));
    assert!(archive_needs_download(&Some(check("\"abcd-2\"", None, 3))));
}

#[test]
fn archive_import_at_start() {
    assert!(archive_import_wanted(0, &None));
    assert!(!archive_import_wanted(5, &None));
    assert!(archive_import_wanted(5, &Some("true".to_string())));
    assert!(!archive_import_wanted(5, &Some("yes".to_string())));
}
