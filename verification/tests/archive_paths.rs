use valet::archive::{archive_filename, build_archive_target};
use valet::dates::StatementDate;
use valet::issuers::hdfc_profile;

#[test]
fn archive_filename_is_iso_date_pdf() {
    let d = StatementDate { year: 2023, month: 3, day: 1 };
    assert_eq!(archive_filename(d), "2023-03-01.pdf");
    let d2 = StatementDate { year: 987, month: 12, day: 31 };
    assert_eq!(archive_filename(d2), "0987-12-31.pdf");
}

#[test]
fn archive_target_layout() {
    let profile = hdfc_profile("pw".to_owned());
    let d = StatementDate { year: 2023, month: 3, day: 1 };
    let root = "/tmp/Volumes/Legal Documents".to_owned();
    let t = build_archive_target(&profile, d, &root);
    assert_eq!(
        t.directory_segments,
        vec![
            "/tmp/Volumes/Legal Documents".to_owned(),
            "Bank Accounts".to_owned(),
            "Varun - HDFC".to_owned(),
            "Credit Card statement".to_owned(),
            "2023".to_owned(),
        ]
    );
    assert_eq!(t.filename, "2023-03-01.pdf");
}

#[test]
fn archive_target_is_deterministic() {
    let profile = hdfc_profile("pw".to_owned());
    let d = StatementDate { year: 2024, month: 1, day: 5 };
    let root = "/archive".to_owned();
    let t1 = build_archive_target(&profile, d, &root);
    let t2 = build_archive_target(&profile, d, &root);
    assert_eq!(t1.directory_segments, t2.directory_segments);
    assert_eq!(t1.filename, t2.filename);
}
