use valet::dates::StatementDate;
use valet::extract::{extract_date_from_filename, extract_date_from_text};

fn date(year: u16, month: u8, day: u8) -> StatementDate {
    StatementDate { year, month, day }
}

#[test]
fn filename_embedded_example() {
    let r = extract_date_from_filename(b"STMT_05-01-2024_5589.pdf");
    assert_eq!(r, Some(date(2024, 1, 5)));
}

#[test]
fn filename_without_underscore_yields_none() {
    assert_eq!(extract_date_from_filename(b"STMT.pdf"), None);
}

#[test]
fn filename_with_malformed_segment_yields_none() {
    assert_eq!(extract_date_from_filename(b"STMT_garbage_5589.pdf"), None);
    assert_eq!(extract_date_from_filename(b"STMT_05012024_5589.pdf"), None);
    assert_eq!(extract_date_from_filename(b"STMT_05-01-24_5589.pdf"), None);
}

#[test]
fn filename_single_digit_day_and_month() {
    let r = extract_date_from_filename(b"A_5-1-2024_5589.pdf");
    assert_eq!(r, Some(date(2024, 1, 5)));
}

#[test]
fn filename_without_second_underscore_parses_whole_rest() {
    assert_eq!(
        extract_date_from_filename(b"A_05-01-2024"),
        Some(date(2024, 1, 5))
    );
    // A trailing extension makes the rest malformed.
    assert_eq!(extract_date_from_filename(b"A_05-01-2024.pdf"), None);
}

#[test]
fn filename_leap_year_dates() {
    assert_eq!(
        extract_date_from_filename(b"A_29-02-2024_5589.pdf"),
        Some(date(2024, 2, 29))
    );
    assert_eq!(extract_date_from_filename(b"A_29-02-2023_5589.pdf"), None);
    assert_eq!(extract_date_from_filename(b"A_29-02-2000_5589.pdf"), Some(date(2000, 2, 29)));
    assert_eq!(extract_date_from_filename(b"A_29-02-1900_5589.pdf"), None);
}

#[test]
fn filename_invalid_calendar_date_yields_none() {
    assert_eq!(extract_date_from_filename(b"A_31-04-2024_5589.pdf"), None);
    assert_eq!(extract_date_from_filename(b"A_00-01-2024_5589.pdf"), None);
    assert_eq!(extract_date_from_filename(b"A_01-13-2024_5589.pdf"), None);
}

#[test]
fn document_text_simple() {
    let text = b"Account Summary\nStatement Date\nJanuary 5, 2024\nTotal Due";
    assert_eq!(extract_date_from_text(text), Some(date(2024, 1, 5)));
}

#[test]
fn document_text_last_match_wins() {
    let text = b"Statement Date\nJanuary 5, 2024\nsomething else\nStatement Date\nFebruary 10, 2024";
    assert_eq!(extract_date_from_text(text), Some(date(2024, 2, 10)));
}

#[test]
fn document_text_label_missing_yields_none() {
    assert_eq!(extract_date_from_text(b"no label here\nJanuary 5, 2024"), None);
    assert_eq!(extract_date_from_text(b""), None);
}

#[test]
fn document_text_unparseable_value_yields_none() {
    assert_eq!(extract_date_from_text(b"Statement Date\nnot a date"), None);
    assert_eq!(extract_date_from_text(b"Statement Date\nJanuary 32, 2024"), None);
}

#[test]
fn document_text_label_ignores_case_and_whitespace() {
    let text = b"  statement DATE  \r\nMarch 7, 2021\r\n";
    assert_eq!(extract_date_from_text(text), Some(date(2021, 3, 7)));
}

#[test]
fn document_text_label_on_last_line_keeps_prior_match() {
    let text = b"Statement Date\nJanuary 5, 2024\nStatement Date";
    assert_eq!(extract_date_from_text(text), Some(date(2024, 1, 5)));
}

#[test]
fn document_text_month_name_ignores_case() {
    assert_eq!(
        extract_date_from_text(b"Statement Date\nJANUARY 5, 2024"),
        Some(date(2024, 1, 5))
    );
    assert_eq!(
        extract_date_from_text(b"Statement Date\nseptember 30, 2019"),
        Some(date(2019, 9, 30))
    );
}

#[test]
fn document_text_every_month_name_parses() {
    let cases: [(&[u8], u8); 12] = [
        (b"January 1, 2024", 1),
        (b"February 1, 2024", 2),
        (b"March 1, 2024", 3),
        (b"April 1, 2024", 4),
        (b"May 1, 2024", 5),
        (b"June 1, 2024", 6),
        (b"July 1, 2024", 7),
        (b"August 1, 2024", 8),
        (b"September 1, 2024", 9),
        (b"October 1, 2024", 10),
        (b"November 1, 2024", 11),
        (b"December 1, 2024", 12),
    ];
    for (line, month) in cases {
        let mut text: Vec<u8> = b"Statement Date\n".to_vec();
        text.extend_from_slice(line);
        assert_eq!(extract_date_from_text(&text), Some(date(2024, month, 1)));
    }
}

#[test]
fn document_text_value_line_must_match_exactly() {
    // A leading space before the month name is not part of the format.
    assert_eq!(extract_date_from_text(b"Statement Date\n January 5, 2024"), None);
    // Missing comma.
    assert_eq!(extract_date_from_text(b"Statement Date\nJanuary 5 2024"), None);
    // Two-digit year.
    assert_eq!(extract_date_from_text(b"Statement Date\nJanuary 5, 24"), None);
}
