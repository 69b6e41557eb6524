//! Statement-date extraction: from a source filename whose second
//! underscore-separated segment is a `day-month-year` date, or from
//! extracted document text in which the line after the last occurrence of
//! the statement-date label is a `Month day, year` date.

use vstd::prelude::*;

use crate::dates::{spec_valid_date, StatementDate, is_valid_date};
use crate::lines::{spec_lines, split_lines};
use crate::text::{
    all_digits, check_all_digits, digits_val, digits_value, eq_ignore_case, find_byte, lower_seq,
    spec_find, spec_line_is_label, spec_pow10, lemma_digits_val_bound, line_is_label, COMMA, DASH,
    SPACE, UNDERSCORE,
};

verus! {

/// The date with the given parts, if they form a valid calendar date.
pub open spec fn date_from_parts(y: int, m: int, d: int) -> Option<StatementDate> {
    if spec_valid_date(y, m, d) {
        Some(StatementDate { year: y as u16, month: m as u8, day: d as u8 })
    } else {
        None
    }
}

/// A `day-month-year` date: one or two digits of day and month, four of
/// year, separated by dashes, forming a valid calendar date.
pub open spec fn spec_parse_dmy(s: Seq<u8>) -> Option<StatementDate> {
    let i = spec_find(s, DASH);
    if i == s.len() {
        None
    } else {
        let day = s.take(i);
        let rest = s.skip(i + 1);
        let j = spec_find(rest, DASH);
        if j == rest.len() {
            None
        } else {
            let mon = rest.take(j);
            let year = rest.skip(j + 1);
            if 1 <= day.len() <= 2 && 1 <= mon.len() <= 2 && year.len() == 4 && all_digits(day)
                && all_digits(mon) && all_digits(year) {
                date_from_parts(digits_val(year), digits_val(mon), digits_val(day))
            } else {
                None
            }
        }
    }
}

proof fn lemma_two_digits_bound(s: Seq<u8>)
    requires
        all_digits(s),
        s.len() <= 2,
    ensures
        0 <= digits_val(s) < 100,
{
    lemma_digits_val_bound(s);
    assert(spec_pow10(0) == 1);
    assert(spec_pow10(1) == 10);
    assert(spec_pow10(2) == 100);
}

/// Parses an underscore-free segment as a `day-month-year` date.
pub fn parse_dmy(s: &[u8]) -> (r: Option<StatementDate>)
    ensures
        r == spec_parse_dmy(s@),
{
    let n = s.len();
    let i = find_byte(s, DASH);
    if i == n {
        return None;
    }
    let day = &s[0..i];
    let rest = &s[i + 1..n];
    let j = find_byte(rest, DASH);
    if j == rest.len() {
        return None;
    }
    let mon = &rest[0..j];
    let year = &rest[j + 1..rest.len()];
    proof {
        assert(day@ =~= s@.take(i as int));
        assert(rest@ =~= s@.skip(i + 1));
        assert(mon@ =~= rest@.take(j as int));
        assert(year@ =~= rest@.skip(j + 1));
    }
    if day.len() < 1 || day.len() > 2 || mon.len() < 1 || mon.len() > 2 || year.len() != 4 {
        return None;
    }
    if !check_all_digits(day) || !check_all_digits(mon) || !check_all_digits(year) {
        return None;
    }
    let d = digits_value(day);
    let m = digits_value(mon);
    let y = digits_value(year);
    proof {
        lemma_two_digits_bound(day@);
        lemma_two_digits_bound(mon@);
    }
    if is_valid_date(y as u16, m as u8, d as u8) {
        Some(StatementDate { year: y as u16, month: m as u8, day: d as u8 })
    } else {
        None
    }
}

/// The date embedded in a source filename: the segment after the first
/// underscore, up to the next underscore, read as `day-month-year`.
pub open spec fn spec_filename_date(name: Seq<u8>) -> Option<StatementDate> {
    let u1 = spec_find(name, UNDERSCORE);
    if u1 == name.len() {
        None
    } else {
        let rest = name.skip(u1 + 1);
        spec_parse_dmy(rest.take(spec_find(rest, UNDERSCORE)))
    }
}

/// Extracts the statement date from the filename of a discovered
/// statement, or nothing when the expected segment is absent or malformed.
pub fn extract_date_from_filename(name: &[u8]) -> (r: Option<StatementDate>)
    ensures
        r == spec_filename_date(name@),
        r matches Some(d) ==> d.valid(),
{
    let n = name.len();
    let u1 = find_byte(name, UNDERSCORE);
    if u1 == n {
        return None;
    }
    let rest = &name[u1 + 1..n];
    let u2 = find_byte(rest, UNDERSCORE);
    let seg = &rest[0..u2];
    proof {
        assert(rest@ =~= name@.skip(u1 + 1));
        assert(seg@ =~= rest@.take(u2 as int));
    }
    parse_dmy(seg)
}

/// The full English month names, lower-case, indexed 1 through 12.
pub open spec fn spec_month_name(m: int) -> Seq<u8> {
    if m == 1 {
        seq![106, 97, 110, 117, 97, 114, 121u8]
    } else if m == 2 {
        seq![102, 101, 98, 114, 117, 97, 114, 121u8]
    } else if m == 3 {
        seq![109, 97, 114, 99, 104u8]
    } else if m == 4 {
        seq![97, 112, 114, 105, 108u8]
    } else if m == 5 {
        seq![109, 97, 121u8]
    } else if m == 6 {
        seq![106, 117, 110, 101u8]
    } else if m == 7 {
        seq![106, 117, 108, 121u8]
    } else if m == 8 {
        seq![97, 117, 103, 117, 115, 116u8]
    } else if m == 9 {
        seq![115, 101, 112, 116, 101, 109, 98, 101, 114u8]
    } else if m == 10 {
        seq![111, 99, 116, 111, 98, 101, 114u8]
    } else if m == 11 {
        seq![110, 111, 118, 101, 109, 98, 101, 114u8]
    } else if m == 12 {
        seq![100, 101, 99, 101, 109, 98, 101, 114u8]
    } else {
        Seq::empty()
    }
}

fn month_vec(m: u8) -> (v: Vec<u8>)
    requires
        1 <= m <= 12,
    ensures
        v@ == spec_month_name(m as int),
{
    let mut v: Vec<u8> = Vec::new();
    if m == 1 {
        v.push(106);
        v.push(97);
        v.push(110);
        v.push(117);
        v.push(97);
        v.push(114);
        v.push(121);
    } else if m == 2 {
        v.push(102);
        v.push(101);
        v.push(98);
        v.push(114);
        v.push(117);
        v.push(97);
        v.push(114);
        v.push(121);
    } else if m == 3 {
        v.push(109);
        v.push(97);
        v.push(114);
        v.push(99);
        v.push(104);
    } else if m == 4 {
        v.push(97);
        v.push(112);
        v.push(114);
        v.push(105);
        v.push(108);
    } else if m == 5 {
        v.push(109);
        v.push(97);
        v.push(121);
    } else if m == 6 {
        v.push(106);
        v.push(117);
        v.push(110);
        v.push(101);
    } else if m == 7 {
        v.push(106);
        v.push(117);
        v.push(108);
        v.push(121);
    } else if m == 8 {
        v.push(97);
        v.push(117);
        v.push(103);
        v.push(117);
        v.push(115);
        v.push(116);
    } else if m == 9 {
        v.push(115);
        v.push(101);
        v.push(112);
        v.push(116);
        v.push(101);
        v.push(109);
        v.push(98);
        v.push(101);
        v.push(114);
    } else if m == 10 {
        v.push(111);
        v.push(99);
        v.push(116);
        v.push(111);
        v.push(98);
        v.push(101);
        v.push(114);
    } else if m == 11 {
        v.push(110);
        v.push(111);
        v.push(118);
        v.push(101);
        v.push(109);
        v.push(98);
        v.push(101);
        v.push(114);
    } else if m == 12 {
        v.push(100);
        v.push(101);
        v.push(99);
        v.push(101);
        v.push(109);
        v.push(98);
        v.push(101);
        v.push(114);
    } else {
    }
    proof {
        assert(v@ =~= spec_month_name(m as int));
    }
    v
}

/// The month whose name `name` is, up to ASCII case.
pub open spec fn spec_month_of(name: Seq<u8>) -> Option<int> {
    if lower_seq(name) == spec_month_name(1) {
        Some(1)
    } else if lower_seq(name) == spec_month_name(2) {
        Some(2)
    } else if lower_seq(name) == spec_month_name(3) {
        Some(3)
    } else if lower_seq(name) == spec_month_name(4) {
        Some(4)
    } else if lower_seq(name) == spec_month_name(5) {
        Some(5)
    } else if lower_seq(name) == spec_month_name(6) {
        Some(6)
    } else if lower_seq(name) == spec_month_name(7) {
        Some(7)
    } else if lower_seq(name) == spec_month_name(8) {
        Some(8)
    } else if lower_seq(name) == spec_month_name(9) {
        Some(9)
    } else if lower_seq(name) == spec_month_name(10) {
        Some(10)
    } else if lower_seq(name) == spec_month_name(11) {
        Some(11)
    } else if lower_seq(name) == spec_month_name(12) {
        Some(12)
    } else {
        None
    }
}

fn month_of(name: &[u8]) -> (r: Option<u8>)
    ensures
        r matches Some(m) ==> 1 <= m <= 12 && spec_month_of(name@) == Some(m as int),
        r is None ==> spec_month_of(name@) is None,
{
    let mut m: u8 = 1;
    while m <= 12
        invariant
            1 <= m <= 13,
            forall|k: int| 1 <= k < m ==> lower_seq(name@) != #[trigger] spec_month_name(k),
        decreases 13 - m,
    {
        let mv = month_vec(m);
        if eq_ignore_case(name, mv.as_slice()) {
            proof {
                assert(lower_seq(spec_month_name(m as int)) =~= spec_month_name(m as int));
            }
            return Some(m);
        }
        proof {
            assert(lower_seq(spec_month_name(m as int)) =~= spec_month_name(m as int));
        }
        m += 1;
    }
    None
}

/// A `Month day, year` date: a month name, a space, one or two digits of
/// day, a comma, a space, and four digits of year, forming a valid date.
pub open spec fn spec_parse_month_date(line: Seq<u8>) -> Option<StatementDate> {
    let sp = spec_find(line, SPACE);
    if sp == line.len() {
        None
    } else {
        match spec_month_of(line.take(sp)) {
            None => None,
            Some(m) => {
                let rest = line.skip(sp + 1);
                let cm = spec_find(rest, COMMA);
                if cm == rest.len() {
                    None
                } else {
                    let day = rest.take(cm);
                    let tail = rest.skip(cm + 1);
                    if 1 <= day.len() <= 2 && all_digits(day) && tail.len() == 5 && tail[0]
                        == SPACE && all_digits(tail.skip(1)) {
                        date_from_parts(digits_val(tail.skip(1)), m, digits_val(day))
                    } else {
                        None
                    }
                }
            },
        }
    }
}

/// Parses one text line as a `Month day, year` date.
pub fn parse_month_date(line: &[u8]) -> (r: Option<StatementDate>)
    ensures
        r == spec_parse_month_date(line@),
{
    let n = line.len();
    let sp = find_byte(line, SPACE);
    if sp == n {
        return None;
    }
    let name = &line[0..sp];
    proof {
        assert(name@ =~= line@.take(sp as int));
    }
    let m = match month_of(name) {
        None => {
            return None;
        },
        Some(m) => m,
    };
    let rest = &line[sp + 1..n];
    let cm = find_byte(rest, COMMA);
    if cm == rest.len() {
        proof {
            assert(rest@ =~= line@.skip(sp + 1));
        }
        return None;
    }
    let day = &rest[0..cm];
    let tail = &rest[cm + 1..rest.len()];
    proof {
        assert(rest@ =~= line@.skip(sp + 1));
        assert(day@ =~= rest@.take(cm as int));
        assert(tail@ =~= rest@.skip(cm + 1));
    }
    if day.len() < 1 || day.len() > 2 || !check_all_digits(day) {
        return None;
    }
    if tail.len() != 5 || tail[0] != SPACE {
        return None;
    }
    let year = &tail[1..5];
    proof {
        assert(year@ =~= tail@.skip(1));
    }
    if !check_all_digits(year) {
        return None;
    }
    let d = digits_value(day);
    let y = digits_value(year);
    proof {
        lemma_two_digits_bound(day@);
    }
    if is_valid_date(y as u16, m, d as u8) {
        Some(StatementDate { year: y as u16, month: m, day: d as u8 })
    } else {
        None
    }
}

/// The line following the last label line that has one; the statement-date
/// value line of the extracted text.
pub open spec fn spec_label_value(ls: Seq<Seq<u8>>) -> Option<Seq<u8>>
    decreases ls.len(),
{
    let n = ls.len();
    if n < 2 {
        None
    } else if spec_line_is_label(ls[n - 2]) {
        Some(ls[n - 1])
    } else {
        spec_label_value(ls.take(n - 1))
    }
}

proof fn lemma_label_value_push(s: Seq<Seq<u8>>, x: Seq<u8>)
    ensures
        spec_label_value(s.push(x)) == if s.len() >= 1 && spec_line_is_label(s[s.len() - 1]) {
            Some(x)
        } else {
            spec_label_value(s)
        },
{
    let t = s.push(x);
    if s.len() >= 1 {
        assert(t[t.len() - 2] == s[s.len() - 1]);
        assert(t.take(t.len() - 1) =~= s);
    }
}

/// The date carried by extracted document text: the line after the last
/// occurrence of the statement-date label, read as `Month day, year`.
pub open spec fn spec_text_date(text: Seq<u8>) -> Option<StatementDate> {
    match spec_label_value(spec_lines(text)) {
        None => None,
        Some(l) => spec_parse_month_date(l),
    }
}

/// Extracts the statement date from extracted document text, or nothing
/// when the label never occurs or the following line is not a date.
pub fn extract_date_from_text(text: &[u8]) -> (r: Option<StatementDate>)
    ensures
        r == spec_text_date(text@),
        r matches Some(d) ==> d.valid(),
{
    let ls = split_lines(text);
    let ghost lv = ls.deep_view();
    let n = ls.len();
    let mut found: Option<usize> = None;
    let mut k: usize = 0;
    proof {
        assert(lv.take(0) =~= Seq::<Seq<u8>>::empty());
    }
    while k < n
        invariant
            n == ls@.len(),
            lv == ls.deep_view(),
            0 <= k <= n,
            match found {
                None => spec_label_value(lv.take(k as int)) is None,
                Some(j) => j < k && spec_label_value(lv.take(k as int)) == Some(lv[j as int]),
            },
        decreases n - k,
    {
        proof {
            assert(lv.take(k + 1) =~= lv.take(k as int).push(lv[k as int]));
            lemma_label_value_push(lv.take(k as int), lv[k as int]);
            if k >= 1 {
                assert(lv.take(k as int)[k - 1] == lv[k - 1]);
            }
        }
        if k >= 1 && line_is_label(ls[k - 1].as_slice()) {
            proof {
                assert(ls@[k - 1].deep_view() == lv[k - 1]);
                assert(ls@[k - 1]@ =~= ls@[k - 1].deep_view());
            }
            found = Some(k);
        } else if k >= 1 {
            proof {
                assert(ls@[k - 1].deep_view() == lv[k - 1]);
                assert(ls@[k - 1]@ =~= ls@[k - 1].deep_view());
            }
        }
        k += 1;
    }
    proof {
        assert(lv.take(n as int) =~= lv);
    }
    match found {
        None => None,
        Some(j) => {
            let r = parse_month_date(ls[j].as_slice());
            proof {
                assert(ls@[j as int].deep_view() == lv[j as int]);
                assert(ls@[j as int]@ =~= ls@[j as int].deep_view());
            }
            r
        },
    }
}

} // verus!
