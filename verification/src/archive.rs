//! Deterministic construction of a statement's place in the archive: the
//! directory is the archive root, the issuer's fixed subpath, and the
//! statement year; the filename is the date as `YYYY-MM-DD` with a `.pdf`
//! suffix.

use vstd::prelude::*;

use crate::dates::StatementDate;
use crate::issuers::{IssuerProfile, ProfileView};

verus! {

/// The decimal digit character for `d` in `0..=9`.
pub open spec fn digit_char(d: int) -> char {
    ((48 + d) as u8) as char
}

/// The four digit characters of a year in `0..=9999`.
pub open spec fn year_chars(y: int) -> Seq<char> {
    seq![
        digit_char(y / 1000 % 10),
        digit_char(y / 100 % 10),
        digit_char(y / 10 % 10),
        digit_char(y % 10),
    ]
}

/// Two zero-padded digit characters for a value in `0..=99`.
pub open spec fn two_digit_chars(v: int) -> Seq<char> {
    seq![digit_char(v / 10 % 10), digit_char(v % 10)]
}

/// A date printed as `YYYY-MM-DD`.
pub open spec fn date_chars(d: StatementDate) -> Seq<char> {
    year_chars(d.year as int) + seq!['-'] + two_digit_chars(d.month as int) + seq!['-']
        + two_digit_chars(d.day as int)
}

/// A date printed as `YYYY-MM-DD.pdf`, the archived statement's filename.
pub open spec fn pdf_filename_chars(d: StatementDate) -> Seq<char> {
    date_chars(d) + seq!['.', 'p', 'd', 'f']
}

/// Relies on std's String::push: it appends exactly the given character
/// at the end of the string.
#[verifier::external_body]
fn push_char(s: &mut String, c: char)
    ensures
        final(s)@ == old(s)@.push(c),
{
    s.push(c);
}

fn push_digit(s: &mut String, d: u16)
    requires
        d <= 9,
    ensures
        final(s)@ == old(s)@.push(digit_char(d as int)),
{
    push_char(s, (48 + d as u8) as char);
}

/// The statement year as its four decimal digits.
pub fn format_year(y: u16) -> (r: String)
    requires
        y <= 9999,
    ensures
        r@ == year_chars(y as int),
{
    let mut r = String::new();
    push_digit(&mut r, y / 1000 % 10);
    push_digit(&mut r, y / 100 % 10);
    push_digit(&mut r, y / 10 % 10);
    push_digit(&mut r, y % 10);
    proof {
        assert(r@ =~= year_chars(y as int));
    }
    r
}

/// The archived statement's filename, `YYYY-MM-DD.pdf`.
pub fn archive_filename(d: StatementDate) -> (r: String)
    requires
        d.valid(),
    ensures
        r@ == pdf_filename_chars(d),
{
    let mut r = String::new();
    push_digit(&mut r, d.year / 1000 % 10);
    push_digit(&mut r, d.year / 100 % 10);
    push_digit(&mut r, d.year / 10 % 10);
    push_digit(&mut r, d.year % 10);
    push_char(&mut r, '-');
    push_digit(&mut r, (d.month / 10 % 10) as u16);
    push_digit(&mut r, (d.month % 10) as u16);
    push_char(&mut r, '-');
    push_digit(&mut r, (d.day / 10 % 10) as u16);
    push_digit(&mut r, (d.day % 10) as u16);
    push_char(&mut r, '.');
    push_char(&mut r, 'p');
    push_char(&mut r, 'd');
    push_char(&mut r, 'f');
    proof {
        assert(r@ =~= pdf_filename_chars(d));
    }
    r
}

/// Where one statement is archived: a directory, as the sequence of path
/// segments below and including the archive root, and a filename.
pub struct ArchiveTarget {
    pub directory_segments: Vec<String>,
    pub filename: String,
}

/// The mathematical content of an [`ArchiveTarget`].
#[verifier::ext_equal]
pub ghost struct ArchiveTargetView {
    pub directory_segments: Seq<Seq<char>>,
    pub filename: Seq<char>,
}

impl View for ArchiveTarget {
    type V = ArchiveTargetView;

    open spec fn view(&self) -> ArchiveTargetView {
        ArchiveTargetView {
            directory_segments: self.directory_segments.deep_view(),
            filename: self.filename@,
        }
    }
}

/// The target for an issuer's statement of a given date under a root:
/// directory `root / subpath... / year`, filename `YYYY-MM-DD.pdf`.
pub open spec fn spec_archive_target(
    profile: ProfileView,
    date: StatementDate,
    root: Seq<char>,
) -> ArchiveTargetView {
    ArchiveTargetView {
        directory_segments: seq![root] + profile.subpath + seq![year_chars(date.year as int)],
        filename: pdf_filename_chars(date),
    }
}

/// Builds the archive target for one statement. Pure: the result is a
/// function of the issuer, the date, and the root alone.
pub fn build_archive_target(
    profile: &IssuerProfile,
    date: StatementDate,
    archive_root: &String,
) -> (t: ArchiveTarget)
    requires
        date.valid(),
    ensures
        t@ == spec_archive_target(profile@, date, archive_root@),
{
    let ghost sub = profile@.subpath;
    let mut segs: Vec<String> = Vec::new();
    segs.push(archive_root.clone());
    proof {
        assert(segs.deep_view() =~~= seq![archive_root@] + sub.take(0));
    }
    let n = profile.archive_subpath_segments.len();
    let mut i: usize = 0;
    while i < n
        invariant
            n == profile.archive_subpath_segments@.len(),
            sub == profile@.subpath,
            0 <= i <= n,
            segs.deep_view() == seq![archive_root@] + sub.take(i as int),
        decreases n - i,
    {
        let seg = profile.archive_subpath_segments[i].clone();
        let ghost dv0 = segs.deep_view();
        let ghost sv = seg@;
        segs.push(seg);
        proof {
            assert(sv == sub[i as int]);
            assert(segs.deep_view() =~~= dv0.push(sv));
            assert(dv0.push(sv) =~~= seq![archive_root@] + sub.take(i + 1));
        }
        i += 1;
    }
    proof {
        assert(sub.take(n as int) =~= sub);
    }
    let year = format_year(date.year);
    let ghost dv0 = segs.deep_view();
    let ghost yv = year@;
    segs.push(year);
    let t = ArchiveTarget { directory_segments: segs, filename: archive_filename(date) };
    proof {
        assert(t@.directory_segments =~~= dv0.push(yv));
        assert(dv0.push(yv) =~~= seq![archive_root@] + sub + seq![year_chars(date.year as int)]);
        assert(t@ =~~= spec_archive_target(profile@, date, archive_root@));
    }
    t
}

/// The archive path builder is deterministic: targets built from the same
/// issuer, date, and root are the same target.
pub proof fn lemma_archive_target_deterministic(
    v1: ArchiveTargetView,
    v2: ArchiveTargetView,
    profile: ProfileView,
    date: StatementDate,
    root: Seq<char>,
)
    requires
        v1 == spec_archive_target(profile, date, root),
        v2 == spec_archive_target(profile, date, root),
    ensures
        v1 == v2,
{
}

} // verus!
