//! Issuer profiles: everything that distinguishes one statement issuer
//! from another — the filename pattern its statements match, the decryption
//! password, which decrypt exit codes it tolerates, where its dates come
//! from, and where its statements are archived.

use vstd::prelude::*;

use crate::text::spec_contains_sub;
use crate::text::contains_subslice;

verus! {

/// Where an issuer's statement date is found.
#[derive(Clone, Copy, Debug, PartialEq, Eq, Structural)]
pub enum DateSource {
    /// The date is a segment of the statement's filename.
    FilenameEmbedded,
    /// The date follows a label line inside the document's extracted text.
    DocumentText,
}

/// Immutable description of one supported issuer.
#[derive(Clone, Debug)]
pub struct IssuerProfile {
    pub issuer_id: String,
    pub filename_match_pattern: Vec<u8>,
    pub decryption_password: String,
    pub accepted_exit_codes: Vec<i32>,
    pub date_source: DateSource,
    pub archive_subpath_segments: Vec<String>,
}

/// The mathematical content of an [`IssuerProfile`].
#[verifier::ext_equal]
pub ghost struct ProfileView {
    pub issuer_id: Seq<char>,
    pub pattern: Seq<u8>,
    pub password: Seq<char>,
    pub accepted_exit_codes: Seq<i32>,
    pub date_source: DateSource,
    pub subpath: Seq<Seq<char>>,
}

impl View for IssuerProfile {
    type V = ProfileView;

    open spec fn view(&self) -> ProfileView {
        ProfileView {
            issuer_id: self.issuer_id@,
            pattern: self.filename_match_pattern@,
            password: self.decryption_password@,
            accepted_exit_codes: self.accepted_exit_codes@,
            date_source: self.date_source,
            subpath: self.archive_subpath_segments.deep_view(),
        }
    }
}

impl IssuerProfile {
    /// A filename matches this issuer when its pattern occurs in the name.
    pub fn filename_matches(&self, name: &[u8]) -> (r: bool)
        ensures
            r == spec_contains_sub(name@, self@.pattern),
    {
        contains_subslice(name, self.filename_match_pattern.as_slice())
    }

    /// Whether the decrypt utility's exit code is tolerated by this issuer.
    pub fn exit_code_accepted(&self, code: i32) -> (r: bool)
        ensures
            r == self@.accepted_exit_codes.contains(code),
    {
        let n = self.accepted_exit_codes.len();
        let mut i: usize = 0;
        while i < n
            invariant
                n == self.accepted_exit_codes@.len(),
                0 <= i <= n,
                forall|j: int| 0 <= j < i ==> self.accepted_exit_codes@[j] != code,
            decreases n - i,
        {
            if self.accepted_exit_codes[i] == code {
                return true;
            }
            i += 1;
        }
        proof {
            assert(!self@.accepted_exit_codes.contains(code));
        }
        false
    }
}

/// The filenames that match `pat`, in their original order.
pub open spec fn spec_matching(names: Seq<Seq<u8>>, pat: Seq<u8>) -> Seq<Seq<u8>> {
    names.filter(|n: Seq<u8>| spec_contains_sub(n, pat))
}

/// Keeps exactly the filenames matching the issuer's pattern, in order.
pub fn matching_files(profile: &IssuerProfile, names: &Vec<Vec<u8>>) -> (r: Vec<Vec<u8>>)
    ensures
        r.deep_view() == spec_matching(names.deep_view(), profile@.pattern),
{
    let ghost pred = |n: Seq<u8>| spec_contains_sub(n, profile@.pattern);
    let ghost nv = names.deep_view();
    let n = names.len();
    let mut r: Vec<Vec<u8>> = Vec::new();
    let mut i: usize = 0;
    proof {
        reveal(Seq::filter);
        assert(nv.take(0) =~= Seq::<Seq<u8>>::empty());
    }
    while i < n
        invariant
            n == names@.len(),
            nv == names.deep_view(),
            0 <= i <= n,
            r.deep_view() == nv.take(i as int).filter(pred),
            pred == (|n: Seq<u8>| spec_contains_sub(n, profile@.pattern)),
        decreases n - i,
    {
        proof {
            reveal(Seq::filter);
            assert(nv.take(i + 1).drop_last() =~= nv.take(i as int));
            assert(nv.take(i + 1).last() == nv[i as int]);
            assert(names@[i as int]@ =~= names@[i as int].deep_view());
            assert(names@[i as int].deep_view() == nv[i as int]);
        }
        if profile.filename_matches(names[i].as_slice()) {
            let mut c: Vec<u8> = Vec::new();
            c.extend_from_slice(names[i].as_slice());
            let ghost dv0 = r.deep_view();
            let ghost cv = c@;
            r.push(c);
            proof {
                assert(cv =~= nv[i as int]);
                assert(r.deep_view() =~~= dv0.push(cv));
                assert(dv0.push(cv) =~= nv.take(i as int).filter(pred) + seq![nv[i as int]]);
            }
        }
        i += 1;
    }
    proof {
        assert(nv.take(n as int) =~= nv);
    }
    r
}

/// The issuer whose statements carry a `day-month-year` date in the
/// filename segment between the first two underscores.
pub open spec fn spec_hdfc_profile(password: Seq<char>) -> ProfileView {
    ProfileView {
        issuer_id: "HDFC"@,
        pattern: seq![53u8, 53, 56, 57],
        password: password,
        accepted_exit_codes: seq![0i32, 2, 3],
        date_source: DateSource::FilenameEmbedded,
        subpath: seq!["Bank Accounts"@, "Varun - HDFC"@, "Credit Card statement"@],
    }
}

/// The issuer whose statements carry a `Month day, year` date after the
/// statement-date label in their extracted text.
pub open spec fn spec_icici_profile(password: Seq<char>) -> ProfileView {
    ProfileView {
        issuer_id: "ICICI"@,
        pattern: seq![53u8, 50, 52, 49],
        password: password,
        accepted_exit_codes: seq![0i32, 3],
        date_source: DateSource::DocumentText,
        subpath: seq!["Bank Accounts"@, "Varun - ICICI"@, "Credit Card statement"@],
    }
}

pub fn hdfc_profile(password: String) -> (p: IssuerProfile)
    ensures
        p@ == spec_hdfc_profile(password@),
{
    let mut pattern: Vec<u8> = Vec::new();
    pattern.push(53);
    pattern.push(53);
    pattern.push(56);
    pattern.push(57);
    let mut codes: Vec<i32> = Vec::new();
    codes.push(0);
    codes.push(2);
    codes.push(3);
    let mut subpath: Vec<String> = Vec::new();
    subpath.push("Bank Accounts".to_owned());
    subpath.push("Varun - HDFC".to_owned());
    subpath.push("Credit Card statement".to_owned());
    let p = IssuerProfile {
        issuer_id: "HDFC".to_owned(),
        filename_match_pattern: pattern,
        decryption_password: password,
        accepted_exit_codes: codes,
        date_source: DateSource::FilenameEmbedded,
        archive_subpath_segments: subpath,
    };
    proof {
        assert(p@.pattern =~= spec_hdfc_profile(password@).pattern);
        assert(p@.accepted_exit_codes =~= spec_hdfc_profile(password@).accepted_exit_codes);
        assert(p@.subpath =~~= spec_hdfc_profile(password@).subpath);
        assert(p@ =~~= spec_hdfc_profile(password@));
    }
    p
}

pub fn icici_profile(password: String) -> (p: IssuerProfile)
    ensures
        p@ == spec_icici_profile(password@),
{
    let mut pattern: Vec<u8> = Vec::new();
    pattern.push(53);
    pattern.push(50);
    pattern.push(52);
    pattern.push(49);
    let mut codes: Vec<i32> = Vec::new();
    codes.push(0);
    codes.push(3);
    let mut subpath: Vec<String> = Vec::new();
    subpath.push("Bank Accounts".to_owned());
    subpath.push("Varun - ICICI".to_owned());
    subpath.push("Credit Card statement".to_owned());
    let p = IssuerProfile {
        issuer_id: "ICICI".to_owned(),
        filename_match_pattern: pattern,
        decryption_password: password,
        accepted_exit_codes: codes,
        date_source: DateSource::DocumentText,
        archive_subpath_segments: subpath,
    };
    proof {
        assert(p@.pattern =~= spec_icici_profile(password@).pattern);
        assert(p@.accepted_exit_codes =~= spec_icici_profile(password@).accepted_exit_codes);
        assert(p@.subpath =~~= spec_icici_profile(password@).subpath);
        assert(p@ =~~= spec_icici_profile(password@));
    }
    p
}

} // verus!
