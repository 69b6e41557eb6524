//! The per-file processing machine and the run-level policy. Each matched
//! file is driven through decrypt, date extraction, archive copy, and the
//! ordered temp/inbox deletes; every decision is a transition of
//! [`file_transition`]. A run records one outcome per file and halts at
//! the first outcome that is not a success.

use vstd::prelude::*;

use crate::Config;
use crate::archive::{
    spec_archive_target, build_archive_target, ArchiveTarget, ArchiveTargetView,
};
use crate::dates::StatementDate;
use crate::extract::{
    spec_filename_date, spec_text_date, extract_date_from_filename, extract_date_from_text,
};
use crate::issuers::{
    DateSource, IssuerProfile, ProfileView, spec_hdfc_profile, spec_icici_profile, hdfc_profile,
    icici_profile,
};

verus! {

/// How processing one file ended.
#[derive(Clone, Copy, Debug, PartialEq, Eq, Structural)]
pub enum ProcessingOutcome {
    /// Archived and removed from the inbox.
    Success,
    /// The decrypt utility exited with a code the issuer does not accept.
    DecryptionFailed,
    /// No statement date could be extracted.
    DateExtractionFailed,
    /// The archive copy or the required inbox delete failed.
    FilesystemFailed,
}

/// Where the processing of one file stands; what outside result it awaits.
#[derive(Clone, Copy, Debug, PartialEq, Eq, Structural)]
pub enum FileState {
    /// Awaiting the decrypt utility's exit code.
    AwaitingDecrypt,
    /// Awaiting the document's extracted text.
    AwaitingText,
    /// Awaiting the result of the copy into the archive.
    AwaitingCopy { date: StatementDate },
    /// Awaiting the result of the best-effort temp-file delete.
    AwaitingTempDelete { date: StatementDate },
    /// Awaiting the result of the required inbox delete.
    AwaitingInboxDelete { date: StatementDate },
    /// Processing of this file has ended.
    Done { outcome: ProcessingOutcome },
}

/// One outside result, handed back to the machine.
pub enum FileEvent {
    DecryptFinished { exit_code: i32 },
    TextExtracted { text: Vec<u8> },
    CopyFinished { ok: bool },
    TempDeleteFinished { ok: bool },
    InboxDeleteFinished { ok: bool },
}

/// The mathematical content of a [`FileEvent`].
pub ghost enum EventModel {
    DecryptFinished { exit_code: i32 },
    TextExtracted { text: Seq<u8> },
    CopyFinished { ok: bool },
    TempDeleteFinished { ok: bool },
    InboxDeleteFinished { ok: bool },
}

impl View for FileEvent {
    type V = EventModel;

    open spec fn view(&self) -> EventModel {
        match self {
            FileEvent::DecryptFinished { exit_code } => EventModel::DecryptFinished {
                exit_code: *exit_code,
            },
            FileEvent::TextExtracted { text } => EventModel::TextExtracted { text: text@ },
            FileEvent::CopyFinished { ok } => EventModel::CopyFinished { ok: *ok },
            FileEvent::TempDeleteFinished { ok } => EventModel::TempDeleteFinished { ok: *ok },
            FileEvent::InboxDeleteFinished { ok } => EventModel::InboxDeleteFinished { ok: *ok },
        }
    }
}

/// What the machine asks to be done next.
pub enum FileAction {
    /// Run the text-extraction utility over the decrypted temp file.
    ExtractText,
    /// Create the target directory and copy the temp file to the target.
    CopyToArchive { target: ArchiveTarget },
    /// Delete the decrypted temp file; failure is tolerated.
    DeleteTempFile,
    /// Delete the original file from the inbox; failure is fatal.
    DeleteInboxFile,
    /// Processing ended; record this outcome.
    Report { outcome: ProcessingOutcome },
}

/// The mathematical content of a [`FileAction`].
pub ghost enum ActionModel {
    ExtractText,
    CopyToArchive { target: ArchiveTargetView },
    DeleteTempFile,
    DeleteInboxFile,
    Report { outcome: ProcessingOutcome },
}

impl View for FileAction {
    type V = ActionModel;

    open spec fn view(&self) -> ActionModel {
        match self {
            FileAction::ExtractText => ActionModel::ExtractText,
            FileAction::CopyToArchive { target } => ActionModel::CopyToArchive {
                target: target@,
            },
            FileAction::DeleteTempFile => ActionModel::DeleteTempFile,
            FileAction::DeleteInboxFile => ActionModel::DeleteInboxFile,
            FileAction::Report { outcome } => ActionModel::Report { outcome: *outcome },
        }
    }
}

/// Which event each state awaits; a finished file awaits nothing.
pub open spec fn state_expects(state: FileState, event: EventModel) -> bool {
    match state {
        FileState::AwaitingDecrypt => event is DecryptFinished,
        FileState::AwaitingText => event is TextExtracted,
        FileState::AwaitingCopy { .. } => event is CopyFinished,
        FileState::AwaitingTempDelete { .. } => event is TempDeleteFinished,
        FileState::AwaitingInboxDelete { .. } => event is InboxDeleteFinished,
        FileState::Done { .. } => false,
    }
}

/// The per-file policy: given where processing stands and the outside
/// result that arrived, the next state and the next action.
///
/// An exit code outside the issuer's accepted set, a missing date, a
/// failed copy, and a failed inbox delete each end the file with its
/// failure outcome; a failed temp delete is tolerated. The final arm is
/// never reached for an awaited event.
pub open spec fn file_transition(
    profile: ProfileView,
    filename: Seq<u8>,
    root: Seq<char>,
    state: FileState,
    event: EventModel,
) -> (FileState, ActionModel) {
    match (state, event) {
        (FileState::AwaitingDecrypt, EventModel::DecryptFinished { exit_code }) => {
            if !profile.accepted_exit_codes.contains(exit_code) {
                (
                    FileState::Done { outcome: ProcessingOutcome::DecryptionFailed },
                    ActionModel::Report { outcome: ProcessingOutcome::DecryptionFailed },
                )
            } else {
                match profile.date_source {
                    DateSource::FilenameEmbedded => match spec_filename_date(filename) {
                        Some(date) => (
                            FileState::AwaitingCopy { date },
                            ActionModel::CopyToArchive {
                                target: spec_archive_target(profile, date, root),
                            },
                        ),
                        None => (
                            FileState::Done { outcome: ProcessingOutcome::DateExtractionFailed },
                            ActionModel::Report {
                                outcome: ProcessingOutcome::DateExtractionFailed,
                            },
                        ),
                    },
                    DateSource::DocumentText => (FileState::AwaitingText, ActionModel::ExtractText),
                }
            }
        },
        (FileState::AwaitingText, EventModel::TextExtracted { text }) => {
            match spec_text_date(text) {
                Some(date) => (
                    FileState::AwaitingCopy { date },
                    ActionModel::CopyToArchive {
                        target: spec_archive_target(profile, date, root),
                    },
                ),
                None => (
                    FileState::Done { outcome: ProcessingOutcome::DateExtractionFailed },
                    ActionModel::Report { outcome: ProcessingOutcome::DateExtractionFailed },
                ),
            }
        },
        (FileState::AwaitingCopy { date }, EventModel::CopyFinished { ok }) => {
            if ok {
                (FileState::AwaitingTempDelete { date }, ActionModel::DeleteTempFile)
            } else {
                (
                    FileState::Done { outcome: ProcessingOutcome::FilesystemFailed },
                    ActionModel::Report { outcome: ProcessingOutcome::FilesystemFailed },
                )
            }
        },
        (FileState::AwaitingTempDelete { date }, EventModel::TempDeleteFinished { .. }) => (
            FileState::AwaitingInboxDelete { date },
            ActionModel::DeleteInboxFile,
        ),
        (FileState::AwaitingInboxDelete { .. }, EventModel::InboxDeleteFinished { ok }) => {
            if ok {
                (
                    FileState::Done { outcome: ProcessingOutcome::Success },
                    ActionModel::Report { outcome: ProcessingOutcome::Success },
                )
            } else {
                (
                    FileState::Done { outcome: ProcessingOutcome::FilesystemFailed },
                    ActionModel::Report { outcome: ProcessingOutcome::FilesystemFailed },
                )
            }
        },
        _ => (state, ActionModel::Report { outcome: ProcessingOutcome::FilesystemFailed }),
    }
}

/// Advances the processing of one file by one outside result.
pub fn file_step(
    profile: &IssuerProfile,
    filename: &[u8],
    archive_root: &String,
    state: FileState,
    event: FileEvent,
) -> (r: (FileState, FileAction))
    requires
        state_expects(state, event@),
    ensures
        r.0 == file_transition(profile@, filename@, archive_root@, state, event@).0,
        r.1@ == file_transition(profile@, filename@, archive_root@, state, event@).1,
{
    match (state, event) {
        (FileState::AwaitingDecrypt, FileEvent::DecryptFinished { exit_code }) => {
            if !profile.exit_code_accepted(exit_code) {
                (
                    FileState::Done { outcome: ProcessingOutcome::DecryptionFailed },
                    FileAction::Report { outcome: ProcessingOutcome::DecryptionFailed },
                )
            } else {
                match profile.date_source {
                    DateSource::FilenameEmbedded => match extract_date_from_filename(filename) {
                        Some(date) => {
                            let target = build_archive_target(profile, date, archive_root);
                            (FileState::AwaitingCopy { date }, FileAction::CopyToArchive { target })
                        },
                        None => (
                            FileState::Done { outcome: ProcessingOutcome::DateExtractionFailed },
                            FileAction::Report {
                                outcome: ProcessingOutcome::DateExtractionFailed,
                            },
                        ),
                    },
                    DateSource::DocumentText => (FileState::AwaitingText, FileAction::ExtractText),
                }
            }
        },
        (FileState::AwaitingText, FileEvent::TextExtracted { text }) => {
            match extract_date_from_text(text.as_slice()) {
                Some(date) => {
                    let target = build_archive_target(profile, date, archive_root);
                    (FileState::AwaitingCopy { date }, FileAction::CopyToArchive { target })
                },
                None => (
                    FileState::Done { outcome: ProcessingOutcome::DateExtractionFailed },
                    FileAction::Report { outcome: ProcessingOutcome::DateExtractionFailed },
                ),
            }
        },
        (FileState::AwaitingCopy { date }, FileEvent::CopyFinished { ok }) => {
            if ok {
                (FileState::AwaitingTempDelete { date }, FileAction::DeleteTempFile)
            } else {
                (
                    FileState::Done { outcome: ProcessingOutcome::FilesystemFailed },
                    FileAction::Report { outcome: ProcessingOutcome::FilesystemFailed },
                )
            }
        },
        (FileState::AwaitingTempDelete { date }, FileEvent::TempDeleteFinished { .. }) => (
            FileState::AwaitingInboxDelete { date },
            FileAction::DeleteInboxFile,
        ),
        (FileState::AwaitingInboxDelete { .. }, FileEvent::InboxDeleteFinished { ok }) => {
            if ok {
                (
                    FileState::Done { outcome: ProcessingOutcome::Success },
                    FileAction::Report { outcome: ProcessingOutcome::Success },
                )
            } else {
                (
                    FileState::Done { outcome: ProcessingOutcome::FilesystemFailed },
                    FileAction::Report { outcome: ProcessingOutcome::FilesystemFailed },
                )
            }
        },
        _ => (state, FileAction::Report { outcome: ProcessingOutcome::FilesystemFailed }),
    }
}

/// One pipeline run: the issuers in processing order, the directories the
/// run works with, the outcomes recorded so far, and whether a fatal
/// outcome has halted the run.
pub struct RunState {
    pub issuers: Vec<IssuerProfile>,
    pub archive_root: String,
    pub temp_dir: String,
    pub inbox_dir: String,
    pub outcomes: Vec<ProcessingOutcome>,
    pub halted: bool,
}

/// The mathematical content of a [`RunState`].
#[verifier::ext_equal]
pub ghost struct RunModel {
    pub issuers: Seq<ProfileView>,
    pub archive_root: Seq<char>,
    pub temp_dir: Seq<char>,
    pub inbox_dir: Seq<char>,
    pub outcomes: Seq<ProcessingOutcome>,
    pub halted: bool,
}

impl DeepView for IssuerProfile {
    type V = ProfileView;

    open spec fn deep_view(&self) -> ProfileView {
        self.view()
    }
}

impl View for RunState {
    type V = RunModel;

    open spec fn view(&self) -> RunModel {
        RunModel {
            issuers: self.issuers.deep_view(),
            archive_root: self.archive_root@,
            temp_dir: self.temp_dir@,
            inbox_dir: self.inbox_dir@,
            outcomes: self.outcomes@,
            halted: self.halted,
        }
    }
}

/// A run after recording one file's outcome: the outcome is appended, and
/// any outcome other than success halts the run.
pub open spec fn spec_run_after_record(r: RunModel, outcome: ProcessingOutcome) -> RunModel {
    RunModel {
        outcomes: r.outcomes.push(outcome),
        halted: r.halted || outcome != ProcessingOutcome::Success,
        ..r
    }
}

impl RunState {
    /// Files may be processed only while no fatal outcome has occurred.
    pub fn run_continues(&self) -> (r: bool)
        ensures
            r == !self@.halted,
    {
        !self.halted
    }

    /// Records one file's outcome. Any outcome but success is fatal: it
    /// halts the run, and nothing further may be recorded.
    pub fn record_outcome(&mut self, outcome: ProcessingOutcome)
        requires
            !old(self)@.halted,
        ensures
            final(self)@ == spec_run_after_record(old(self)@, outcome),
    {
        self.outcomes.push(outcome);
        if outcome != ProcessingOutcome::Success {
            self.halted = true;
        }
        proof {
            assert(self@ =~~= spec_run_after_record(old(self)@, outcome));
        }
    }
}

/// Begins a statement-filing run over the configured locations: the two
/// supported issuers in their processing order, no outcomes, not halted.
pub fn store_credit_card_statements(
    config: &Config,
    hdfc_password: String,
    icici_password: String,
) -> (r: RunState)
    ensures
        r@.issuers =~= seq![spec_hdfc_profile(hdfc_password@), spec_icici_profile(icici_password@)],
        r@.archive_root == config.storage_mount_path_local@,
        r@.temp_dir == config.temp_dir@,
        r@.inbox_dir == config.inbox_dir@,
        r@.outcomes == Seq::<ProcessingOutcome>::empty(),
        !r@.halted,
{
    let mut issuers: Vec<IssuerProfile> = Vec::new();
    issuers.push(hdfc_profile(hdfc_password));
    issuers.push(icici_profile(icici_password));
    let r = RunState {
        issuers,
        archive_root: config.storage_mount_path_local.clone(),
        temp_dir: config.temp_dir.clone(),
        inbox_dir: config.inbox_dir.clone(),
        outcomes: Vec::new(),
        halted: false,
    };
    proof {
        assert(r@.issuers =~= seq![
            spec_hdfc_profile(hdfc_password@),
            spec_icici_profile(icici_password@),
        ]);
        assert(r@.outcomes =~= Seq::<ProcessingOutcome>::empty());
    }
    r
}

/// Each matched file admits exactly one decrypt attempt: the machine
/// starts awaiting a decrypt result, only a decrypt result is accepted
/// there, and no transition ever leads back to that state.
pub proof fn lemma_one_decrypt_per_file(
    profile: ProfileView,
    filename: Seq<u8>,
    root: Seq<char>,
    state: FileState,
    event: EventModel,
)
    ensures
        state_expects(FileState::AwaitingDecrypt, event) <==> event is DecryptFinished,
        state_expects(state, event) && event is DecryptFinished ==> state is AwaitingDecrypt,
        state_expects(state, event) ==> !(file_transition(
            profile,
            filename,
            root,
            state,
            event,
        ).0 is AwaitingDecrypt),
{
}

/// A decrypt exit code outside the issuer's accepted set ends the file
/// with a decryption failure, and recording that outcome halts the run;
/// a halted run accepts no further outcome, so every remaining file of
/// this issuer and of every later issuer goes unprocessed.
pub proof fn lemma_rejected_exit_code_halts(
    profile: ProfileView,
    filename: Seq<u8>,
    root: Seq<char>,
    run: RunModel,
    exit_code: i32,
)
    requires
        !profile.accepted_exit_codes.contains(exit_code),
    ensures
        file_transition(
            profile,
            filename,
            root,
            FileState::AwaitingDecrypt,
            EventModel::DecryptFinished { exit_code },
        ) == (
            FileState::Done { outcome: ProcessingOutcome::DecryptionFailed },
            ActionModel::Report { outcome: ProcessingOutcome::DecryptionFailed },
        ),
        spec_run_after_record(run, ProcessingOutcome::DecryptionFailed).halted,
{
}

/// After a successful copy the machine deletes the temp file, tolerating
/// failure, then deletes the inbox file; if that required delete fails,
/// the file ends with a filesystem failure — the copied artifact stays in
/// the archive, and the inbox file, never removed, is still present.
pub proof fn lemma_copy_ok_inbox_delete_failed(
    profile: ProfileView,
    filename: Seq<u8>,
    root: Seq<char>,
    date: StatementDate,
    temp_ok: bool,
)
    ensures
        file_transition(
            profile,
            filename,
            root,
            FileState::AwaitingCopy { date },
            EventModel::CopyFinished { ok: true },
        ) == (FileState::AwaitingTempDelete { date }, ActionModel::DeleteTempFile),
        file_transition(
            profile,
            filename,
            root,
            FileState::AwaitingTempDelete { date },
            EventModel::TempDeleteFinished { ok: temp_ok },
        ) == (FileState::AwaitingInboxDelete { date }, ActionModel::DeleteInboxFile),
        file_transition(
            profile,
            filename,
            root,
            FileState::AwaitingInboxDelete { date },
            EventModel::InboxDeleteFinished { ok: false },
        ) == (
            FileState::Done { outcome: ProcessingOutcome::FilesystemFailed },
            ActionModel::Report { outcome: ProcessingOutcome::FilesystemFailed },
        ),
{
}

} // verus!
