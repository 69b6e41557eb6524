use valet::Config;
use valet::dates::StatementDate;
use valet::issuers::{hdfc_profile, icici_profile, matching_files};
use valet::pipeline::{
    store_credit_card_statements, file_step, FileAction, FileEvent, FileState, ProcessingOutcome,
};

fn test_config() -> Config {
    Config {
        storage_mount_path_local: "/archive".to_owned(),
        storage_mount_path_remote: "//user@host/share".to_owned(),
        temp_dir: "/tmp/work".to_owned(),
        inbox_dir: "/inbox".to_owned(),
    }
}

#[test]
fn run_starts_with_both_issuers_in_order() {
    let run = store_credit_card_statements(&test_config(), "h".to_owned(), "i".to_owned());
    assert_eq!(run.issuers.len(), 2);
    assert_eq!(run.issuers[0].issuer_id, "HDFC");
    assert_eq!(run.issuers[1].issuer_id, "ICICI");
    assert_eq!(run.issuers[0].decryption_password, "h");
    assert_eq!(run.issuers[1].decryption_password, "i");
    assert_eq!(run.archive_root, "/archive");
    assert_eq!(run.inbox_dir, "/inbox");
    assert_eq!(run.temp_dir, "/tmp/work");
    assert!(run.outcomes.is_empty());
    assert!(run.run_continues());
}

#[test]
fn exit_code_tolerance_is_issuer_specific() {
    let hdfc = hdfc_profile("h".to_owned());
    let icici = icici_profile("i".to_owned());
    assert!(hdfc.exit_code_accepted(0));
    assert!(hdfc.exit_code_accepted(2));
    assert!(hdfc.exit_code_accepted(3));
    assert!(!hdfc.exit_code_accepted(1));
    assert!(icici.exit_code_accepted(0));
    assert!(!icici.exit_code_accepted(2));
    assert!(icici.exit_code_accepted(3));
    assert!(!icici.exit_code_accepted(1));
}

#[test]
fn matching_keeps_exactly_the_pattern_matches() {
    let hdfc = hdfc_profile("h".to_owned());
    let names: Vec<Vec<u8>> = vec![
        b"A_01-03-2023_5589.pdf".to_vec(),
        b"unrelated.txt".to_vec(),
        b"B_02-04-2023_5589.pdf".to_vec(),
        b"C_02-04-2023_5241.pdf".to_vec(),
    ];
    let m = matching_files(&hdfc, &names);
    assert_eq!(
        m,
        vec![b"A_01-03-2023_5589.pdf".to_vec(), b"B_02-04-2023_5589.pdf".to_vec()]
    );
}

#[test]
fn rejected_exit_code_halts_the_whole_run() {
    let mut run = store_credit_card_statements(&test_config(), "h".to_owned(), "i".to_owned());
    let hdfc = run.issuers[0].clone();
    let (state, action) = file_step(
        &hdfc,
        b"A_01-03-2023_5589.pdf",
        &run.archive_root,
        FileState::AwaitingDecrypt,
        FileEvent::DecryptFinished { exit_code: 1 },
    );
    assert_eq!(state, FileState::Done { outcome: ProcessingOutcome::DecryptionFailed });
    match action {
        FileAction::Report { outcome } => {
            assert_eq!(outcome, ProcessingOutcome::DecryptionFailed);
            run.record_outcome(outcome);
        }
        _ => panic!("expected a report"),
    }
    assert!(!run.run_continues());
    assert_eq!(run.outcomes, vec![ProcessingOutcome::DecryptionFailed]);
}

#[test]
fn unextractable_date_fails_the_run() {
    let mut run = store_credit_card_statements(&test_config(), "h".to_owned(), "i".to_owned());
    let hdfc = run.issuers[0].clone();
    let (state, action) = file_step(
        &hdfc,
        b"NoDateHere5589.pdf",
        &run.archive_root,
        FileState::AwaitingDecrypt,
        FileEvent::DecryptFinished { exit_code: 0 },
    );
    assert_eq!(state, FileState::Done { outcome: ProcessingOutcome::DateExtractionFailed });
    match action {
        FileAction::Report { outcome } => run.record_outcome(outcome),
        _ => panic!("expected a report"),
    }
    assert!(!run.run_continues());
}

#[test]
fn failed_copy_is_a_filesystem_failure() {
    let hdfc = hdfc_profile("h".to_owned());
    let root = "/archive".to_owned();
    let date = StatementDate { year: 2023, month: 3, day: 1 };
    let (state, action) = file_step(
        &hdfc,
        b"A_01-03-2023_5589.pdf",
        &root,
        FileState::AwaitingCopy { date },
        FileEvent::CopyFinished { ok: false },
    );
    assert_eq!(state, FileState::Done { outcome: ProcessingOutcome::FilesystemFailed });
    assert!(matches!(
        action,
        FileAction::Report { outcome: ProcessingOutcome::FilesystemFailed }
    ));
}

#[test]
fn copy_ok_but_inbox_delete_failure_is_reported() {
    let hdfc = hdfc_profile("h".to_owned());
    let root = "/archive".to_owned();
    let name: &[u8] = b"A_01-03-2023_5589.pdf";
    let date = StatementDate { year: 2023, month: 3, day: 1 };
    let (state, action) = file_step(
        &hdfc,
        name,
        &root,
        FileState::AwaitingCopy { date },
        FileEvent::CopyFinished { ok: true },
    );
    assert_eq!(state, FileState::AwaitingTempDelete { date });
    assert!(matches!(action, FileAction::DeleteTempFile));
    // A failed temp delete is tolerated: processing still moves on to the
    // required inbox delete.
    let (state, action) = file_step(
        &hdfc,
        name,
        &root,
        state,
        FileEvent::TempDeleteFinished { ok: false },
    );
    assert_eq!(state, FileState::AwaitingInboxDelete { date });
    assert!(matches!(action, FileAction::DeleteInboxFile));
    let (state, action) = file_step(
        &hdfc,
        name,
        &root,
        state,
        FileEvent::InboxDeleteFinished { ok: false },
    );
    assert_eq!(state, FileState::Done { outcome: ProcessingOutcome::FilesystemFailed });
    assert!(matches!(
        action,
        FileAction::Report { outcome: ProcessingOutcome::FilesystemFailed }
    ));
}

#[test]
fn hdfc_file_end_to_end() {
    let mut run = store_credit_card_statements(&test_config(), "h".to_owned(), "i".to_owned());
    let hdfc = run.issuers[0].clone();
    let names: Vec<Vec<u8>> = vec![b"A_01-03-2023_5589.pdf".to_vec(), b"other.txt".to_vec()];
    let matches = matching_files(&hdfc, &names);
    assert_eq!(matches.len(), 1);
    let name = matches[0].as_slice();

    let (state, action) = file_step(
        &hdfc,
        name,
        &run.archive_root,
        FileState::AwaitingDecrypt,
        FileEvent::DecryptFinished { exit_code: 0 },
    );
    let date = StatementDate { year: 2023, month: 3, day: 1 };
    assert_eq!(state, FileState::AwaitingCopy { date });
    let target = match action {
        FileAction::CopyToArchive { target } => target,
        _ => panic!("expected a copy"),
    };
    assert_eq!(
        target.directory_segments,
        vec![
            "/archive".to_owned(),
            "Bank Accounts".to_owned(),
            "Varun - HDFC".to_owned(),
            "Credit Card statement".to_owned(),
            "2023".to_owned(),
        ]
    );
    assert_eq!(target.filename, "2023-03-01.pdf");

    let (state, action) = file_step(
        &hdfc,
        name,
        &run.archive_root,
        state,
        FileEvent::CopyFinished { ok: true },
    );
    assert_eq!(state, FileState::AwaitingTempDelete { date });
    assert!(matches!(action, FileAction::DeleteTempFile));
    let (state, action) = file_step(
        &hdfc,
        name,
        &run.archive_root,
        state,
        FileEvent::TempDeleteFinished { ok: true },
    );
    assert_eq!(state, FileState::AwaitingInboxDelete { date });
    assert!(matches!(action, FileAction::DeleteInboxFile));
    let (state, action) = file_step(
        &hdfc,
        name,
        &run.archive_root,
        state,
        FileEvent::InboxDeleteFinished { ok: true },
    );
    assert_eq!(state, FileState::Done { outcome: ProcessingOutcome::Success });
    match action {
        FileAction::Report { outcome } => {
            assert_eq!(outcome, ProcessingOutcome::Success);
            run.record_outcome(outcome);
        }
        _ => panic!("expected a report"),
    }
    assert!(run.run_continues());
    assert_eq!(run.outcomes, vec![ProcessingOutcome::Success]);
}

#[test]
fn icici_file_takes_the_text_route() {
    let icici = icici_profile("i".to_owned());
    let root = "/archive".to_owned();
    let name: &[u8] = b"statement_5241.pdf";
    let (state, action) = file_step(
        &icici,
        name,
        &root,
        FileState::AwaitingDecrypt,
        FileEvent::DecryptFinished { exit_code: 3 },
    );
    assert_eq!(state, FileState::AwaitingText);
    assert!(matches!(action, FileAction::ExtractText));
    let text = b"Some header\nStatement Date\nJanuary 5, 2024\nrest".to_vec();
    let (state, action) = file_step(&icici, name, &root, state, FileEvent::TextExtracted { text });
    let date = StatementDate { year: 2024, month: 1, day: 5 };
    assert_eq!(state, FileState::AwaitingCopy { date });
    let target = match action {
        FileAction::CopyToArchive { target } => target,
        _ => panic!("expected a copy"),
    };
    assert_eq!(
        target.directory_segments,
        vec![
            "/archive".to_owned(),
            "Bank Accounts".to_owned(),
            "Varun - ICICI".to_owned(),
            "Credit Card statement".to_owned(),
            "2024".to_owned(),
        ]
    );
    assert_eq!(target.filename, "2024-01-05.pdf");
}
