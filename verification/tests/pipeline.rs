//! Scenario tests driving the worker protocol end to end.

use paperless_ingest::upload::{build_document_part, may_delete, UploadResult};
use paperless_ingest::worker::{worker_step, WorkerAction, WorkerEvent, WorkerPhase};

#[test]
fn created_pdf_is_uploaded_and_deleted_on_200() {
    // A freshly created file first sits out the full settle delay.
    let (phase, action) = worker_step(WorkerPhase::Starting, WorkerEvent::Begin);
    assert!(matches!(action, WorkerAction::Wait(60)));
    assert!(matches!(phase, WorkerPhase::Settling));

    // After the delay the file is read and the multipart part built.
    let (phase, action) = worker_step(phase, WorkerEvent::SettleElapsed);
    assert!(matches!(action, WorkerAction::ReadFile));
    let bytes: Vec<u8> = b"%PDF-1.4 example".to_vec();
    let part = match build_document_part("/watched/report.pdf", bytes.clone()) {
        Ok(part) => part,
        Err(_) => panic!("a path with a file name must yield a part"),
    };
    assert_eq!(part.part_name, "document");
    assert_eq!(part.file_name, "report.pdf");
    assert_eq!(part.bytes, bytes);

    // The request goes out; the remote service accepts with 200.
    let (phase, action) = worker_step(phase, WorkerEvent::FileRead);
    assert!(matches!(action, WorkerAction::SendRequest));
    let (phase, action) = worker_step(phase, WorkerEvent::StatusReceived(200));
    assert!(matches!(action, WorkerAction::DeleteFile));

    // Only now is the local copy deleted, and the job ends accepted with 200,
    // which is what the driving loop logs at info level.
    let (phase, action) = worker_step(phase, WorkerEvent::FileDeleted);
    assert!(matches!(action, WorkerAction::Stop));
    match phase {
        WorkerPhase::Finished(outcome) => {
            assert!(matches!(outcome, UploadResult::Accepted(200)));
            assert!(may_delete(&outcome));
        }
        _ => panic!("the run must be finished"),
    }
}

#[test]
fn rejected_txt_is_kept_on_401_without_retry() {
    let (phase, action) = worker_step(WorkerPhase::Starting, WorkerEvent::Begin);
    assert!(matches!(action, WorkerAction::Wait(60)));
    let (phase, _) = worker_step(phase, WorkerEvent::SettleElapsed);
    let part = build_document_part("/watched/draft.txt", b"draft".to_vec()).unwrap();
    assert_eq!(part.file_name, "draft.txt");
    let (phase, action) = worker_step(phase, WorkerEvent::FileRead);
    assert!(matches!(action, WorkerAction::SendRequest));

    // The remote service answers 401: the job ends at once, no delete is
    // ordered and no further attempt is made.
    let (phase, action) = worker_step(phase, WorkerEvent::StatusReceived(401));
    assert!(matches!(action, WorkerAction::Stop));
    match phase {
        WorkerPhase::Finished(outcome) => {
            assert!(matches!(outcome, UploadResult::HttpFailure(401)));
            assert!(!may_delete(&outcome));
        }
        _ => panic!("the run must be finished"),
    }
}

#[test]
fn unreachable_host_is_a_transport_failure_not_an_http_failure() {
    let (phase, _) = worker_step(WorkerPhase::Starting, WorkerEvent::Begin);
    let (phase, _) = worker_step(phase, WorkerEvent::SettleElapsed);
    let (phase, action) = worker_step(phase, WorkerEvent::FileRead);
    assert!(matches!(action, WorkerAction::SendRequest));

    let refused = WorkerEvent::TransportFailed("connection refused".to_string());
    let (phase, action) = worker_step(phase, refused);
    assert!(matches!(action, WorkerAction::Stop));
    match phase {
        WorkerPhase::Finished(outcome) => {
            assert!(matches!(outcome, UploadResult::TransportFailure(_)));
            assert!(!matches!(outcome, UploadResult::HttpFailure(_)));
            assert!(!may_delete(&outcome));
        }
        _ => panic!("the run must be finished"),
    }
}

#[test]
fn unreadable_file_is_a_local_failure_without_an_attempt() {
    let (phase, _) = worker_step(WorkerPhase::Starting, WorkerEvent::Begin);
    let (phase, action) = worker_step(phase, WorkerEvent::SettleElapsed);
    assert!(matches!(action, WorkerAction::ReadFile));
    let failed = WorkerEvent::ReadFailed("permission denied".to_string());
    let (phase, action) = worker_step(phase, failed);
    assert!(matches!(action, WorkerAction::Stop));
    match phase {
        WorkerPhase::Finished(outcome) => {
            assert!(matches!(outcome, UploadResult::LocalIoFailure(_)));
            assert!(!may_delete(&outcome));
        }
        _ => panic!("the run must be finished"),
    }
}

#[test]
fn two_files_in_the_same_second_get_independent_workers() {
    // Two files created together: each worker runs its own settle delay and
    // its own attempt. The two runs are interleaved here in one order, but
    // nothing is asserted about which finishes first relative to the other.
    let (a, act_a) = worker_step(WorkerPhase::Starting, WorkerEvent::Begin);
    let (b, act_b) = worker_step(WorkerPhase::Starting, WorkerEvent::Begin);
    assert!(matches!(act_a, WorkerAction::Wait(60)));
    assert!(matches!(act_b, WorkerAction::Wait(60)));

    let part_a = build_document_part("/watched/a.pdf", b"a".to_vec()).unwrap();
    let part_b = build_document_part("/watched/b.pdf", b"b".to_vec()).unwrap();
    assert_eq!(part_a.file_name, "a.pdf");
    assert_eq!(part_b.file_name, "b.pdf");

    let (b, _) = worker_step(b, WorkerEvent::SettleElapsed);
    let (a, _) = worker_step(a, WorkerEvent::SettleElapsed);
    let (a, act_a) = worker_step(a, WorkerEvent::FileRead);
    let (b, act_b) = worker_step(b, WorkerEvent::FileRead);
    assert!(matches!(act_a, WorkerAction::SendRequest));
    assert!(matches!(act_b, WorkerAction::SendRequest));

    // One worker's failure leaves the other's success untouched.
    let (b, _) = worker_step(b, WorkerEvent::StatusReceived(503));
    let (a, act_a) = worker_step(a, WorkerEvent::StatusReceived(201));
    assert!(matches!(act_a, WorkerAction::DeleteFile));
    let (a, _) = worker_step(a, WorkerEvent::FileDeleted);
    assert!(matches!(a, WorkerPhase::Finished(UploadResult::Accepted(201))));
    assert!(matches!(b, WorkerPhase::Finished(UploadResult::HttpFailure(503))));
}

#[test]
fn delete_failure_after_acceptance_ends_as_local_failure() {
    let (phase, _) = worker_step(WorkerPhase::Starting, WorkerEvent::Begin);
    let (phase, _) = worker_step(phase, WorkerEvent::SettleElapsed);
    let (phase, _) = worker_step(phase, WorkerEvent::FileRead);
    let (phase, action) = worker_step(phase, WorkerEvent::StatusReceived(302));
    assert!(matches!(action, WorkerAction::DeleteFile));
    let failed = WorkerEvent::DeleteFailed("file busy".to_string());
    let (phase, action) = worker_step(phase, failed);
    assert!(matches!(action, WorkerAction::Stop));
    assert!(matches!(phase, WorkerPhase::Finished(UploadResult::LocalIoFailure(_))));
}
