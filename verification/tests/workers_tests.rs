use orbok::bench::{corpus_document, labeled_queries};
use orbok::catalog::JobRecord;
use orbok::ids::{FileId, JobId};
use orbok::vocab::{JobStatus, JobType};
use orbok::workers::{job_action, status_timestamps, JobAction, PendingRun};

fn job(job_type: JobType, file: Option<&str>) -> JobRecord {
    JobRecord {
        job_id: JobId::from_string("job_1".to_string()),
        source_id: None,
        file_id: file.map(|f| FileId::from_string(f.to_string())),
        job_type,
        status: JobStatus::Queued,
    }
}

#[test]
fn jobs_dispatch_to_their_worker() {
    match job_action(&job(JobType::Extract, Some("file_a"))) {
        JobAction::Extract(f) => assert_eq!(f.as_str(), "file_a"),
        other => panic!("unexpected {other:?}"),
    }
    match job_action(&job(JobType::KeywordIndex, Some("file_b"))) {
        JobAction::ChunkAndIndex(f) => assert_eq!(f.as_str(), "file_b"),
        other => panic!("unexpected {other:?}"),
    }
    assert!(matches!(job_action(&job(JobType::Chunk, None)), JobAction::Nothing));
    assert!(matches!(job_action(&job(JobType::Embed, Some("file_c"))), JobAction::Nothing));
}

#[test]
fn pending_run_counts_and_stops_at_limit() {
    let mut run = PendingRun::new(3);
    assert!(run.wants_more());
    assert_eq!(run.start_job(), JobStatus::Running);
    assert_eq!(run.finish_job(true), JobStatus::Succeeded);
    assert_eq!(run.finish_job(false), JobStatus::Failed);
    assert!(run.wants_more());
    assert_eq!(run.finish_job(true), JobStatus::Succeeded);
    assert!(!run.wants_more());
    assert_eq!(run.processed, 3);
    assert_eq!(run.succeeded, 2);
}

#[test]
fn labeled_query_set() {
    let qs = labeled_queries();
    assert_eq!(qs.len(), 8);
    assert_eq!(qs[0].query, "refresh token expiry");
    assert_eq!(qs[1].relevant_patterns, vec!["auth", "japanese"]);
    assert!(qs.iter().all(|q| !q.relevant_patterns.is_empty()));
}

#[test]
fn job_status_timestamps() {
    assert_eq!(status_timestamps(JobStatus::Running), (true, false));
    assert_eq!(status_timestamps(JobStatus::Succeeded), (false, true));
    assert_eq!(status_timestamps(JobStatus::Failed), (false, true));
    assert_eq!(status_timestamps(JobStatus::Canceled), (false, true));
    assert_eq!(status_timestamps(JobStatus::Queued), (false, false));
}

#[test]
fn corpus_documents_cycle_templates() {
    let (name, text) = corpus_document(0);
    assert_eq!(name, "auth-0000.md");
    assert!(text.starts_with("# Authentication\n"));
    assert!(text.ends_with("\n<!-- doc-0 -->\n"));
    let (name, text) = corpus_document(13);
    assert_eq!(name, "japanese-0013.md");
    assert!(text.starts_with("# 認証とストレージ"));
    assert!(text.ends_with("<!-- doc-13 -->\n"));
    assert_eq!(corpus_document(12345).0, "storage-12345.md");
}
