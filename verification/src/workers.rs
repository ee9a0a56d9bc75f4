//! The pending-job run: pull queued jobs one at a time and execute them
//! in dependency order until the queue is empty or a limit is reached.
//!
//! The application performs the catalog reads and writes and runs the
//! workers; this module decides what each job needs and keeps the
//! counts. One job's failure never stops the run.
use vstd::prelude::*;
use crate::catalog::JobRecord;
use crate::ids::FileId;
use crate::vocab::{JobStatus, JobType};

verus! {

/// The work a job calls for.
#[derive(Debug, Clone)]
pub enum JobAction {
    /// Extract (and cache) the file's text.
    Extract(FileId),
    /// Chunk the extracted text and index it for keyword search.
    ChunkAndIndex(FileId),
    /// Nothing to run: a job without a file, or a kind with no worker
    /// yet. It counts as succeeded.
    Nothing,
}

/// The action for a job's kind and file.
pub open spec fn action_for(job_type: JobType, file_id: Option<FileId>) -> JobAction {
    match file_id {
        Some(f) => match job_type {
            JobType::Extract => JobAction::Extract(f),
            JobType::Chunk | JobType::KeywordIndex => JobAction::ChunkAndIndex(f),
            _ => JobAction::Nothing,
        },
        None => JobAction::Nothing,
    }
}

/// What a job calls for: extraction jobs run the extraction worker,
/// chunk and keyword-index jobs the chunk-and-index worker; jobs without
/// a file and other kinds need nothing.
pub fn job_action(job: &JobRecord) -> (a: JobAction)
    ensures
        a == action_for(job.job_type, job.file_id),
{
    match &job.file_id {
        Some(f) => match job.job_type {
            JobType::Extract => JobAction::Extract(f.duplicate()),
            JobType::Chunk | JobType::KeywordIndex => JobAction::ChunkAndIndex(f.duplicate()),
            _ => JobAction::Nothing,
        },
        None => JobAction::Nothing,
    }
}

/// Progress of a run over the job queue.
pub struct PendingRun {
    /// Jobs taken from the queue so far.
    pub processed: u32,
    /// Jobs that succeeded so far.
    pub succeeded: u64,
    /// The most jobs this run may take.
    pub limit: u32,
}

impl PendingRun {
    /// The run's counts are consistent.
    pub open spec fn wf(&self) -> bool {
        self.succeeded <= self.processed <= self.limit
    }

    /// A run that may take up to `limit` jobs.
    pub fn new(limit: u32) -> (r: Self)
        ensures
            r.wf(),
            r.processed == 0,
            r.succeeded == 0,
            r.limit == limit,
    {
        PendingRun { processed: 0, succeeded: 0, limit }
    }

    /// Whether the run may take another job from the queue.
    pub fn wants_more(&self) -> (b: bool)
        ensures
            b == (self.processed < self.limit),
    {
        self.processed < self.limit
    }

    /// The status a job takes when it is picked up.
    pub fn start_job(&self) -> (s: JobStatus)
        ensures
            s == JobStatus::Running,
    {
        JobStatus::Running
    }

    /// Record a job's result and give the status it ends in: succeeded
    /// jobs are counted, failed ones are marked failed and the run goes
    /// on.
    pub fn finish_job(&mut self, ok: bool) -> (s: JobStatus)
        requires
            old(self).wf(),
            old(self).processed < old(self).limit,
        ensures
            final(self).wf(),
            final(self).limit == old(self).limit,
            final(self).processed == old(self).processed + 1,
            final(self).succeeded == old(self).succeeded + (if ok { 1int } else { 0int }),
            s == (if ok { JobStatus::Succeeded } else { JobStatus::Failed }),
    {
        self.processed = self.processed + 1;
        if ok {
            self.succeeded = self.succeeded + 1;
            JobStatus::Succeeded
        } else {
            JobStatus::Failed
        }
    }
}

/// Which timestamps a status change records: (start time, completion
/// time). Starting a job records when it started; succeeding, failing
/// or being canceled records when it completed; other changes record
/// neither.
pub fn status_timestamps(status: JobStatus) -> (r: (bool, bool))
    ensures
        r.0 == (status == JobStatus::Running),
        r.1 == (status == JobStatus::Succeeded || status == JobStatus::Failed || status
            == JobStatus::Canceled),
{
    match status {
        JobStatus::Running => (true, false),
        JobStatus::Succeeded | JobStatus::Failed | JobStatus::Canceled => (false, true),
        _ => (false, false),
    }
}


} // verus!
