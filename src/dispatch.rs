use vstd::prelude::*;

use crate::jobs::JobId;
use crate::notification::{JobStatus, SocketMessage};
use crate::registry::{ConnectionRegistry, JobRegistry};
use crate::response::{artifact_of, find_export_task, first_export, Job, JobTask, TaskFile};

verus! {

broadcast use crate::notification::SocketMessage::lemma_message_parts;

/// Why a completion callback led to no delivery.
#[derive(PartialEq, Eq, Structural, Clone, Copy, Debug)]
pub enum DispatchError {
    /// The payload is not a finished-job event of the expected shape.
    MalformedCallback,
    /// No session waits for this job: never submitted here, or already resolved.
    UnknownJob,
    /// The job has no export step.
    MissingExportTask,
    /// The owning session has no live connection; the notification is dropped.
    DisconnectedOwner,
}

/// A completion callback as received: its event name, when it is a string,
/// and its job, when the job has the expected shape.
pub struct Callback {
    pub event: Option<String>,
    pub job: Option<Job>,
}

/// A job taken out of the job registry, with the session it belongs to and
/// its export step.
pub struct Claim {
    pub job_id: JobId,
    pub owner: String,
    pub task: JobTask,
}

/// Event name of a completion callback.
pub open spec fn finished_event() -> Seq<char> {
    seq!['j', 'o', 'b', '.', 'f', 'i', 'n', 'i', 's', 'h', 'e', 'd']
}

/// Whether the callback is a finished-job event with a well-formed job.
pub open spec fn accepts(cb: Callback) -> bool {
    &&& cb.event is Some
    &&& cb.event->0@ == finished_event()
    &&& cb.job is Some
}

/// The notification owed for a job whose export step is `task`, where
/// `stored` is the id under which its artifact was stored, if that worked.
pub open spec fn notice(job_id: JobId, task: JobTask, stored: Option<i32>) -> SocketMessage {
    if artifact_of(task) is Some && stored is Some {
        SocketMessage::message(JobStatus::COMPLETED, stored, job_id)
    } else {
        SocketMessage::message(JobStatus::FAILED, None, job_id)
    }
}

/// Job registry, connection registry and result after handling `cb`, when
/// fetching and storing the export step's artifact gives `stored`.
pub open spec fn dispatch_spec(
    jobs: Map<Seq<char>, Seq<char>>,
    conns: Map<Seq<char>, Seq<SocketMessage>>,
    cb: Callback,
    stored: Option<i32>,
) -> (Map<Seq<char>, Seq<char>>, Map<Seq<char>, Seq<SocketMessage>>, Result<(), DispatchError>) {
    if !accepts(cb) {
        (jobs, conns, Err(DispatchError::MalformedCallback))
    } else {
        let job = cb.job->0;
        if !jobs.contains_key(job.id@) {
            (jobs, conns, Err(DispatchError::UnknownJob))
        } else {
            let owner = jobs[job.id@];
            let rest = jobs.remove(job.id@);
            match first_export(job.tasks@) {
                None => (rest, conns, Err(DispatchError::MissingExportTask)),
                Some(task) => {
                    let msg = notice(JobId(job.id), task, stored);
                    if conns.contains_key(owner) {
                        (rest, conns.insert(owner, conns[owner].push(msg)), Ok(()))
                    } else {
                        (rest, conns, Err(DispatchError::DisconnectedOwner))
                    }
                },
            }
        }
    }
}

/// Whether `event` names a finished job.
pub fn is_finished_event(event: &String) -> (r: bool)
    ensures
        r == (event@ == finished_event()),
{
    proof { reveal_strlit("job.finished"); }
    let name = String::from_str("job.finished");
    assert(name@ == finished_event());
    event.eq(&name)
}

/// Checks the callback's shape and takes its job out of `jobs`.
/// A malformed callback or an unknown job changes nothing; once the job is
/// found it is forgotten, whether or not it has an export step.
pub fn claim(jobs: &mut JobRegistry, cb: Callback) -> (r: Result<Claim, DispatchError>)
    requires
        old(jobs).wf(),
    ensures
        final(jobs).wf(),
        !accepts(cb) ==> r == Err::<Claim, DispatchError>(DispatchError::MalformedCallback)
            && final(jobs)@ == old(jobs)@,
        accepts(cb) && !old(jobs)@.contains_key(cb.job->0.id@) ==> r == Err::<Claim, DispatchError>(
            DispatchError::UnknownJob,
        ) && final(jobs)@ == old(jobs)@,
        accepts(cb) && old(jobs)@.contains_key(cb.job->0.id@) ==> {
            &&& final(jobs)@ == old(jobs)@.remove(cb.job->0.id@)
            &&& match first_export(cb.job->0.tasks@) {
                None => r == Err::<Claim, DispatchError>(DispatchError::MissingExportTask),
                Some(task) => r is Ok && r->Ok_0.job_id == JobId(cb.job->0.id)
                    && r->Ok_0.owner@ == old(jobs)@[cb.job->0.id@] && r->Ok_0.task == task,
            }
        },
{
    let Callback { event, job } = cb;
    let finished = match &event {
        Some(e) => is_finished_event(e),
        None => false,
    };
    if !finished {
        return Err(DispatchError::MalformedCallback);
    }
    let job = match job {
        Some(job) => job,
        None => {
            return Err(DispatchError::MalformedCallback);
        },
    };
    let Job { id, tasks } = job;
    let job_id = JobId(id);
    let owner = match jobs.resolve_and_remove(&job_id) {
        Some(owner) => owner,
        None => {
            return Err(DispatchError::UnknownJob);
        },
    };
    match find_export_task(tasks) {
        Some(task) => Ok(Claim { job_id, owner, task }),
        None => Err(DispatchError::MissingExportTask),
    }
}

impl Claim {
    /// The file to fetch and store for this job, if its export step offers one.
    pub fn artifact(&self) -> (r: Option<&TaskFile>)
        ensures
            match r {
                Some(f) => artifact_of(self.task) == Some(*f),
                None => artifact_of(self.task) is None,
            },
    {
        if self.task.result.files.len() > 0 {
            let file = &self.task.result.files[0];
            match &file.url {
                Some(_) => Some(file),
                None => None,
            }
        } else {
            None
        }
    }

    /// The notification owed for this job; `stored` is the id under which its
    /// artifact was stored, or `None` when fetching or storing failed.
    pub fn notification(&self, stored: Option<i32>) -> (r: SocketMessage)
        ensures
            r == notice(self.job_id, self.task, stored),
    {
        let job_id = self.job_id.duplicate();
        match (self.artifact(), stored) {
            (Some(_), Some(file_id)) => SocketMessage::completed(job_id, file_id),
            _ => SocketMessage::failed(job_id),
        }
    }
}

/// Queues the claimed job's notification for its owner, or drops it when the
/// owner has no live connection.
pub fn deliver(conns: &mut ConnectionRegistry, claim: Claim, stored: Option<i32>) -> (r: Result<
    (),
    DispatchError,
>)
    requires
        old(conns).wf(),
    ensures
        final(conns).wf(),
        old(conns)@.contains_key(claim.owner@) ==> r == Ok::<(), DispatchError>(()) && final(conns)@ == old(conns)@.insert(
            claim.owner@,
            old(conns)@[claim.owner@].push(notice(claim.job_id, claim.task, stored)),
        ),
        !old(conns)@.contains_key(claim.owner@) ==> r == Err::<(), DispatchError>(
            DispatchError::DisconnectedOwner,
        ) && final(conns)@ == old(conns)@,
{
    let msg = claim.notification(stored);
    if conns.deliver(&claim.owner, msg) {
        Ok(())
    } else {
        Err(DispatchError::DisconnectedOwner)
    }
}

/// Handles one completion callback from start to end, where `stored` is what
/// fetching and storing the export step's artifact gives.
pub fn dispatch(
    jobs: &mut JobRegistry,
    conns: &mut ConnectionRegistry,
    cb: Callback,
    stored: Option<i32>,
) -> (r: Result<(), DispatchError>)
    requires
        old(jobs).wf(),
        old(conns).wf(),
    ensures
        final(jobs).wf(),
        final(conns).wf(),
        (final(jobs)@, final(conns)@, r) == dispatch_spec(old(jobs)@, old(conns)@, cb, stored),
{
    match claim(jobs, cb) {
        Ok(c) => deliver(conns, c, stored),
        Err(e) => Err(e),
    }
}

/// A finished-job callback for a pending job whose owner is connected puts
/// exactly one notification, about that job, at the end of the owner's
/// queue, leaves every other queue as it was, and forgets the job.
pub proof fn lemma_delivered_once(
    jobs: Map<Seq<char>, Seq<char>>,
    conns: Map<Seq<char>, Seq<SocketMessage>>,
    cb: Callback,
    stored: Option<i32>,
)
    requires
        accepts(cb),
        jobs.contains_key(cb.job->0.id@),
        conns.contains_key(jobs[cb.job->0.id@]),
        first_export(cb.job->0.tasks@) is Some,
    ensures
        ({
            let (j2, c2, r) = dispatch_spec(jobs, conns, cb, stored);
            let owner = jobs[cb.job->0.id@];
            &&& r is Ok
            &&& !j2.contains_key(cb.job->0.id@)
            &&& c2.dom() == conns.dom()
            &&& c2[owner].len() == conns[owner].len() + 1
            &&& c2[owner].drop_last() == conns[owner]
            &&& c2[owner].last().job()@ == cb.job->0.id@
            &&& forall|other: Seq<char>| #[trigger] conns.contains_key(other) && other != owner ==> c2[other] == conns[other]
        }),
{
    let (j2, c2, r) = dispatch_spec(jobs, conns, cb, stored);
    let owner = jobs[cb.job->0.id@];
    assert(c2.dom() =~= conns.dom());
    assert(c2[owner].drop_last() =~= conns[owner]);
}

/// Once a callback for a job has been delivered, any later callback for the
/// same job fails and changes neither registry, whatever its payload.
pub proof fn lemma_duplicate_callback_ignored(
    jobs: Map<Seq<char>, Seq<char>>,
    conns: Map<Seq<char>, Seq<SocketMessage>>,
    first: Callback,
    first_stored: Option<i32>,
    again: Callback,
    again_stored: Option<i32>,
)
    requires
        dispatch_spec(jobs, conns, first, first_stored).2 is Ok,
        again.job is Some,
        again.job->0.id@ == first.job->0.id@,
    ensures
        ({
            let (j2, c2, _r) = dispatch_spec(jobs, conns, first, first_stored);
            let (j3, c3, r2) = dispatch_spec(j2, c2, again, again_stored);
            &&& r2 is Err
            &&& j3 == j2
            &&& c3 == c2
        }),
{
}

/// A callback for a job that no session waits for fails and changes
/// neither registry.
pub proof fn lemma_unknown_job_ignored(
    jobs: Map<Seq<char>, Seq<char>>,
    conns: Map<Seq<char>, Seq<SocketMessage>>,
    cb: Callback,
    stored: Option<i32>,
)
    requires
        cb.job is Some,
        !jobs.contains_key(cb.job->0.id@),
    ensures
        ({
            let (j2, c2, r) = dispatch_spec(jobs, conns, cb, stored);
            &&& r is Err
            &&& j2 == jobs
            &&& c2 == conns
        }),
{
}

/// A callback for a pending job whose owner has no live connection fails
/// and queues nothing, but the job is forgotten all the same.
pub proof fn lemma_disconnected_owner(
    jobs: Map<Seq<char>, Seq<char>>,
    conns: Map<Seq<char>, Seq<SocketMessage>>,
    cb: Callback,
    stored: Option<i32>,
)
    requires
        accepts(cb),
        jobs.contains_key(cb.job->0.id@),
        first_export(cb.job->0.tasks@) is Some,
        !conns.contains_key(jobs[cb.job->0.id@]),
    ensures
        ({
            let (j2, c2, r) = dispatch_spec(jobs, conns, cb, stored);
            &&& r == Err::<(), DispatchError>(DispatchError::DisconnectedOwner)
            &&& !j2.contains_key(cb.job->0.id@)
            &&& j2 == jobs.remove(cb.job->0.id@)
            &&& c2 == conns
        }),
{
}

} // verus!
