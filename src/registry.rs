use vstd::prelude::*;

use crate::jobs::JobId;
use crate::notification::SocketMessage;
use crate::table::Table;

verus! {

/// A job id was registered a second time.
#[derive(PartialEq, Eq, Structural, Clone, Copy, Debug)]
pub struct DuplicateJob;

/// A session already has a live connection.
#[derive(PartialEq, Eq, Structural, Clone, Copy, Debug)]
pub struct AlreadyConnected;

/// Which session submitted each outstanding job.
/// Its model maps a job id to the owning session id.
pub struct JobRegistry {
    table: Table<String>,
}

impl View for JobRegistry {
    type V = Map<Seq<char>, Seq<char>>;

    closed spec fn view(&self) -> Map<Seq<char>, Seq<char>> {
        self.table@
    }
}

impl JobRegistry {
    pub closed spec fn wf(&self) -> bool {
        self.table.wf()
    }

    pub fn new() -> (r: JobRegistry)
        ensures
            r.wf(),
            r@ == Map::<Seq<char>, Seq<char>>::empty(),
    {
        JobRegistry { table: Table::new() }
    }

    /// Records that `owner` submitted `job_id`; refused when the job is
    /// already recorded, and then nothing changes.
    pub fn register(&mut self, job_id: JobId, owner: String) -> (r: Result<(), DuplicateJob>)
        requires
            old(self).wf(),
        ensures
            final(self).wf(),
            r is Err <==> old(self)@.contains_key(job_id@),
            r is Err ==> final(self)@ == old(self)@,
            r is Ok ==> final(self)@ == old(self)@.insert(job_id@, owner@),
    {
        let key = job_id.0;
        if self.table.contains_key(&key) {
            Err(DuplicateJob)
        } else {
            self.table.insert_new(key, owner);
            Ok(())
        }
    }

    /// Looks up the owner of `job_id` and forgets the job in one step.
    pub fn resolve_and_remove(&mut self, job_id: &JobId) -> (r: Option<String>)
        requires
            old(self).wf(),
        ensures
            final(self).wf(),
            final(self)@ == old(self)@.remove(job_id@),
            match r {
                Some(owner) => old(self)@.contains_key(job_id@) && owner@ == old(self)@[job_id@],
                None => !old(self)@.contains_key(job_id@),
            },
    {
        self.table.remove(job_id.as_string())
    }

    /// Whether `job_id` still waits for its completion.
    pub fn is_pending(&self, job_id: &JobId) -> (r: bool)
        requires
            self.wf(),
        ensures
            r == self@.contains_key(job_id@),
    {
        self.table.contains_key(job_id.as_string())
    }
}

/// Which sessions have a live connection, each with the queue of
/// notifications that its connection has yet to relay.
/// Its model maps a session id to that queue, oldest first.
pub struct ConnectionRegistry {
    table: Table<Vec<SocketMessage>>,
}

impl View for ConnectionRegistry {
    type V = Map<Seq<char>, Seq<SocketMessage>>;

    closed spec fn view(&self) -> Map<Seq<char>, Seq<SocketMessage>> {
        self.table@
    }
}

impl ConnectionRegistry {
    pub closed spec fn wf(&self) -> bool {
        self.table.wf()
    }

    pub fn new() -> (r: ConnectionRegistry)
        ensures
            r.wf(),
            r@ == Map::<Seq<char>, Seq<SocketMessage>>::empty(),
    {
        ConnectionRegistry { table: Table::new() }
    }

    /// Opens an empty queue for `owner`; refused, with nothing changed, when
    /// `owner` is already connected.
    pub fn register(&mut self, owner: String) -> (r: Result<(), AlreadyConnected>)
        requires
            old(self).wf(),
        ensures
            final(self).wf(),
            r is Err <==> old(self)@.contains_key(owner@),
            r is Err ==> final(self)@ == old(self)@,
            r is Ok ==> final(self)@ == old(self)@.insert(owner@, Seq::<SocketMessage>::empty()),
    {
        if self.table.contains_key(&owner) {
            Err(AlreadyConnected)
        } else {
            let empty: Vec<SocketMessage> = Vec::new();
            self.table.insert_new(owner, empty);
            Ok(())
        }
    }

    /// Whether `owner` has a live connection.
    pub fn is_connected(&self, owner: &String) -> (r: bool)
        requires
            self.wf(),
        ensures
            r == self@.contains_key(owner@),
    {
        self.table.contains_key(owner)
    }

    /// Queues `msg` for `owner` when it is connected; otherwise nothing
    /// changes. Returns whether it was queued.
    pub fn deliver(&mut self, owner: &String, msg: SocketMessage) -> (r: bool)
        requires
            old(self).wf(),
        ensures
            final(self).wf(),
            r == old(self)@.contains_key(owner@),
            r ==> final(self)@ == old(self)@.insert(owner@, old(self)@[owner@].push(msg)),
            !r ==> final(self)@ == old(self)@,
    {
        if self.table.contains_key(owner) {
            let empty: Vec<SocketMessage> = Vec::new();
            let mut queue = self.table.replace(owner, empty);
            queue.push(msg);
            self.table.replace(owner, queue);
            proof {
                assert(self.table@ =~= old(self)@.insert(owner@, old(self)@[owner@].push(msg)));
            }
            true
        } else {
            false
        }
    }

    /// Hands out everything queued for `owner`, oldest first, and leaves its
    /// queue empty. A session without a connection has nothing queued.
    pub fn take_pending(&mut self, owner: &String) -> (r: Vec<SocketMessage>)
        requires
            old(self).wf(),
        ensures
            final(self).wf(),
            old(self)@.contains_key(owner@) ==> r@ == old(self)@[owner@] && final(self)@
                == old(self)@.insert(owner@, Seq::<SocketMessage>::empty()),
            !old(self)@.contains_key(owner@) ==> r@ == Seq::<SocketMessage>::empty()
                && final(self)@ == old(self)@,
    {
        if self.table.contains_key(owner) {
            let empty: Vec<SocketMessage> = Vec::new();
            self.table.replace(owner, empty)
        } else {
            Vec::new()
        }
    }

    /// Forgets the connection of `owner`, with whatever it had queued.
    /// Removing an absent owner changes nothing.
    pub fn remove(&mut self, owner: &String)
        requires
            old(self).wf(),
        ensures
            final(self).wf(),
            final(self)@ == old(self)@.remove(owner@),
    {
        let _ = self.table.remove(owner);
    }
}

} // verus!
