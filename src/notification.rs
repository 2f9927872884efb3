use vstd::prelude::*;

use crate::jobs::JobId;

verus! {

/// Outcome of a job as carried to its session.
#[allow(non_camel_case_types)]
#[derive(PartialEq, Eq, Structural, Clone, Copy, Debug)]
pub enum JobStatus {
    /// Placeholder: never shown to the client.
    PENDING,
    FAILED,
    COMPLETED,
}

/// A notification for one job, queued for the session that owns it.
/// A completed job always carries the id of its stored artifact.
pub struct SocketMessage {
    job_status: JobStatus,
    file_id: Option<i32>,
    job_id: JobId,
}

/// Characters of one decimal digit.
pub open spec fn digit_char(d: nat) -> char {
    if d == 0 { '0' }
    else if d == 1 { '1' }
    else if d == 2 { '2' }
    else if d == 3 { '3' }
    else if d == 4 { '4' }
    else if d == 5 { '5' }
    else if d == 6 { '6' }
    else if d == 7 { '7' }
    else if d == 8 { '8' }
    else { '9' }
}

/// Decimal digits of `n`, most significant first, without leading zeros.
pub open spec fn digits_of(n: nat) -> Seq<char>
    decreases n,
{
    if n < 10 {
        seq![digit_char(n)]
    } else {
        digits_of(n / 10).push(digit_char(n % 10))
    }
}

/// Decimal text of `n`, with a leading `-` when negative.
pub open spec fn decimal_of(n: int) -> Seq<char> {
    if n < 0 {
        seq!['-'] + digits_of((-n) as nat)
    } else {
        digits_of(n as nat)
    }
}

pub open spec fn failed_prefix() -> Seq<char> {
    seq!['j', 'o', 'b', '-', 'f', 'a', 'i', 'l', 'e', 'd', ';']
}

pub open spec fn completed_prefix() -> Seq<char> {
    seq!['j', 'o', 'b', '-', 'c', 'o', 'm', 'p', 'l', 'e', 't', 'e', 'd', ';']
}

/// The text frame that tells a client a job ended, or `None` for a message
/// that is not shown.
pub open spec fn frame_of(m: SocketMessage) -> Option<Seq<char>> {
    match m.status() {
        JobStatus::PENDING => None,
        JobStatus::FAILED => Some(failed_prefix() + m.job()@),
        JobStatus::COMPLETED => Some(completed_prefix() + decimal_of(m.file()->0 as int)),
    }
}

fn digit_str(d: u32) -> (r: &'static str)
    requires
        d < 10,
    ensures
        r@ == seq![digit_char(d as nat)],
{
    match d {
        0 => { proof { reveal_strlit("0"); } "0" },
        1 => { proof { reveal_strlit("1"); } "1" },
        2 => { proof { reveal_strlit("2"); } "2" },
        3 => { proof { reveal_strlit("3"); } "3" },
        4 => { proof { reveal_strlit("4"); } "4" },
        5 => { proof { reveal_strlit("5"); } "5" },
        6 => { proof { reveal_strlit("6"); } "6" },
        7 => { proof { reveal_strlit("7"); } "7" },
        8 => { proof { reveal_strlit("8"); } "8" },
        _ => { proof { reveal_strlit("9"); } "9" },
    }
}

fn render_digits(n: u32) -> (r: String)
    ensures
        r@ == digits_of(n as nat),
    decreases n,
{
    if n < 10 {
        String::from_str(digit_str(n))
    } else {
        let mut s = render_digits(n / 10);
        s.append(digit_str(n % 10));
        s
    }
}

/// Decimal text of `n`.
pub fn render_decimal(n: i32) -> (r: String)
    ensures
        r@ == decimal_of(n as int),
{
    if n < 0 {
        let m: u32 = (-(n as i64)) as u32;
        proof { reveal_strlit("-"); }
        String::from_str("-").concat(render_digits(m).as_str())
    } else {
        render_digits(n as u32)
    }
}

impl SocketMessage {
    #[verifier::type_invariant]
    spec fn inv(self) -> bool {
        self.job_status == JobStatus::COMPLETED ==> self.file_id is Some
    }

    /// The message with these parts.
    pub closed spec fn message(status: JobStatus, file: Option<i32>, job: JobId) -> SocketMessage {
        SocketMessage { job_status: status, file_id: file, job_id: job }
    }

    pub broadcast proof fn lemma_message_parts(status: JobStatus, file: Option<i32>, job: JobId)
        ensures
            (#[trigger] SocketMessage::message(status, file, job)).status() == status,
            SocketMessage::message(status, file, job).file() == file,
            SocketMessage::message(status, file, job).job() == job,
    {
    }

    pub closed spec fn status(self) -> JobStatus {
        self.job_status
    }

    pub closed spec fn file(self) -> Option<i32> {
        self.file_id
    }

    pub closed spec fn job(self) -> JobId {
        self.job_id
    }

    /// The job finished and its artifact was stored under `file_id`.
    pub fn completed(job_id: JobId, file_id: i32) -> (r: SocketMessage)
        ensures
            r == SocketMessage::message(JobStatus::COMPLETED, Some(file_id), job_id),
            r.status() == JobStatus::COMPLETED,
            r.file() == Some(file_id),
            r.job() == job_id,
    {
        SocketMessage { job_status: JobStatus::COMPLETED, file_id: Some(file_id), job_id }
    }

    /// The job ended without a stored artifact.
    pub fn failed(job_id: JobId) -> (r: SocketMessage)
        ensures
            r == SocketMessage::message(JobStatus::FAILED, None::<i32>, job_id),
            r.status() == JobStatus::FAILED,
            r.file() == None::<i32>,
            r.job() == job_id,
    {
        SocketMessage { job_status: JobStatus::FAILED, file_id: None, job_id }
    }

    /// The job is still running.
    pub fn pending(job_id: JobId) -> (r: SocketMessage)
        ensures
            r == SocketMessage::message(JobStatus::PENDING, None::<i32>, job_id),
            r.status() == JobStatus::PENDING,
            r.file() == None::<i32>,
            r.job() == job_id,
    {
        SocketMessage { job_status: JobStatus::PENDING, file_id: None, job_id }
    }

    pub fn job_status(&self) -> (r: JobStatus)
        ensures
            r == self.status(),
    {
        self.job_status
    }

    pub fn file_id(&self) -> (r: Option<i32>)
        ensures
            r == self.file(),
    {
        self.file_id
    }

    pub fn job_id(&self) -> (r: &JobId)
        ensures
            *r == self.job(),
    {
        &self.job_id
    }

    /// The text frame sent to the client for this message; `None` for a
    /// pending one, which the client never sees.
    pub fn to_frame(&self) -> (r: Option<String>)
        ensures
            match r {
                Some(t) => frame_of(*self) == Some(t@),
                None => frame_of(*self) is None,
            },
    {
        proof { use_type_invariant(self); }
        match self.job_status {
            JobStatus::PENDING => None,
            JobStatus::FAILED => {
                proof { reveal_strlit("job-failed;"); }
                Some(String::from_str("job-failed;").concat(self.job_id.as_string().as_str()))
            },
            JobStatus::COMPLETED => {
                let id = match self.file_id {
                    Some(id) => id,
                    None => 0,
                };
                proof { reveal_strlit("job-completed;"); }
                let digits = render_decimal(id);
                Some(String::from_str("job-completed;").concat(digits.as_str()))
            },
        }
    }
}

} // verus!
