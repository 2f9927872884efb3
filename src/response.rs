use vstd::prelude::*;

verus! {

/// The provider's answer to a job submission.
pub struct CreateResponse {
    pub id: String,
}

/// A finished job as the provider reports it.
pub struct Job {
    pub id: String,
    pub tasks: Vec<JobTask>,
}

/// One step of a job.
pub struct JobTask {
    pub id: String,
    pub operation: String,
    pub result: TaskResult,
}

/// What a step produced.
pub struct TaskResult {
    pub files: Vec<TaskFile>,
}

/// One produced file, with the address it can be fetched from, if any.
pub struct TaskFile {
    pub file_name: String,
    pub url: Option<String>,
}

/// Name of the operation that makes the converted file available.
pub open spec fn export_operation() -> Seq<char> {
    seq!['e', 'x', 'p', 'o', 'r', 't', '/', 'u', 'r', 'l']
}

pub open spec fn is_export(task: JobTask) -> bool {
    task.operation@ == export_operation()
}

/// The first export step among `tasks`.
pub open spec fn first_export(tasks: Seq<JobTask>) -> Option<JobTask>
    decreases tasks.len(),
{
    if tasks.len() == 0 {
        None
    } else if is_export(tasks[0]) {
        Some(tasks[0])
    } else {
        first_export(tasks.drop_first())
    }
}

/// The file that an export step offers for download: its first file, when
/// that file has an address.
pub open spec fn artifact_of(task: JobTask) -> Option<TaskFile> {
    if task.result.files@.len() > 0 && task.result.files@[0].url is Some {
        Some(task.result.files@[0])
    } else {
        None
    }
}

/// The first task whose operation is the export step.
pub fn find_export_task(tasks: Vec<JobTask>) -> (r: Option<JobTask>)
    ensures
        r == first_export(tasks@),
{
    let mut list = tasks;
    let ghost all = list@;
    proof { reveal_strlit("export/url"); }
    let export = String::from_str("export/url");
    let mut i: usize = 0;
    assert(all.subrange(0, all.len() as int) =~= all);
    while i < list.len()
        invariant
            list@ == all,
            all == tasks@,
            export@ == export_operation(),
            i <= all.len(),
            first_export(all) == first_export(all.subrange(i as int, all.len() as int)),
        decreases all.len() - i,
    {
        let ghost rest = all.subrange(i as int, all.len() as int);
        if list[i].operation == export {
            assert(rest[0] == all[i as int]);
            let t = list.swap_remove(i);
            return Some(t);
        }
        assert(rest.drop_first() =~= all.subrange(i + 1, all.len() as int));
        i = i + 1;
    }
    assert(all.subrange(i as int, all.len() as int) =~= Seq::<JobTask>::empty());
    None
}

} // verus!
