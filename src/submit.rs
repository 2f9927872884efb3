use vstd::prelude::*;

use crate::errors::{internal_error, ConverterError, INTERNAL_SERVER_ERROR};
use crate::jobs::JobId;
use crate::registry::JobRegistry;
use crate::response::CreateResponse;

verus! {

pub const OK: u16 = 200;

pub const CREATED: u16 = 201;

/// A file to convert, with the format to convert it to.
pub struct Upload {
    pub file_name: String,
    /// The file's contents, base64-encoded.
    pub contents: String,
    pub conversion_type: String,
}

pub open spec fn upload_missing() -> Seq<char> {
    "You need to upload a file!"@
}

pub open spec fn convert_failed() -> Seq<char> {
    "Something went wrong while trying to convert the requested file!"@
}

pub open spec fn redirect_notice() -> Seq<char> {
    "You will be redirected when your file(s) have completed converting."@
}

/// Gathers the parts of an upload; all three are needed.
pub fn check_upload(
    file_name: Option<String>,
    contents: Option<String>,
    conversion_type: Option<String>,
) -> (r: Result<Upload, (u16, String)>)
    ensures
        (r is Ok) == (file_name is Some && contents is Some && conversion_type is Some),
        r is Ok ==> r->Ok_0.file_name == file_name->0 && r->Ok_0.contents == contents->0
            && r->Ok_0.conversion_type == conversion_type->0,
        r is Err ==> r->Err_0.0 == 424 && r->Err_0.1@ == upload_missing(),
{
    match (file_name, contents, conversion_type) {
        (Some(file_name), Some(contents), Some(conversion_type)) => Ok(
            Upload { file_name, contents, conversion_type },
        ),
        _ => Err(internal_error(ConverterError::MissingDependencies("You need to upload a file!"))),
    }
}

/// Answers an upload once the provider has replied with `status` and, when
/// its body could be read, the job it created: a created job is recorded
/// as owned by `owner`. Any other reply, or a job id that is already
/// recorded, fails the upload and records nothing.
pub fn record_created_job(
    jobs: &mut JobRegistry,
    owner: String,
    status: u16,
    created: Option<CreateResponse>,
) -> (r: (u16, String))
    requires
        old(jobs).wf(),
    ensures
        final(jobs).wf(),
        ({
            let recorded = status == CREATED && created is Some && !old(jobs)@.contains_key(
                created->0.id@,
            );
            &&& recorded ==> r.0 == OK && r.1@ == redirect_notice() && final(jobs)@ == old(
                jobs,
            )@.insert(created->0.id@, owner@)
            &&& !recorded ==> r.0 == INTERNAL_SERVER_ERROR && r.1@ == convert_failed()
                && final(jobs)@ == old(jobs)@
        }),
{
    let failed = "Something went wrong while trying to convert the requested file!";
    if status != CREATED {
        return internal_error(ConverterError::Convert(failed));
    }
    match created {
        Some(created) => match jobs.register(JobId::from(created.id), owner) {
            Ok(()) => (OK, String::from_str("You will be redirected when your file(s) have completed converting.")),
            Err(_) => internal_error(ConverterError::Convert(failed)),
        },
        None => internal_error(ConverterError::Convert(failed)),
    }
}

} // verus!
