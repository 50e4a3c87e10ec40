//! The service's boundaries over the registry: starting a job, cancelling
//! one, and the replies they give.
use vstd::prelude::*;
use crate::job::{JobId, Submission, command_args, command_args_of, output_template, output_template_of, texts};
use crate::registry::{CancelOutcome, JobHandles, Registry, after_register, well_formed};

verus! {

/// Acknowledgement sent once a job has started.
pub const STARTED_STATUS: &'static str = "Download Dimulai.";
/// Reply to an accepted cancellation.
pub const CANCEL_ACCEPTED_MSG: &'static str = "Proses pembatalan unduhan dimulai.";
/// Reply when no live job has the identifier.
pub const JOB_NOT_FOUND_MSG: &'static str = "ID unduhan tidak ditemukan atau sudah selesai.";

/// A job that has been registered and is ready to run.
pub struct StartedJob {
    pub id: JobId,
    /// The downloader's arguments.
    pub args: Vec<String>,
    /// The job's ends of its hub and of its cancellation trigger.
    pub handles: JobHandles,
}

/// Registers a validated submission as job `id` and builds the command line
/// it runs with; the job writes to `downloads/<id>.<ext>`.
pub fn start_job(registry: &mut Registry, id: JobId, submission: &Submission) -> (r: StartedJob)
    ensures
        r.id == id,
        final(registry)@ == after_register(old(registry)@, id.value),
        well_formed(old(registry)@) ==> well_formed(final(registry)@),
        texts(r.args@) == command_args_of(
            output_template_of(id.value),
            submission.url@,
            submission.format,
        ),
{
    let template = output_template(id);
    let args = command_args(template.as_str(), submission.url.as_str(), submission.format);
    let handles = registry.register(id);
    StartedJob { id, args, handles }
}

/// The HTTP status and message that answer a cancellation request.
pub fn cancel_reply(outcome: CancelOutcome) -> (r: (u16, &'static str))
    ensures
        outcome == CancelOutcome::Accepted ==> r.0 == 200 && r.1@ == CANCEL_ACCEPTED_MSG@,
        outcome == CancelOutcome::NotFound ==> r.0 == 404 && r.1@ == JOB_NOT_FOUND_MSG@,
{
    match outcome {
        CancelOutcome::Accepted => (200, CANCEL_ACCEPTED_MSG),
        CancelOutcome::NotFound => (404, JOB_NOT_FOUND_MSG),
    }
}

} // verus!
