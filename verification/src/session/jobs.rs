//! How the jobs of a session go: what comes after each step, and what is
//! reported in the end.

use vstd::prelude::*;
use vstd::utf8::*;

use crate::path;
use crate::path::FilePath;
use crate::session;
use crate::session::model::JobErrorModel;
use crate::session::JobError;
use crate::text::{cat, cat3, same};

verus! {

/// The directory of a session.
pub open spec fn dir_of(state: Seq<u8>, stamp: Seq<char>) -> Seq<u8> {
    path::join_path(path::join_path(state, encode_utf8("sessions"@)), encode_utf8(stamp))
}

/// The directory in which a session keeps its files: named by the time, under
/// the state directory of the program.
pub fn session_dir(state: &FilePath, stamp: &str) -> (r: FilePath)
    ensures
        r@ == dir_of(state@, stamp@),
{
    state.join("sessions").join(stamp)
}

/// Why a job failed, out of what it said. Work that was called off says just
/// `cancelled`.
pub open spec fn error_of(msg: Seq<char>) -> JobErrorModel {
    if msg == "cancelled"@ {
        JobErrorModel::Cancelled
    } else {
        JobErrorModel::Failed(msg)
    }
}

/// Why a job failed.
pub fn job_error(msg: String) -> (r: JobError)
    ensures
        r@ == error_of(msg@),
{
    if same(msg.as_str(), "cancelled") {
        JobError::Cancelled
    } else {
        JobError::Failed(msg)
    }
}

/// What making text reports.
pub fn text_report(result: Result<String, String>) -> (r: Result<String, JobError>)
    ensures
        session::text_result(r) == (match result {
            Ok(t) => Ok(t@),
            Err(e) => Err(error_of(e@)),
        }),
{
    match result {
        Ok(t) => Ok(t),
        Err(e) => Err(job_error(e)),
    }
}

/// A change of an image in place.
#[derive(Debug, Clone, Copy, PartialEq, Eq, Structural)]
pub enum Edit {
    Rotate,
    Crop,
}

impl Edit {
    pub open spec fn name(self) -> Seq<char> {
        match self {
            Edit::Rotate => "rotate"@,
            Edit::Crop => "crop"@,
        }
    }

    fn label(self) -> (r: &'static str)
        ensures
            r@ == self.name(),
    {
        match self {
            Edit::Rotate => "rotate",
            Edit::Crop => "crop",
        }
    }
}

/// What comes after a change of an image.
#[derive(Debug)]
pub enum EditStep {
    /// Make the text of the changed image.
    MakeText,
    /// Report.
    Done(Result<Option<String>, JobError>),
}

/// What comes after a change of an image, with text as sequences of
/// characters.
#[verifier::ext_equal]
pub enum EditStepModel {
    MakeText,
    Done(Result<Option<Seq<char>>, JobErrorModel>),
}

impl View for EditStep {
    type V = EditStepModel;

    open spec fn view(&self) -> EditStepModel {
        match *self {
            EditStep::MakeText => EditStepModel::MakeText,
            EditStep::Done(r) => EditStepModel::Done(session::edit_result(r)),
        }
    }
}

/// What comes after a change of an image: its text is made again, where that
/// is wanted and the job was not called off.
pub open spec fn after_edit(
    edit: Edit,
    result: Result<(), String>,
    cancelled: bool,
    reocr: bool,
) -> EditStepModel {
    match result {
        Err(e) => EditStepModel::Done(
            Err(JobErrorModel::Failed(edit.name() + " failed: "@ + e@)),
        ),
        Ok(_) => if cancelled {
            EditStepModel::Done(Err(JobErrorModel::Cancelled))
        } else if reocr {
            EditStepModel::MakeText
        } else {
            EditStepModel::Done(Ok(None))
        },
    }
}

/// What comes after a change of an image.
pub fn edit_step(edit: Edit, result: Result<(), String>, cancelled: bool, reocr: bool) -> (r:
    EditStep)
    ensures
        r@ == after_edit(edit, result, cancelled, reocr),
{
    match result {
        Err(e) => EditStep::Done(
            Err(JobError::Failed(cat3(edit.label(), " failed: ", e.as_str()))),
        ),
        Ok(_) => if cancelled {
            EditStep::Done(Err(JobError::Cancelled))
        } else if reocr {
            EditStep::MakeText
        } else {
            EditStep::Done(Ok(None))
        },
    }
}

/// What a change of an image reports once its text has been made, or not.
pub fn edit_report(result: Result<String, String>) -> (r: Result<Option<String>, JobError>)
    ensures
        session::edit_result(r) == (match result {
            Ok(t) => Ok(Some(t@)),
            Err(e) => Err(
                if e@ == "cancelled"@ {
                    JobErrorModel::Cancelled
                } else {
                    JobErrorModel::Failed("re-OCR failed: "@ + e@)
                },
            ),
        }),
{
    match result {
        Ok(t) => Ok(Some(t)),
        Err(e) => if same(e.as_str(), "cancelled") {
            Err(JobError::Cancelled)
        } else {
            Err(JobError::Failed(cat("re-OCR failed: ", e.as_str())))
        },
    }
}

/// A job that was called off makes no text, and reports that it was called
/// off.
pub proof fn law_cancelled_edit_makes_no_text(edit: Edit, reocr: bool)
    ensures
        after_edit(edit, Ok(()), true, reocr) == EditStepModel::Done(
            Err(JobErrorModel::Cancelled),
        ),
{
}

} // verus!
