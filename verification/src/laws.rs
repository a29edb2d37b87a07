//! Library-wide laws, stated and proved over the same spec functions the
//! function contracts use.

use vstd::prelude::*;

use crate::cli::UploadArgs;
use crate::interpret::{
    Outcome, error_detail_line, failure_lines_spec, is_error_outcome, outcome_spec,
};
use crate::request::{RequestPlan, pairs_view, upload_plan};
use crate::response::{ApiResponse, ErrorDetail, ResponseError};

verus! {

/// Whether `tail` is the tail end of `line`.
pub open spec fn ends_with(line: Seq<char>, tail: Seq<char>) -> bool {
    line.len() >= tail.len() && line.subrange(line.len() - tail.len(), line.len() as int) == tail
}

/// A stored-file body pairs with status 200 as an already existing file
/// and with 201 as a newly stored file; any other status with a
/// stored-file body is a detected contract violation, never an outcome.
pub proof fn lemma_stored_status_decides_outcome(status: u16, resp: ApiResponse)
    requires
        resp is Stored,
    ensures
        status == 200 ==> outcome_spec(status, resp) == Ok::<Outcome, ResponseError>(
            Outcome::FileExists,
        ),
        status == 201 ==> outcome_spec(status, resp) == Ok::<Outcome, ResponseError>(
            Outcome::FileStored,
        ),
        status != 200 && status != 201 ==> outcome_spec(status, resp) == Err::<
            Outcome,
            ResponseError,
        >(ResponseError::StoredStatusInvariant),
{
}

/// The rendered failure message always carries both the failure's name
/// (ending its first line) and its message (ending its second line); when
/// nested errors are present, one further line is rendered per nested
/// error, in their original order.
pub proof fn lemma_failure_lines_show_name_and_message(
    name: Seq<char>,
    message: Seq<char>,
    errors: Option<Vec<ErrorDetail>>,
)
    ensures
        failure_lines_spec(name, message, errors).len() >= 2,
        ends_with(failure_lines_spec(name, message, errors)[0], name),
        ends_with(failure_lines_spec(name, message, errors)[1], message),
        errors matches Some(details) ==> {
            &&& failure_lines_spec(name, message, errors).len() == 2 + details@.len()
            &&& forall|i: int|
                0 <= i < details@.len() ==> failure_lines_spec(name, message, errors)[2 + i]
                    == error_detail_line(details@[i].name@, details@[i].message@)
        },
        errors is None ==> failure_lines_spec(name, message, errors).len() == 2,
{
    let lines = failure_lines_spec(name, message, errors);
    let first = "Received a bad response from API: "@ + name;
    let second = "This is probably due to: "@ + message;
    assert(lines[0] == first);
    assert(lines[1] == second);
    assert(first.subrange(first.len() - name.len(), first.len() as int) =~= name);
    assert(second.subrange(second.len() - message.len(), second.len() as int) =~= message);
}

/// The delete endpoint's boolean decides between exactly the two delete
/// outcomes, whatever the status code: no other outcome is reachable from
/// a delete body.
pub proof fn lemma_delete_outcomes(status: u16, deleted: bool)
    ensures
        deleted ==> outcome_spec(status, ApiResponse::DeleteResult(deleted)) == Ok::<
            Outcome,
            ResponseError,
        >(Outcome::FileDeleted),
        !deleted ==> outcome_spec(status, ApiResponse::DeleteResult(deleted)) == Ok::<
            Outcome,
            ResponseError,
        >(Outcome::FileNotDeleted),
{
}

/// Upload request construction is deterministic: two plans built from the
/// same arguments agree in every observable part, so re-running an upload
/// re-sends the same request.
pub proof fn lemma_upload_plan_deterministic(p1: RequestPlan, p2: RequestPlan, args: UploadArgs)
    requires
        upload_plan(p1, args),
        upload_plan(p2, args),
    ensures
        p1.method == p2.method,
        p1.url@ == p2.url@,
        pairs_view(p1.query@) == pairs_view(p2.query@),
        p1.headers@.len() == 0 && p2.headers@.len() == 0,
{
}

/// Re-running an upload with identical content and identical parameters
/// is answered by the service with status 200 and a stored-file body; the
/// client maps that pair to the existing-file outcome, a success, never
/// an error.
pub proof fn lemma_rerun_upload_is_success(resp: ApiResponse)
    requires
        resp is Stored,
    ensures
        outcome_spec(200, resp) == Ok::<Outcome, ResponseError>(Outcome::FileExists),
        !is_error_outcome(Outcome::FileExists),
{
}

} // verus!
