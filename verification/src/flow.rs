//! The per-command decision logic of the dispatcher.
//!
//! Each subcommand is one or two sequential round trips.  The functions
//! here decide, from plain values, which request to issue next and what to
//! render; the caller (an external collaborator) performs the I/O between
//! the steps and feeds the results back.  Downloading by token is the one
//! chained flow: a metadata fetch whose `protected` flag decides whether
//! the content fetch is issued at all.

use vstd::prelude::*;

use crate::cli::{Commands, DownloadArgs};
use crate::interpret::{Outcome, failure_lines_spec, interpret_response, lines_view};
use crate::request::{
    RequestError, RequestPlan, build_content_request, build_delete_request, build_info_request,
    build_upload_request, content_plan, delete_plan, metadata_plan, upload_build_spec,
};
use crate::response::{ApiResponse, RawBody, ResponseError, classified, classify};

verus! {

/// What the dispatcher does next in a download flow.
pub enum DownloadStep {
    /// Issue this request and feed its result back.
    Fetch(RequestPlan),
    /// The content arrived: write the fetched bytes to the output path
    /// resolved for this resource URL.
    Save { resource_url: String },
    /// Render these lines and stop.
    Finish { outcome: Outcome, lines: Vec<String> },
}

/// The guidance line shown when a protected file is requested without a
/// password.
pub open spec fn password_required_line() -> Seq<char> {
    "This file is password protected and needs a password to download!"@
}

/// The guidance line shown when the supplied password is refused.
pub open spec fn password_incorrect_line() -> Seq<char> {
    "The password given for this file is incorrect!"@
}

/// A finished flow that reports a missing password: a service error named
/// `PasswordRequired` whose single display line is the guidance message.
pub open spec fn password_required_finish(r: Result<DownloadStep, ResponseError>) -> bool {
    &&& r matches Ok(step)
    &&& step matches DownloadStep::Finish { outcome, lines }
    &&& outcome matches Outcome::ServiceError { name, message, detail_errors }
    &&& name@ == "PasswordRequired"@
    &&& message@ == password_required_line()
    &&& detail_errors is None
    &&& lines_view(lines@) == seq![password_required_line()]
}

/// A finished flow that reports a refused password: a service error named
/// `IncorrectPassword` whose single display line is the guidance message.
pub open spec fn password_incorrect_finish(r: Result<DownloadStep, ResponseError>) -> bool {
    &&& r matches Ok(step)
    &&& step matches DownloadStep::Finish { outcome, lines }
    &&& outcome matches Outcome::ServiceError { name, message, detail_errors }
    &&& name@ == "IncorrectPassword"@
    &&& message@ == password_incorrect_line()
    &&& detail_errors is None
    &&& lines_view(lines@) == seq![password_incorrect_line()]
}

/// A finished flow that renders a service-reported failure.
pub open spec fn failure_finish(
    r: Result<DownloadStep, ResponseError>,
    name: String,
    message: String,
    errors: Option<Vec<crate::response::ErrorDetail>>,
) -> bool {
    &&& r matches Ok(step)
    &&& step matches DownloadStep::Finish { outcome, lines }
    &&& outcome == Outcome::ServiceError { name, message, detail_errors: errors }
    &&& lines_view(lines@) == failure_lines_spec(name@, message@, errors)
}

/// Whether the download arguments name exactly one way to address the
/// file.
pub open spec fn one_download_source(args: DownloadArgs) -> bool {
    (args.url is Some) <==> (args.token is None)
}

/// What starting a download returns: the first request of the flow
/// exactly when one source is given — the raw content request in
/// direct-URL mode, the metadata request in token mode — and the matching
/// precondition error otherwise.
pub open spec fn download_start_spec(
    r: Result<RequestPlan, RequestError>,
    args: DownloadArgs,
) -> bool {
    &&& r is Ok <==> one_download_source(args)
    &&& (args.url is Some && args.token is Some ==> r == Err::<RequestPlan, RequestError>(
        RequestError::ConflictingSources,
    ))
    &&& (args.url is None && args.token is None ==> r == Err::<RequestPlan, RequestError>(
        RequestError::MissingSource,
    ))
    &&& (r matches Ok(plan) ==> {
        &&& (args.url matches Some(u) ==> content_plan(plan, u@, args.password))
        &&& (args.token matches Some(t) ==> metadata_plan(plan, t@))
    })
}

/// Build the first request of a download: the raw content request when a
/// direct URL is given, the metadata request when a token is given.
pub fn start_download(args: &DownloadArgs) -> (r: Result<RequestPlan, RequestError>)
    ensures
        download_start_spec(r, *args),
{
    match (&args.url, &args.token) {
        (Some(_), Some(_)) => Err(RequestError::ConflictingSources),
        (None, None) => Err(RequestError::MissingSource),
        (Some(url), None) => Ok(build_content_request(url, &args.password)),
        (None, Some(token)) => Ok(build_info_request(token)),
    }
}

/// Decide the second leg of a download by token from the metadata
/// response.
///
/// A stored-file body whose `protected` flag is set, when no password was
/// supplied, short-circuits the flow: no content request is issued and a
/// password-required message is the whole result.  Otherwise the flow
/// proceeds to fetch the content, with the password attached when given.
/// A failure body ends the flow with the rendered failure; any other body
/// breaks the service contract.
pub fn on_metadata_response(args: &DownloadArgs, status: u16, raw: RawBody) -> (r: Result<
    DownloadStep,
    ResponseError,
>)
    ensures
        classified(raw) is None ==> r == Err::<DownloadStep, ResponseError>(
            ResponseError::UnrecognizedBody,
        ),
        classified(raw) matches Some(resp) ==> {
            &&& (resp matches ApiResponse::Stored { url, protected, .. } ==> {
                &&& (status != 200 && status != 201 ==> r == Err::<DownloadStep, ResponseError>(
                    ResponseError::StoredStatusInvariant,
                ))
                &&& ((status == 200 || status == 201) && protected && args.password is None
                    ==> password_required_finish(r))
                &&& ((status == 200 || status == 201) && !(protected && args.password is None)
                    ==> {
                    &&& r matches Ok(step)
                    &&& step matches DownloadStep::Fetch(plan)
                    &&& content_plan(plan, url@, args.password)
                })
            })
            &&& (resp matches ApiResponse::Failure { name, message, errors, .. }
                ==> failure_finish(r, name, message, errors))
            &&& (resp is DeleteResult ==> r == Err::<DownloadStep, ResponseError>(
                ResponseError::UnexpectedShape,
            ))
        },
{
    let resp = match classify(raw) {
        Ok(resp) => resp,
        Err(e) => {
            return Err(e);
        },
    };
    match resp {
        ApiResponse::Stored { token: _, url, protected, retention_period: _ } => {
            if status != 200 && status != 201 {
                return Err(ResponseError::StoredStatusInvariant);
            }
            if protected && args.password.is_none() {
                let mut lines: Vec<String> = Vec::new();
                lines.push(
                    String::from_str(
                        "This file is password protected and needs a password to download!",
                    ),
                );
                let outcome = Outcome::ServiceError {
                    name: String::from_str("PasswordRequired"),
                    message: String::from_str(
                        "This file is password protected and needs a password to download!",
                    ),
                    detail_errors: None,
                };
                proof {
                    assert(lines_view(lines@) =~= seq![password_required_line()]);
                }
                Ok(DownloadStep::Finish { outcome, lines })
            } else {
                Ok(DownloadStep::Fetch(build_content_request(&url, &args.password)))
            }
        },
        ApiResponse::Failure { name, message, status: reported, errors } => {
            match interpret_response(
                status,
                ApiResponse::Failure { name, message, status: reported, errors },
            ) {
                Ok((outcome, lines)) => Ok(DownloadStep::Finish { outcome, lines }),
                Err(e) => Err(e),
            }
        },
        ApiResponse::DeleteResult(_) => Err(ResponseError::UnexpectedShape),
    }
}

/// Decide how a download ends from the status of the content response.
///
/// A 403 carries no JSON body and is recognised by status alone: the
/// rendered guidance depends on whether a password was supplied.  A 200
/// proceeds to saving the bytes.  Any other status must carry a failure
/// body, which ends the flow rendered; a body of any other shape breaks
/// the service contract.
pub fn on_content_response(
    password_supplied: bool,
    resource_url: &String,
    status: u16,
    raw: Option<RawBody>,
) -> (r: Result<DownloadStep, ResponseError>)
    ensures
        status == 200 ==> {
            &&& r matches Ok(step)
            &&& step matches DownloadStep::Save { resource_url: u }
            &&& u@ == resource_url@
        },
        status == 403 && !password_supplied ==> password_required_finish(r),
        status == 403 && password_supplied ==> password_incorrect_finish(r),
        status != 200 && status != 403 ==> {
            &&& (raw is None ==> r == Err::<DownloadStep, ResponseError>(
                ResponseError::MissingBody,
            ))
            &&& (raw matches Some(body) ==> {
                &&& (classified(body) is None ==> r == Err::<DownloadStep, ResponseError>(
                    ResponseError::UnrecognizedBody,
                ))
                &&& (classified(body) matches Some(resp) ==> {
                    &&& (resp is Stored ==> r == Err::<DownloadStep, ResponseError>(
                        ResponseError::StoredStatusInvariant,
                    ))
                    &&& (resp matches ApiResponse::Failure { name, message, errors, .. }
                        ==> failure_finish(r, name, message, errors))
                    &&& (resp is DeleteResult ==> r == Err::<DownloadStep, ResponseError>(
                        ResponseError::UnexpectedShape,
                    ))
                })
            })
        },
{
    if status == 200 {
        return Ok(DownloadStep::Save { resource_url: resource_url.clone() });
    }
    if status == 403 {
        let mut lines: Vec<String> = Vec::new();
        let outcome = if password_supplied {
            lines.push(String::from_str("The password given for this file is incorrect!"));
            Outcome::ServiceError {
                name: String::from_str("IncorrectPassword"),
                message: String::from_str("The password given for this file is incorrect!"),
                detail_errors: None,
            }
        } else {
            lines.push(
                String::from_str(
                    "This file is password protected and needs a password to download!",
                ),
            );
            Outcome::ServiceError {
                name: String::from_str("PasswordRequired"),
                message: String::from_str(
                    "This file is password protected and needs a password to download!",
                ),
                detail_errors: None,
            }
        };
        proof {
            if password_supplied {
                assert(lines_view(lines@) =~= seq![password_incorrect_line()]);
            } else {
                assert(lines_view(lines@) =~= seq![password_required_line()]);
            }
        }
        return Ok(DownloadStep::Finish { outcome, lines });
    }
    let body = match raw {
        Some(body) => body,
        None => {
            return Err(ResponseError::MissingBody);
        },
    };
    let resp = match classify(body) {
        Ok(resp) => resp,
        Err(e) => {
            return Err(e);
        },
    };
    match resp {
        ApiResponse::Stored { .. } => Err(ResponseError::StoredStatusInvariant),
        ApiResponse::Failure { name, message, status: reported, errors } => {
            match interpret_response(
                status,
                ApiResponse::Failure { name, message, status: reported, errors },
            ) {
                Ok((outcome, lines)) => Ok(DownloadStep::Finish { outcome, lines }),
                Err(e) => Err(e),
            }
        },
        ApiResponse::DeleteResult(_) => Err(ResponseError::UnexpectedShape),
    }
}

/// The display line rendered after the fetched bytes are written.
pub open spec fn download_success_line(path: Seq<char>) -> Seq<char> {
    "File downloaded successfully and stored at "@ + path + "!"@
}

/// The lines rendered after a download is saved at `path`.
pub fn downloaded_lines(path: &String) -> (lines: Vec<String>)
    ensures
        lines_view(lines@) == seq![download_success_line(path@)],
{
    let mut lines: Vec<String> = Vec::new();
    lines.push(
        String::from_str("File downloaded successfully and stored at ").concat(path.as_str()).concat(
            "!",
        ),
    );
    proof {
        assert(lines_view(lines@) =~= seq![download_success_line(path@)]);
    }
    lines
}

/// Build the first (and for upload, info and delete the only) request of
/// a subcommand.
pub fn plan_command(cmd: &Commands) -> (r: Result<RequestPlan, RequestError>)
    ensures
        cmd matches Commands::Upload(args) ==> upload_build_spec(r, *args),
        cmd matches Commands::Download(args) ==> download_start_spec(r, *args),
        cmd matches Commands::Info { token } ==> r matches Ok(plan) && metadata_plan(plan, token@),
        cmd matches Commands::Delete { token } ==> r matches Ok(plan) && delete_plan(plan, token@),
{
    match cmd {
        Commands::Upload(args) => build_upload_request(args),
        Commands::Download(args) => start_download(args),
        Commands::Info { token } => Ok(build_info_request(token)),
        Commands::Delete { token } => Ok(build_delete_request(token)),
    }
}

} // verus!
