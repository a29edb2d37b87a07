//! Interpretation of service responses.
//!
//! Given the raw HTTP status code and a classified response body, the
//! interpreter produces a normalized [`Outcome`] together with the ordered
//! display lines to render.  The service encodes success and failure in the
//! body shape, not purely in the status code, so the interpretation
//! branches on both axes: a stored-file body pairs with 200 when the file
//! already existed and with 201 when it was newly created, and any other
//! status with a stored-file body breaks the service contract.
//!
//! Rendering (colour, bolding, printing) is presentation, delegated to an
//! external collaborator; the functions here only return line values.

use vstd::prelude::*;

use crate::response::{ApiResponse, ErrorDetail, RawBody, ResponseError, classified, classify};

verus! {

/// The normalized result of one command, decoupling HTTP-status nuance
/// from display logic.
pub enum Outcome {
    /// The uploaded content was already stored (status 200).
    FileExists,
    /// The uploaded content was newly stored (status 201).
    FileStored,
    /// The delete endpoint reported the file deleted.
    FileDeleted,
    /// The delete endpoint reported the file not deleted.
    FileNotDeleted,
    /// A failure reported by the service itself.
    ServiceError { name: String, message: String, detail_errors: Option<Vec<ErrorDetail>> },
    /// The request never reached the service, or no response arrived.
    TransportError,
}

/// Whether an outcome reports that the operation failed.
pub open spec fn is_error_outcome(o: Outcome) -> bool {
    o is ServiceError || o is TransportError
}

/// The views of a sequence of display lines.
pub open spec fn lines_view(lines: Seq<String>) -> Seq<Seq<char>> {
    Seq::new(lines.len(), |i: int| lines[i]@)
}

/// The first display line of a stored-file response: which of the two
/// success statuses arrived.
pub open spec fn stored_first_line(status: u16) -> Seq<char> {
    if status == 200 {
        "File exists!"@
    } else {
        "File stored successfully!"@
    }
}

/// The display lines of a stored-file response: the success line, then the
/// storage URL, the token, the protection flag and the retention period.
pub open spec fn stored_lines_spec(
    status: u16,
    token: Seq<char>,
    url: Seq<char>,
    protected: bool,
    retention_period: Seq<char>,
) -> Seq<Seq<char>> {
    seq![
        stored_first_line(status),
        "It is stored at "@ + url,
        "It has the unique token: "@ + token,
        if protected {
            "It is a PROTECTED file"@
        } else {
            "It is an UNPROTECTED file"@
        },
        "It is available for "@ + retention_period,
    ]
}

/// The display line of one nested error inside a failure response.
pub open spec fn error_detail_line(name: Seq<char>, message: Seq<char>) -> Seq<char> {
    name + ": "@ + message
}

/// The display lines of the nested errors, one per error, in their
/// original order.
pub open spec fn detail_lines_of(details: Seq<ErrorDetail>) -> Seq<Seq<char>> {
    Seq::new(details.len(), |i: int| error_detail_line(details[i].name@, details[i].message@))
}

/// The display lines of a failure response: its name, its message, then
/// one line per nested error.
pub open spec fn failure_lines_spec(
    name: Seq<char>,
    message: Seq<char>,
    errors: Option<Vec<ErrorDetail>>,
) -> Seq<Seq<char>> {
    seq![
        "Received a bad response from API: "@ + name,
        "This is probably due to: "@ + message,
    ] + match errors {
        Some(details) => detail_lines_of(details@),
        None => Seq::empty(),
    }
}

/// The display line of a delete response.
pub open spec fn delete_lines_spec(deleted: bool) -> Seq<Seq<char>> {
    if deleted {
        seq!["File deleted successfully!"@]
    } else {
        seq!["File was NOT deleted successfully..."@]
    }
}

/// The outcome of one (status, body) pair, or the detected contract
/// violation: a stored-file body may pair only with 200 or 201.
pub open spec fn outcome_spec(status: u16, resp: ApiResponse) -> Result<Outcome, ResponseError> {
    match resp {
        ApiResponse::Stored { .. } => {
            if status == 200 {
                Ok(Outcome::FileExists)
            } else if status == 201 {
                Ok(Outcome::FileStored)
            } else {
                Err(ResponseError::StoredStatusInvariant)
            }
        },
        ApiResponse::Failure { name, message, status: _, errors } => {
            Ok(Outcome::ServiceError { name, message, detail_errors: errors })
        },
        ApiResponse::DeleteResult(deleted) => {
            if deleted {
                Ok(Outcome::FileDeleted)
            } else {
                Ok(Outcome::FileNotDeleted)
            }
        },
    }
}

/// The display lines of one (status, body) pair.
pub open spec fn lines_spec(status: u16, resp: ApiResponse) -> Seq<Seq<char>> {
    match resp {
        ApiResponse::Stored { token, url, protected, retention_period } => {
            stored_lines_spec(status, token@, url@, protected, retention_period@)
        },
        ApiResponse::Failure { name, message, status: _, errors } => {
            failure_lines_spec(name@, message@, errors)
        },
        ApiResponse::DeleteResult(deleted) => delete_lines_spec(deleted),
    }
}

/// Map a (status, classified body) pair to its outcome and display lines.
///
/// The decision table:
/// - a stored-file body with 200 is [`Outcome::FileExists`], with 201
///   [`Outcome::FileStored`], and with any other status a detected
///   invariant violation, reported as an error rather than swallowed;
/// - a failure body is [`Outcome::ServiceError`] whatever the status,
///   with one display line per nested error after the name and message;
/// - a delete body maps its boolean to [`Outcome::FileDeleted`] or
///   [`Outcome::FileNotDeleted`].
pub fn interpret_response(status: u16, response: ApiResponse) -> (r: Result<
    (Outcome, Vec<String>),
    ResponseError,
>)
    ensures
        outcome_spec(status, response) matches Ok(o) ==> r matches Ok(pair) && pair.0 == o
            && lines_view(pair.1@) == lines_spec(status, response),
        outcome_spec(status, response) matches Err(e) ==> r == Err::<
            (Outcome, Vec<String>),
            ResponseError,
        >(e),
{
    match response {
        ApiResponse::Stored { token, url, protected, retention_period } => {
            let outcome = if status == 200 {
                Outcome::FileExists
            } else if status == 201 {
                Outcome::FileStored
            } else {
                return Err(ResponseError::StoredStatusInvariant);
            };
            let mut lines: Vec<String> = Vec::new();
            let first = if status == 200 {
                "File exists!"
            } else {
                "File stored successfully!"
            };
            lines.push(String::from_str(first));
            lines.push(String::from_str("It is stored at ").concat(url.as_str()));
            lines.push(String::from_str("It has the unique token: ").concat(token.as_str()));
            let protection = if protected {
                "It is a PROTECTED file"
            } else {
                "It is an UNPROTECTED file"
            };
            lines.push(String::from_str(protection));
            lines.push(String::from_str("It is available for ").concat(retention_period.as_str()));
            proof {
                assert(lines_view(lines@) =~= lines_spec(status, response));
            }
            Ok((outcome, lines))
        },
        ApiResponse::Failure { name, message, status: reported, errors } => {
            let mut lines: Vec<String> = Vec::new();
            lines.push(String::from_str("Received a bad response from API: ").concat(name.as_str()));
            lines.push(String::from_str("This is probably due to: ").concat(message.as_str()));
            if let Some(details) = &errors {
                let mut i: usize = 0;
                while i < details.len()
                    invariant
                        i <= details@.len(),
                        lines@.len() == 2 + i,
                        lines@[0]@ == "Received a bad response from API: "@ + name@,
                        lines@[1]@ == "This is probably due to: "@ + message@,
                        forall|j: int|
                            2 <= j < lines@.len() ==> (#[trigger] lines@[j])@ == error_detail_line(
                                details@[j - 2].name@,
                                details@[j - 2].message@,
                            ),
                    decreases details@.len() - i,
                {
                    let line = details[i].name.clone().concat(": ").concat(
                        details[i].message.as_str(),
                    );
                    lines.push(line);
                    i = i + 1;
                }
            }
            proof {
                assert(lines_view(lines@) =~= failure_lines_spec(name@, message@, errors));
                assert(lines_view(lines@) =~= lines_spec(status, response));
            }
            Ok((Outcome::ServiceError { name, message, detail_errors: errors }, lines))
        },
        ApiResponse::DeleteResult(deleted) => {
            let mut lines: Vec<String> = Vec::new();
            let outcome = if deleted {
                lines.push(String::from_str("File deleted successfully!"));
                Outcome::FileDeleted
            } else {
                lines.push(String::from_str("File was NOT deleted successfully..."));
                Outcome::FileNotDeleted
            };
            proof {
                assert(lines_view(lines@) =~= lines_spec(status, response));
            }
            Ok((outcome, lines))
        },
    }
}

/// Classify a decoded body and interpret it in one step: what a dispatcher
/// does with the (status, raw body) pair of a single round trip.
pub fn interpret_raw(status: u16, raw: RawBody) -> (r: Result<(Outcome, Vec<String>), ResponseError>)
    ensures
        classified(raw) is None ==> r == Err::<(Outcome, Vec<String>), ResponseError>(
            ResponseError::UnrecognizedBody,
        ),
        classified(raw) matches Some(resp) ==> {
            &&& outcome_spec(status, resp) matches Ok(o) ==> r matches Ok(pair) && pair.0 == o
                && lines_view(pair.1@) == lines_spec(status, resp)
            &&& outcome_spec(status, resp) matches Err(e) ==> r == Err::<
                (Outcome, Vec<String>),
                ResponseError,
            >(e)
        },
{
    match classify(raw) {
        Ok(resp) => interpret_response(status, resp),
        Err(e) => Err(e),
    }
}

/// Extract the service-reported failure a response holds: its name,
/// message and reported status.  Any other shape is not a failure and is
/// reported as unexpected.
pub fn check_error(response: ApiResponse) -> (r: Result<(String, String, u16), ResponseError>)
    ensures
        response matches ApiResponse::Failure { name, message, status, .. } ==> r == Ok::<
            (String, String, u16),
            ResponseError,
        >((name, message, status)),
        !(response is Failure) ==> r == Err::<(String, String, u16), ResponseError>(
            ResponseError::UnexpectedShape,
        ),
{
    match response {
        ApiResponse::Failure { name, message, status, errors: _ } => Ok((name, message, status)),
        _ => Err(ResponseError::UnexpectedShape),
    }
}

/// The banner above every rendered command result.
pub open spec fn header_spec() -> Seq<char> {
    "--= Waifu Vault Client =--\n\n"@
}

/// The banner above every rendered command result, ending in a blank line.
pub fn make_header() -> (r: String)
    ensures
        r@ == header_spec(),
{
    String::from_str("--= Waifu Vault Client =--\n\n")
}

} // verus!
