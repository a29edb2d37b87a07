//! The closed set of shapes the vault service may return, and the
//! classification of a decoded response body into one of them.
//!
//! The service distinguishes its response shapes structurally: a body has no
//! discriminant field, so the shape is recognised from which fields are
//! present.  The JSON decoder (an external collaborator) hands the library a
//! [`RawBody`] that records, field by field, what the body held; [`classify`]
//! then tries each shape in a fixed order.  A stored-file body and a failure
//! body are mutually exclusive in their required fields, so at most one shape
//! matches.

use vstd::prelude::*;

verus! {

/// One nested error inside a failure response.
pub struct ErrorDetail {
    pub name: String,
    pub message: String,
}

/// A response body the service may return, after classification.
pub enum ApiResponse {
    /// The file is stored.  Returned with status 200 when the file already
    /// existed and with 201 when it was newly created.
    Stored { token: String, url: String, protected: bool, retention_period: String },
    /// Any error condition reported by the service, regardless of the
    /// transport status code.
    Failure {
        name: String,
        message: String,
        status: u16,
        errors: Option<Vec<ErrorDetail>>,
    },
    /// The sole shape returned by the delete endpoint: whether the file
    /// was deleted.
    DeleteResult(bool),
}

/// The fields a decoded JSON body held, each recorded only if present with
/// the right type.  A bare boolean body is recorded under `boolean`.
pub struct RawBody {
    pub token: Option<String>,
    pub url: Option<String>,
    pub protected: Option<bool>,
    pub retention_period: Option<String>,
    pub name: Option<String>,
    pub message: Option<String>,
    pub status: Option<u16>,
    pub errors: Option<Vec<ErrorDetail>>,
    pub boolean: Option<bool>,
}

/// A response that cannot be interpreted: the service broke its contract.
#[derive(PartialEq, Eq, Structural, Clone, Copy, Debug)]
pub enum ResponseError {
    /// The body matches none of the known shapes.
    UnrecognizedBody,
    /// The body shape is not one this endpoint may return.
    UnexpectedShape,
    /// A stored-file body arrived with a status other than 200 or 201.
    StoredStatusInvariant,
    /// A status that carries a JSON body arrived without one.
    MissingBody,
}

/// Whether the body holds every field a stored-file response requires.
pub open spec fn stored_shape(raw: RawBody) -> bool {
    raw.token is Some && raw.url is Some && raw.protected is Some
        && raw.retention_period is Some
}

/// Whether the body holds every field a failure response requires.
pub open spec fn failure_shape(raw: RawBody) -> bool {
    raw.name is Some && raw.message is Some && raw.status is Some
}

/// The shape a body classifies to: stored-file first, then failure, then
/// bare boolean; `None` if no shape matches.
pub open spec fn classified(raw: RawBody) -> Option<ApiResponse> {
    if stored_shape(raw) {
        Some(
            ApiResponse::Stored {
                token: raw.token->0,
                url: raw.url->0,
                protected: raw.protected->0,
                retention_period: raw.retention_period->0,
            },
        )
    } else if failure_shape(raw) {
        Some(
            ApiResponse::Failure {
                name: raw.name->0,
                message: raw.message->0,
                status: raw.status->0,
                errors: raw.errors,
            },
        )
    } else if raw.boolean is Some {
        Some(ApiResponse::DeleteResult(raw.boolean->0))
    } else {
        None
    }
}

/// Classify a decoded body, trying each shape in order: stored file,
/// failure, bare boolean.  A body that matches no shape is a fatal decode
/// error, reported as [`ResponseError::UnrecognizedBody`].
pub fn classify(raw: RawBody) -> (r: Result<ApiResponse, ResponseError>)
    ensures
        classified(raw) matches Some(resp) ==> r == Ok::<ApiResponse, ResponseError>(resp),
        classified(raw) is None ==> r == Err::<ApiResponse, ResponseError>(
            ResponseError::UnrecognizedBody,
        ),
{
    let RawBody { token, url, protected, retention_period, name, message, status, errors, boolean } =
        raw;
    if token.is_some() && url.is_some() && protected.is_some() && retention_period.is_some() {
        Ok(
            ApiResponse::Stored {
                token: token.unwrap(),
                url: url.unwrap(),
                protected: protected.unwrap(),
                retention_period: retention_period.unwrap(),
            },
        )
    } else if name.is_some() && message.is_some() && status.is_some() {
        Ok(
            ApiResponse::Failure {
                name: name.unwrap(),
                message: message.unwrap(),
                status: status.unwrap(),
                errors,
            },
        )
    } else if let Some(b) = boolean {
        Ok(ApiResponse::DeleteResult(b))
    } else {
        Err(ResponseError::UnrecognizedBody)
    }
}

} // verus!
