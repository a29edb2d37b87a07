use waifu_vault::cli::DownloadArgs;
use waifu_vault::flow::{
    DownloadStep, downloaded_lines, on_content_response, on_metadata_response, start_download,
};
use waifu_vault::interpret::Outcome;
use waifu_vault::request::{Method, RequestError};
use waifu_vault::response::{RawBody, ResponseError};

fn empty_raw() -> RawBody {
    RawBody {
        token: None,
        url: None,
        protected: None,
        retention_period: None,
        name: None,
        message: None,
        status: None,
        errors: None,
        boolean: None,
    }
}

fn metadata_raw(protected: bool) -> RawBody {
    RawBody {
        token: Some("tok-123".to_string()),
        url: Some("https://waifuvault.moe/f/abc/report.pdf".to_string()),
        protected: Some(protected),
        retention_period: Some("30 days".to_string()),
        ..empty_raw()
    }
}

fn failure_raw() -> RawBody {
    RawBody {
        name: Some("NOT_FOUND".to_string()),
        message: Some("no such token".to_string()),
        status: Some(404),
        ..empty_raw()
    }
}

fn token_args(password: Option<&str>) -> DownloadArgs {
    DownloadArgs {
        url: None,
        token: Some("tok-123".to_string()),
        output: None,
        password: password.map(|p| p.to_string()),
    }
}

#[test]
fn download_by_url_starts_with_the_content_request() {
    let args = DownloadArgs {
        url: Some("https://waifuvault.moe/f/abc/report.pdf".to_string()),
        token: None,
        output: None,
        password: None,
    };
    let plan = start_download(&args).unwrap();
    assert_eq!(plan.method, Method::Get);
    assert_eq!(plan.url, "https://waifuvault.moe/f/abc/report.pdf");
    assert!(plan.query.is_empty());
}

#[test]
fn download_by_token_starts_with_the_metadata_request() {
    let plan = start_download(&token_args(None)).unwrap();
    assert_eq!(plan.method, Method::Get);
    assert_eq!(plan.url, "https://waifuvault.moe/rest/tok-123");
    assert_eq!(plan.query.len(), 1);
    assert_eq!(plan.query[0].0, "formatted");
}

#[test]
fn download_with_both_sources_is_rejected() {
    let args = DownloadArgs {
        url: Some("https://example.com/x".to_string()),
        ..token_args(None)
    };
    assert!(matches!(start_download(&args), Err(RequestError::ConflictingSources)));
}

#[test]
fn download_with_no_source_is_rejected() {
    let args = DownloadArgs { token: None, ..token_args(None) };
    assert!(matches!(start_download(&args), Err(RequestError::MissingSource)));
}

#[test]
fn protected_metadata_without_password_never_fetches_content() {
    let step = on_metadata_response(&token_args(None), 200, metadata_raw(true)).unwrap();
    match step {
        DownloadStep::Finish { outcome, lines } => {
            match outcome {
                Outcome::ServiceError { name, message, .. } => {
                    assert_eq!(name, "PasswordRequired");
                    assert_eq!(
                        message,
                        "This file is password protected and needs a password to download!"
                    );
                },
                _ => panic!("expected a password-required service error"),
            }
            assert_eq!(
                lines,
                vec!["This file is password protected and needs a password to download!"]
            );
        },
        _ => panic!("a protected file without a password must not be fetched"),
    }
}

#[test]
fn unprotected_metadata_without_password_proceeds_to_fetch() {
    let step = on_metadata_response(&token_args(None), 200, metadata_raw(false)).unwrap();
    match step {
        DownloadStep::Fetch(plan) => {
            assert_eq!(plan.method, Method::Get);
            assert_eq!(plan.url, "https://waifuvault.moe/f/abc/report.pdf");
            assert!(plan.headers.is_empty());
        },
        _ => panic!("an unprotected file must be fetched"),
    }
}

#[test]
fn protected_metadata_with_password_fetches_with_header() {
    let step = on_metadata_response(&token_args(Some("hunter2")), 200, metadata_raw(true)).unwrap();
    match step {
        DownloadStep::Fetch(plan) => {
            assert_eq!(plan.headers.len(), 1);
            assert_eq!(plan.headers[0].0, "x-password");
            assert_eq!(plan.headers[0].1, "hunter2");
        },
        _ => panic!("a protected file with a password must be fetched"),
    }
}

#[test]
fn failure_metadata_finishes_with_the_rendered_failure() {
    let step = on_metadata_response(&token_args(None), 404, failure_raw()).unwrap();
    match step {
        DownloadStep::Finish { outcome, lines } => {
            assert!(matches!(outcome, Outcome::ServiceError { .. }));
            assert_eq!(
                lines,
                vec![
                    "Received a bad response from API: NOT_FOUND",
                    "This is probably due to: no such token",
                ]
            );
        },
        _ => panic!("a failure body must finish the flow"),
    }
}

#[test]
fn unrecognised_metadata_body_is_an_error() {
    let r = on_metadata_response(&token_args(None), 200, empty_raw());
    assert!(matches!(r, Err(ResponseError::UnrecognizedBody)));
}

#[test]
fn boolean_metadata_body_is_an_unexpected_shape() {
    let raw = RawBody { boolean: Some(true), ..empty_raw() };
    let r = on_metadata_response(&token_args(None), 200, raw);
    assert!(matches!(r, Err(ResponseError::UnexpectedShape)));
}

#[test]
fn stored_metadata_with_an_error_status_is_an_invariant_violation() {
    let r = on_metadata_response(&token_args(None), 500, metadata_raw(false));
    assert!(matches!(r, Err(ResponseError::StoredStatusInvariant)));
}

#[test]
fn content_200_proceeds_to_save() {
    let url = "https://waifuvault.moe/f/abc/report.pdf".to_string();
    let step = on_content_response(false, &url, 200, None).unwrap();
    match step {
        DownloadStep::Save { resource_url } => assert_eq!(resource_url, url),
        _ => panic!("a 200 must proceed to saving the bytes"),
    }
}

#[test]
fn content_403_without_password_asks_for_one() {
    let url = "u".to_string();
    let step = on_content_response(false, &url, 403, None).unwrap();
    match step {
        DownloadStep::Finish { lines, .. } => {
            assert_eq!(
                lines,
                vec!["This file is password protected and needs a password to download!"]
            );
        },
        _ => panic!("a 403 must finish the flow"),
    }
}

#[test]
fn content_403_with_password_reports_it_incorrect() {
    let url = "u".to_string();
    let step = on_content_response(true, &url, 403, None).unwrap();
    match step {
        DownloadStep::Finish { outcome, lines } => {
            match outcome {
                Outcome::ServiceError { name, .. } => assert_eq!(name, "IncorrectPassword"),
                _ => panic!("expected a service error"),
            }
            assert_eq!(lines, vec!["The password given for this file is incorrect!"]);
        },
        _ => panic!("a 403 must finish the flow"),
    }
}

#[test]
fn content_failure_body_finishes_rendered() {
    let url = "u".to_string();
    let step = on_content_response(false, &url, 404, Some(failure_raw())).unwrap();
    match step {
        DownloadStep::Finish { lines, .. } => {
            assert_eq!(lines[0], "Received a bad response from API: NOT_FOUND");
        },
        _ => panic!("a failure body must finish the flow"),
    }
}

#[test]
fn content_error_without_body_is_an_error() {
    let url = "u".to_string();
    let r = on_content_response(false, &url, 500, None);
    assert!(matches!(r, Err(ResponseError::MissingBody)));
}

#[test]
fn content_error_with_stored_body_is_an_invariant_violation() {
    let url = "u".to_string();
    let r = on_content_response(false, &url, 500, Some(metadata_raw(false)));
    assert!(matches!(r, Err(ResponseError::StoredStatusInvariant)));
}

#[test]
fn saved_download_renders_the_destination() {
    let lines = downloaded_lines(&"./report.pdf".to_string());
    assert_eq!(lines, vec!["File downloaded successfully and stored at ./report.pdf!"]);
}
