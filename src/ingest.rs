use vstd::prelude::*;

use crate::errors::{
    api_message,
    api_status,
    internal,
    matrix_text,
    shown,
    ApiError,
    ApiErrorView,
    ErrorResponse,
    MatrixError,
};
use crate::report::{audit_lines, report_lines, Report, RawAlert};
use crate::text::lines_of;

verus! {

/// Status of a delivered alert.
pub const DELIVERED_STATUS: u16 = 200;

/// Turns the decoded request body into the report to deliver. A body that
/// could not be decoded (`Err` holds why) is a bad request, and then no
/// report is built and nothing is audited.
pub fn handle_body(parsed: Result<RawAlert, String>, base_url: &str, audit: &mut Vec<String>) -> (r:
    Result<Report, ApiError>)
    ensures
        match parsed {
            Ok(a) => match r {
                Ok(rep) => rep@ == report_lines(a, base_url@) && lines_of(final(audit)@) == lines_of(
                    old(audit)@,
                ) + audit_lines(rep@),
                Err(_) => false,
            },
            Err(d) => match r {
                Ok(_) => false,
                Err(e) => e@ == ApiErrorView::BadRequest(shown(d@)) && final(audit)@ == old(audit)@,
            },
        },
{
    match parsed {
        Ok(a) => Ok(Report::build(a, base_url, audit)),
        Err(d) => {
            let m = if d.as_str().is_empty() {
                String::from_str("Unknown error")
            } else {
                d
            };
            Err(ApiError::BadRequest(m))
        },
    }
}

/// The outcome of handing a report to the messaging bridge: success, or
/// the bridge's failure as an internal server error.
pub fn handle_delivery(sent: Result<(), MatrixError>) -> (r: Result<(), ApiError>)
    ensures
        match sent {
            Ok(_) => r is Ok,
            Err(e) => match r {
                Ok(_) => false,
                Err(a) => a@ == internal(matrix_text(e)),
            },
        },
{
    match sent {
        Ok(()) => Ok(()),
        Err(e) => Err(ApiError::from_matrix(e)),
    }
}

/// Status and error body (if any) of the response that ends a request.
pub fn response_for(outcome: &Result<(), ApiError>) -> (r: (u16, Option<ErrorResponse>))
    ensures
        match outcome {
            Ok(_) => r.0 == DELIVERED_STATUS && r.1 is None,
            Err(e) => r.0 == api_status(e@) && match r.1 {
                Some(body) => body@ == seq![api_message(e@)],
                None => false,
            },
        },
{
    match outcome {
        Ok(()) => (DELIVERED_STATUS, None),
        Err(e) => {
            let (status, body) = e.error_response();
            (status, Some(body))
        },
    }
}

/// A request that fails after the guard always ends in a response with an
/// error status and exactly one non-empty message: 400 for an undecodable
/// body, 500 for a failed delivery.
pub proof fn lemma_failures_explained(d: Seq<char>, e: MatrixError)
    ensures
        api_status(ApiErrorView::BadRequest(shown(d))) == 400,
        api_message(ApiErrorView::BadRequest(shown(d))).len() > 0,
        api_status(internal(matrix_text(e))) == 500,
        api_message(internal(matrix_text(e))).len() > 0,
{
    reveal_strlit("Unknown error");
}

} // verus!
