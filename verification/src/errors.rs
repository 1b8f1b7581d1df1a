use vstd::prelude::*;

use crate::machines::internal_error_response;
use crate::response::{ApiResponse, BodyView, STATUS_INTERNAL_ERROR};

verus! {

/// `anyhow::Error`, carried through as it is.
#[verifier::external_type_specification]
#[verifier::external_body]
pub struct ExAnyhowError(anyhow::Error);

/// The text of an error, written with the `Display` impl of `anyhow::Error`
/// (`to_string`).
///
/// Trusted, with nothing claimed of the text: it depends on the error's
/// contents, which Verus does not see.
#[verifier::external_body]
fn error_text(err: &anyhow::Error) -> String {
    err.to_string()
}

/// The answer for an error that escaped a handler: `500` with the kind
/// "Internal Server Error" and the error's text as message.
pub fn handle_error(err: &anyhow::Error) -> (r: ApiResponse)
    ensures
        r@.status == STATUS_INTERNAL_ERROR,
        r@.body matches BodyView::Error { error, .. } && error == "Internal Server Error"@,
{
    internal_error_response(error_text(err))
}

} // verus!
