use vstd::prelude::*;

use crate::ids::id_text;
use crate::response::{
    answer, database_error_answer, database_error_response, error_answer, error_response,
    message_about, not_found_answer, not_found_response, success_answer, success_response,
    ApiResponse, Body, BodyView, ResponseView, STATUS_INTERNAL_ERROR, STATUS_OK,
};
use crate::store::MachineRecord;
use crate::text::concat3;

verus! {

/// The answer to a listing of all machines: the records when the store
/// listed them, else the store's error.
pub open spec fn machines_answer(listing: Result<(), String>) -> ResponseView {
    match listing {
        Ok(()) => answer(STATUS_OK, BodyView::Records),
        Err(e) => database_error_answer(e@),
    }
}

/// Answers `GET /api/machines` from the store's listing (`Ok` when it
/// returned the records, `Err` with its error text when it failed).
pub fn get_all_machines(listing: &Result<(), String>) -> (r: ApiResponse)
    ensures
        r@ == machines_answer(*listing),
{
    match listing {
        Ok(()) => ApiResponse { status: STATUS_OK, body: Body::Records },
        Err(e) => database_error_response(e),
    }
}

/// The answer to a lookup of machine `id`.
pub open spec fn machine_answer(id: u128, lookup: Result<Option<MachineRecord>, String>) -> ResponseView {
    match lookup {
        Ok(Some(_)) => answer(STATUS_OK, BodyView::Record),
        Ok(None) => not_found_answer(id),
        Err(e) => database_error_answer(e@),
    }
}

/// Answers `GET /api/machines/:id` from the store's lookup of `id`.
pub fn get_machine(id: u128, lookup: &Result<Option<MachineRecord>, String>) -> (r: ApiResponse)
    ensures
        r@ == machine_answer(id, *lookup),
{
    match lookup {
        Ok(Some(_)) => ApiResponse { status: STATUS_OK, body: Body::Record },
        Ok(None) => not_found_response(id),
        Err(e) => database_error_response(e),
    }
}

/// "OS <os> assigned to machine <id>"
pub open spec fn os_assigned_text(id: u128, os_choice: Seq<char>) -> Seq<char> {
    "OS "@ + os_choice + " assigned to machine "@ + id_text(id)
}

/// The answer to an OS assignment, from what the store reported.
pub open spec fn assign_os_answer(id: u128, os_choice: Seq<char>, outcome: Result<bool, String>) -> ResponseView {
    match outcome {
        Ok(true) => success_answer(os_assigned_text(id, os_choice)),
        Ok(false) => not_found_answer(id),
        Err(e) => database_error_answer(e@),
    }
}

/// Answers `POST /api/machines/:id/os` once the store has assigned
/// `os_choice` to machine `id`, or failed to.
pub fn assign_os(id: u128, os_choice: &String, outcome: &Result<bool, String>) -> (r: ApiResponse)
    ensures
        r@ == assign_os_answer(id, os_choice@, *outcome),
{
    match outcome {
        Ok(true) => {
            let head = concat3("OS ", os_choice.as_str(), " assigned to machine ");
            let message = message_about(head.as_str(), id);
            success_response(message)
        },
        Ok(false) => not_found_response(id),
        Err(e) => database_error_response(e),
    }
}

/// The answer to an update of the installed OS, from what the store reported.
pub open spec fn os_installed_answer(id: u128, outcome: Result<bool, String>) -> ResponseView {
    match outcome {
        Ok(true) => success_answer("OS installed updated for machine "@ + id_text(id)),
        Ok(false) => not_found_answer(id),
        Err(e) => database_error_answer(e@),
    }
}

/// Answers `POST /api/machines/:id/os_installed` once the store has recorded
/// the installed OS of machine `id`, or failed to.
pub fn update_os_installed(id: u128, outcome: &Result<bool, String>) -> (r: ApiResponse)
    ensures
        r@ == os_installed_answer(id, *outcome),
{
    match outcome {
        Ok(true) => success_response(message_about("OS installed updated for machine ", id)),
        Ok(false) => not_found_response(id),
        Err(e) => database_error_response(e),
    }
}

/// The answer for an unexpected failure with the text `message`.
pub open spec fn internal_error_answer(message: Seq<char>) -> ResponseView {
    error_answer(STATUS_INTERNAL_ERROR, "Internal Server Error"@, message)
}

/// The answer for an unexpected failure whose text is `message`.
pub fn internal_error_response(message: String) -> (r: ApiResponse)
    ensures
        r@ == internal_error_answer(message@),
{
    error_response(STATUS_INTERNAL_ERROR, "Internal Server Error", message)
}

} // verus!
