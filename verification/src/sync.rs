use vstd::prelude::*;

use crate::ids::id_text;
use crate::response::{
    answer, database_error_answer, database_error_response, error_answer, error_response,
    message_about, not_found_answer, not_found_response, success_answer, success_response,
    ApiResponse, Body, BodyView, RegisterResponse, ResponseView, STATUS_CREATED,
    STATUS_INTERNAL_ERROR,
};
use crate::store::MachineRecord;
use crate::text::text;

verus! {

/// What a request that also refreshes the provisioning service does next,
/// once the store has answered its last call.
#[derive(Debug, Clone, PartialEq, Eq)]
pub enum FollowUp {
    /// Look the machine with this id up in the store.
    LookUp(u128),
    /// Send the machine just looked up (it has this id) to the provisioning
    /// service; whether that works does not change the answer.
    Sync(u128),
    /// Send this answer.
    Answer(ApiResponse),
}

/// What a `FollowUp` holds.
pub enum FollowUpView {
    LookUp(u128),
    Sync(u128),
    Answer(ResponseView),
}

impl View for FollowUp {
    type V = FollowUpView;

    open spec fn view(&self) -> FollowUpView {
        match self {
            FollowUp::LookUp(id) => FollowUpView::LookUp(*id),
            FollowUp::Sync(id) => FollowUpView::Sync(*id),
            FollowUp::Answer(r) => FollowUpView::Answer(r@),
        }
    }
}

/// After a successful write of machine `id`: look it up again to pass it on
/// to the provisioning service. After a write of a missing machine or a
/// failed one: the matching error answer.
pub open spec fn after_write(id: u128, outcome: Result<bool, String>) -> FollowUpView {
    match outcome {
        Ok(true) => FollowUpView::LookUp(id),
        Ok(false) => FollowUpView::Answer(not_found_answer(id)),
        Err(e) => FollowUpView::Answer(database_error_answer(e@)),
    }
}

/// After the lookup of machine `id`: pass the machine on when it was found,
/// else give `done` at once.
pub open spec fn after_lookup(id: u128, lookup: Result<Option<MachineRecord>, String>, done: ResponseView) -> FollowUpView {
    match lookup {
        Ok(Some(_)) => FollowUpView::Sync(id),
        _ => FollowUpView::Answer(done),
    }
}

/// The answer to a registration that the store accepted with the id `id`.
pub open spec fn registered_answer(id: u128) -> ResponseView {
    answer(STATUS_CREATED, BodyView::Registered { machine_id: id, next_step: "awaiting_os_assignment"@ })
}

/// What a registration does once the store has inserted the machine (with
/// the id it gave back) or failed to.
pub open spec fn after_insert(inserted: Result<u128, String>) -> FollowUpView {
    match inserted {
        Ok(id) => FollowUpView::LookUp(id),
        Err(e) => FollowUpView::Answer(error_answer(STATUS_INTERNAL_ERROR, "Registration Failed"@, e@)),
    }
}

/// The answer to a status update of machine `id` that went through.
pub open spec fn status_updated_answer(id: u128) -> ResponseView {
    success_answer("Status updated for machine "@ + id_text(id))
}

/// The answer to a hostname update of machine `id` that went through.
pub open spec fn hostname_updated_answer(id: u128) -> ResponseView {
    success_answer("Hostname updated for machine "@ + id_text(id))
}

/// The answer to a registration that the store accepted with the id `id`.
fn registered_response(id: u128) -> (r: ApiResponse)
    ensures
        r@ == registered_answer(id),
{
    ApiResponse {
        status: STATUS_CREATED,
        body: Body::Registered(RegisterResponse { machine_id: id, next_step: text("awaiting_os_assignment") }),
    }
}

fn follow_up_after_write(id: u128, outcome: &Result<bool, String>) -> (next: FollowUp)
    ensures
        next@ == after_write(id, *outcome),
{
    match outcome {
        Ok(true) => FollowUp::LookUp(id),
        Ok(false) => FollowUp::Answer(not_found_response(id)),
        Err(e) => FollowUp::Answer(database_error_response(e)),
    }
}

fn follow_up_after_lookup(id: u128, lookup: &Result<Option<MachineRecord>, String>, done: ApiResponse) -> (next: FollowUp)
    ensures
        next@ == after_lookup(id, *lookup, done@),
{
    match lookup {
        Ok(Some(_)) => FollowUp::Sync(id),
        _ => FollowUp::Answer(done),
    }
}

/// `POST /api/machines`, once the store has inserted the machine (`Ok` with
/// its new id) or failed to.
pub fn register_machine_after_insert(inserted: &Result<u128, String>) -> (next: FollowUp)
    ensures
        next@ == after_insert(*inserted),
{
    match inserted {
        Ok(id) => FollowUp::LookUp(*id),
        Err(e) => FollowUp::Answer(error_response(STATUS_INTERNAL_ERROR, "Registration Failed", e.clone())),
    }
}

/// `POST /api/machines`, once the store has looked up the machine it
/// registered as `id`.
pub fn register_machine_after_lookup(id: u128, lookup: &Result<Option<MachineRecord>, String>) -> (next: FollowUp)
    ensures
        next@ == after_lookup(id, *lookup, registered_answer(id)),
{
    follow_up_after_lookup(id, lookup, registered_response(id))
}

/// `POST /api/machines`, once the provisioning service has taken the machine
/// registered as `id`, or failed to.
pub fn register_machine_after_sync(id: u128, synced: &Result<(), String>) -> (r: ApiResponse)
    ensures
        r@ == registered_answer(id),
{
    registered_response(id)
}

/// `POST /api/machines/:id/status`, once the store has written the status
/// of machine `id`, or failed to.
pub fn update_status_after_write(id: u128, outcome: &Result<bool, String>) -> (next: FollowUp)
    ensures
        next@ == after_write(id, *outcome),
{
    follow_up_after_write(id, outcome)
}

/// `POST /api/machines/:id/status`, once the store has looked machine `id`
/// up again.
pub fn update_status_after_lookup(id: u128, lookup: &Result<Option<MachineRecord>, String>) -> (next: FollowUp)
    ensures
        next@ == after_lookup(id, *lookup, status_updated_answer(id)),
{
    follow_up_after_lookup(id, lookup, success_response(message_about("Status updated for machine ", id)))
}

/// `POST /api/machines/:id/status`, once the provisioning service has taken
/// machine `id`, or failed to.
pub fn update_status_after_sync(id: u128, synced: &Result<(), String>) -> (r: ApiResponse)
    ensures
        r@ == status_updated_answer(id),
{
    success_response(message_about("Status updated for machine ", id))
}

/// `POST /api/machines/:id/hostname`, once the store has written the
/// hostname of machine `id`, or failed to.
pub fn update_hostname_after_write(id: u128, outcome: &Result<bool, String>) -> (next: FollowUp)
    ensures
        next@ == after_write(id, *outcome),
{
    follow_up_after_write(id, outcome)
}

/// `POST /api/machines/:id/hostname`, once the store has looked machine `id`
/// up again.
pub fn update_hostname_after_lookup(id: u128, lookup: &Result<Option<MachineRecord>, String>) -> (next: FollowUp)
    ensures
        next@ == after_lookup(id, *lookup, hostname_updated_answer(id)),
{
    follow_up_after_lookup(id, lookup, success_response(message_about("Hostname updated for machine ", id)))
}

/// `POST /api/machines/:id/hostname`, once the provisioning service has
/// taken machine `id`, or failed to.
pub fn update_hostname_after_sync(id: u128, synced: &Result<(), String>) -> (r: ApiResponse)
    ensures
        r@ == hostname_updated_answer(id),
{
    success_response(message_about("Hostname updated for machine ", id))
}

} // verus!
