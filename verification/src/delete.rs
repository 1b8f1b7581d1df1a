use vstd::prelude::*;

use crate::response::{answer, ApiResponse, Body, BodyView, OutcomeResponse, ResponseView, STATUS_INTERNAL_ERROR, STATUS_NOT_FOUND, STATUS_OK};
use crate::store::MachineRecord;
use crate::text::{all_ascii, ascii_lowercase, concat2, lowercase, replace_all, replace_char, text, unicode_lowercase};

verus! {

/// The name under which the provisioning service keeps a machine's hardware:
/// its MAC address with `:` written as `-`, in lower case.
pub open spec fn hardware_name_of(mac: Seq<char>) -> Seq<char> {
    unicode_lowercase(replace_char(mac, ':', '-'))
}

/// The name under which the provisioning service keeps the hardware of the
/// machine with MAC address `mac`.
pub fn hardware_name(mac: &String) -> (name: String)
    ensures
        name@ == hardware_name_of(mac@),
        all_ascii(mac@) ==> name@ == ascii_lowercase(replace_char(mac@, ':', '-')),
        all_ascii(mac@) ==> !name@.contains(':'),
{
    let dashed = replace_all(mac.as_str(), ':', '-');
    proof {
        if all_ascii(mac@) {
            assert forall|i: int| 0 <= i < dashed@.len() implies (#[trigger] dashed@[i] as int) < 128 by {
                assert((mac@[i] as int) < 128);
            }
        }
    }
    let name = lowercase(dashed.as_str());
    proof {
        if all_ascii(mac@) {
            assert forall|i: int| 0 <= i < name@.len() implies #[trigger] name@[i] != ':' by {
                assert(dashed@[i] != ':');
            }
        }
    }
    name
}

/// What a deletion does next.
#[derive(Debug, Clone, PartialEq, Eq)]
pub enum DeleteStep {
    /// Remove the hardware with this name from the provisioning service.
    RemoveHardware { machine_id: u128, hardware: String },
    /// Delete machine `machine_id` from the store; `hardware_removed` tells
    /// whether the provisioning service removed its hardware.
    DeleteRecord { machine_id: u128, hardware_removed: bool },
    /// Send this answer.
    Answer(ApiResponse),
}

/// What a `DeleteStep` holds.
pub enum DeleteStepView {
    RemoveHardware { machine_id: u128, hardware: Seq<char> },
    DeleteRecord { machine_id: u128, hardware_removed: bool },
    Answer(ResponseView),
}

impl View for DeleteStep {
    type V = DeleteStepView;

    open spec fn view(&self) -> DeleteStepView {
        match self {
            DeleteStep::RemoveHardware { machine_id, hardware } => DeleteStepView::RemoveHardware {
                machine_id: *machine_id,
                hardware: hardware@,
            },
            DeleteStep::DeleteRecord { machine_id, hardware_removed } => DeleteStepView::DeleteRecord {
                machine_id: *machine_id,
                hardware_removed: *hardware_removed,
            },
            DeleteStep::Answer(r) => DeleteStepView::Answer(r@),
        }
    }
}

/// The answer carrying a JSON object with the single field `error`.
pub open spec fn error_only_answer(status: u16, error: Seq<char>) -> ResponseView {
    answer(status, BodyView::ErrorOnly(error))
}

/// What a deletion of machine `id` does once the store has looked it up:
/// remove its hardware from the provisioning service when it was found.
pub open spec fn delete_after_lookup(id: u128, lookup: Result<Option<MachineRecord>, String>) -> DeleteStepView {
    match lookup {
        Ok(Some(m)) => DeleteStepView::RemoveHardware { machine_id: id, hardware: hardware_name_of(m.mac_address@) },
        Ok(None) => DeleteStepView::Answer(error_only_answer(STATUS_NOT_FOUND, "Machine not found"@)),
        Err(e) => DeleteStepView::Answer(error_only_answer(STATUS_INTERNAL_ERROR, "Database error: "@ + e@)),
    }
}

/// The message of a deletion that the store carried out.
pub open spec fn deleted_text(hardware_removed: bool) -> Seq<char> {
    if hardware_removed {
        "Machine successfully deleted from Dragonfly and Tinkerbell."@
    } else {
        "Machine deleted from Dragonfly but there was an issue removing it from Tinkerbell."@
    }
}

/// The answer to a deletion, from what the store reported of it.
pub open spec fn delete_answer(hardware_removed: bool, outcome: Result<bool, String>) -> ResponseView {
    match outcome {
        Ok(true) => answer(STATUS_OK, BodyView::Outcome { success: true, message: deleted_text(hardware_removed) }),
        Ok(false) => error_only_answer(STATUS_NOT_FOUND, "Machine not found in database"@),
        Err(e) => error_only_answer(STATUS_INTERNAL_ERROR, "Database error: "@ + e@),
    }
}

fn error_only_response(status: u16, error: String) -> (r: ApiResponse)
    ensures
        r@ == error_only_answer(status, error@),
{
    ApiResponse { status, body: Body::ErrorOnly(error) }
}

/// `DELETE /api/machines/:id`, once the store has looked machine `id` up.
pub fn delete_machine_after_lookup(id: u128, lookup: &Result<Option<MachineRecord>, String>) -> (next: DeleteStep)
    ensures
        next@ == delete_after_lookup(id, *lookup),
{
    match lookup {
        Ok(Some(m)) => DeleteStep::RemoveHardware { machine_id: id, hardware: hardware_name(&m.mac_address) },
        Ok(None) => DeleteStep::Answer(error_only_response(STATUS_NOT_FOUND, text("Machine not found"))),
        Err(e) => DeleteStep::Answer(error_only_response(STATUS_INTERNAL_ERROR, concat2("Database error: ", e.as_str()))),
    }
}

/// `DELETE /api/machines/:id`, once the provisioning service has removed the
/// machine's hardware, or failed to: the machine is deleted from the store
/// either way.
pub fn delete_machine_after_hardware_removal(id: u128, removal: &Result<(), String>) -> (next: DeleteStep)
    ensures
        next@ == (DeleteStepView::DeleteRecord { machine_id: id, hardware_removed: removal is Ok }),
{
    DeleteStep::DeleteRecord { machine_id: id, hardware_removed: removal.is_ok() }
}

/// `DELETE /api/machines/:id`, once the store has deleted the machine, or
/// failed to.
pub fn delete_machine_after_record_removal(hardware_removed: bool, outcome: &Result<bool, String>) -> (r: ApiResponse)
    ensures
        r@ == delete_answer(hardware_removed, *outcome),
{
    match outcome {
        Ok(true) => {
            let message = if hardware_removed {
                text("Machine successfully deleted from Dragonfly and Tinkerbell.")
            } else {
                text("Machine deleted from Dragonfly but there was an issue removing it from Tinkerbell.")
            };
            ApiResponse { status: STATUS_OK, body: Body::Outcome(OutcomeResponse { success: true, message }) }
        },
        Ok(false) => error_only_response(STATUS_NOT_FOUND, text("Machine not found in database")),
        Err(e) => error_only_response(STATUS_INTERNAL_ERROR, concat2("Database error: ", e.as_str())),
    }
}

} // verus!
