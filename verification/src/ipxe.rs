use vstd::prelude::*;

use crate::response::{answer, database_error_answer, database_error_response, ApiResponse, Body, BodyView, MediaType, ResponseView, STATUS_NOT_FOUND, STATUS_OK};
use crate::store::MachineRecord;
use crate::text::{count_char, occurrences, text};

verus! {

/// The boot script for a machine the store knows.
pub const KNOWN_MACHINE_SCRIPT: &'static str = "#!ipxe\nchain http://10.7.1.30:8080/hookos.ipxe";

/// The boot script for a machine the store does not know yet.
pub const NEW_MACHINE_SCRIPT: &'static str = "#!ipxe\nchain http://10.7.1.30:8080/sparxplug.ipxe";

/// A path segment is served a boot script when it looks like a MAC address:
/// it contains `:` and splits at `:` into six parts, that is, it holds
/// exactly five `:`.
pub open spec fn is_boot_mac(mac: Seq<char>) -> bool {
    occurrences(mac, ':') == 5
}

/// What `GET /:mac` does first.
#[derive(Debug, Clone, PartialEq, Eq)]
pub enum IpxeStep {
    /// Look the machine with this MAC address up in the store.
    LookUp(String),
    /// Send this answer.
    Answer(ApiResponse),
}

/// What an `IpxeStep` holds.
pub enum IpxeStepView {
    LookUp(Seq<char>),
    Answer(ResponseView),
}

impl View for IpxeStep {
    type V = IpxeStepView;

    open spec fn view(&self) -> IpxeStepView {
        match self {
            IpxeStep::LookUp(mac) => IpxeStepView::LookUp(mac@),
            IpxeStep::Answer(r) => IpxeStepView::Answer(r@),
        }
    }
}

/// The answer to a path that is no MAC address.
pub open spec fn not_a_mac_answer() -> ResponseView {
    answer(STATUS_NOT_FOUND, BodyView::Plain("Not Found"@))
}

/// What `GET /:mac` does first: look the MAC address up when it is one,
/// else answer `404` at once.
pub open spec fn ipxe_first_step(mac: Seq<char>) -> IpxeStepView {
    if is_boot_mac(mac) {
        IpxeStepView::LookUp(mac)
    } else {
        IpxeStepView::Answer(not_a_mac_answer())
    }
}

/// The answer to `GET /:mac` from the store's lookup of the MAC address: a
/// known machine chains to the installer environment, an unknown one to the
/// discovery environment.
pub open spec fn ipxe_answer(lookup: Result<Option<MachineRecord>, String>) -> ResponseView {
    match lookup {
        Ok(Some(_)) => answer(STATUS_OK, BodyView::Typed(MediaType::TextPlain, KNOWN_MACHINE_SCRIPT@)),
        Ok(None) => answer(STATUS_OK, BodyView::Typed(MediaType::TextPlain, NEW_MACHINE_SCRIPT@)),
        Err(e) => database_error_answer(e@),
    }
}

/// Whether a path segment is served a boot script.
pub fn is_boot_mac_text(mac: &String) -> (b: bool)
    ensures
        b == is_boot_mac(mac@),
{
    count_char(mac.as_str(), ':') == 5
}

/// `GET /:mac`: what to do with the requested path segment.
pub fn ipxe_script(mac: String) -> (step: IpxeStep)
    ensures
        step@ == ipxe_first_step(mac@),
{
    if is_boot_mac_text(&mac) {
        IpxeStep::LookUp(mac)
    } else {
        IpxeStep::Answer(ApiResponse { status: STATUS_NOT_FOUND, body: Body::Plain(text("Not Found")) })
    }
}

/// `GET /:mac`, once the store has looked the MAC address up.
pub fn ipxe_script_after_lookup(lookup: &Result<Option<MachineRecord>, String>) -> (r: ApiResponse)
    ensures
        r@ == ipxe_answer(*lookup),
{
    match lookup {
        Ok(Some(_)) => ApiResponse { status: STATUS_OK, body: Body::Typed(MediaType::TextPlain, text(KNOWN_MACHINE_SCRIPT)) },
        Ok(None) => ApiResponse { status: STATUS_OK, body: Body::Typed(MediaType::TextPlain, text(NEW_MACHINE_SCRIPT)) },
        Err(e) => database_error_response(e),
    }
}

} // verus!
