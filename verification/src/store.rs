use vstd::prelude::*;

verus! {

/// What the handlers read of a stored machine.
#[derive(Debug, Clone, PartialEq, Eq)]
pub struct MachineRecord {
    /// The machine's MAC address, as registered.
    pub mac_address: String,
    /// The machine's hostname, where one is set.
    pub hostname: Option<String>,
}

/// The status an endpoint that writes one stored machine answers with, for
/// what the store reported: `Ok(true)` when it wrote the machine (`200`),
/// `Ok(false)` when it holds no such machine (`404`), `Err` with its error
/// text when it failed (`500`).
pub open spec fn update_status_code(outcome: Result<bool, String>) -> u16 {
    match outcome {
        Ok(true) => 200,
        Ok(false) => 404,
        Err(_) => 500,
    }
}

} // verus!
