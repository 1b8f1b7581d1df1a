//! Request handling for the machine-provisioning API: what each endpoint
//! answers for each outcome of the store it consults, which store and
//! provisioning-service calls it makes in which order, and the texts and
//! pages it sends back.

pub mod ids;
pub mod text;
pub mod response;
pub mod store;
pub mod machines;
pub mod edit;
pub mod sync;
pub mod delete;
pub mod pages;
pub mod bmc;
pub mod ipxe;
pub mod errors;
pub mod laws;
pub mod answer_laws;
