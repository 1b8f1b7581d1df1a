use vstd::prelude::*;

use crate::response::{answer, missing_machine_message, missing_machine_text, ApiResponse, Body, BodyView, ResponseView, STATUS_INTERNAL_ERROR, STATUS_NOT_FOUND, STATUS_OK};
use crate::text::{concat2, concat3, text};

verus! {

/// The kind of a machine's baseboard management controller.
#[derive(Debug, Clone, PartialEq, Eq)]
pub enum BmcType {
    IPMI,
    Redfish,
    Other(String),
}

/// What a `BmcType` holds.
pub enum BmcTypeView {
    IPMI,
    Redfish,
    Other(Seq<char>),
}

impl View for BmcType {
    type V = BmcTypeView;

    open spec fn view(&self) -> BmcTypeView {
        match self {
            BmcType::IPMI => BmcTypeView::IPMI,
            BmcType::Redfish => BmcTypeView::Redfish,
            BmcType::Other(name) => BmcTypeView::Other(name@),
        }
    }
}

/// The credentials of a machine's management controller.
#[derive(Debug, Clone, PartialEq, Eq)]
pub struct BmcCredentials {
    pub address: String,
    pub username: String,
    pub password: Option<String>,
    pub bmc_type: BmcType,
}

/// What `BmcCredentials` hold.
pub struct BmcCredentialsView {
    pub address: Seq<char>,
    pub username: Seq<char>,
    pub password: Option<Seq<char>>,
    pub bmc_type: BmcTypeView,
}

impl View for BmcCredentials {
    type V = BmcCredentialsView;

    open spec fn view(&self) -> BmcCredentialsView {
        BmcCredentialsView {
            address: self.address@,
            username: self.username@,
            password: match self.password {
                Some(p) => Some(p@),
                None => None,
            },
            bmc_type: self.bmc_type@,
        }
    }
}

/// The form of `POST /api/machines/:id/bmc`.
#[derive(Debug, Clone, PartialEq, Eq)]
pub struct BmcCredentialsUpdateRequest {
    pub bmc_type: String,
    pub bmc_address: String,
    pub bmc_username: String,
    pub bmc_password: String,
}

/// The controller kind a form names: `IPMI` and `Redfish` are known, any
/// other text is kept as it is.
pub open spec fn bmc_type_named(name: Seq<char>) -> BmcTypeView {
    if name == "IPMI"@ {
        BmcTypeView::IPMI
    } else if name == "Redfish"@ {
        BmcTypeView::Redfish
    } else {
        BmcTypeView::Other(name)
    }
}

/// The credentials a BMC form describes, with the password it gives.
pub open spec fn credentials_of(form: BmcCredentialsUpdateRequest) -> BmcCredentialsView {
    BmcCredentialsView {
        address: form.bmc_address@,
        username: form.bmc_username@,
        password: Some(form.bmc_password@),
        bmc_type: bmc_type_named(form.bmc_type@),
    }
}

/// The controller kind a form names.
pub fn bmc_type_from_name(name: String) -> (t: BmcType)
    ensures
        t@ == bmc_type_named(name@),
{
    if name == text("IPMI") {
        BmcType::IPMI
    } else if name == text("Redfish") {
        BmcType::Redfish
    } else {
        BmcType::Other(name)
    }
}

/// The credentials to store for `POST /api/machines/:id/bmc`.
pub fn bmc_credentials(form: BmcCredentialsUpdateRequest) -> (c: BmcCredentials)
    ensures
        c@ == credentials_of(form),
{
    let bmc_type = bmc_type_from_name(form.bmc_type);
    BmcCredentials {
        address: form.bmc_address,
        username: form.bmc_username,
        password: Some(form.bmc_password),
        bmc_type,
    }
}

/// The page fragment sent when BMC credentials were saved.
pub const BMC_UPDATED_PAGE: &'static str = r###"
                <div class="p-4 mb-4 text-sm text-green-700 bg-green-100 rounded-lg" role="alert">
                    <span class="font-medium">Success!</span> BMC credentials updated.
                </div>
                <script>
                    setTimeout(function() {
                        window.location.reload();
                    }, 1500);
                </script>
            "###;

/// The error alert for a BMC update, up to its message.
pub const BMC_ERROR_HEAD: &'static str = r###"
                <div class="p-4 mb-4 text-sm text-red-700 bg-red-100 rounded-lg" role="alert">
                    <span class="font-medium">Error!</span> "###;

/// The error alert for a BMC update, after its message.
pub const BMC_ERROR_TAIL: &'static str = r###".
                </div>
            "###;

/// The error alert of a BMC update with the message `message`.
pub open spec fn bmc_error_page(message: Seq<char>) -> Seq<char> {
    BMC_ERROR_HEAD@ + message + BMC_ERROR_TAIL@
}

/// The answer to a BMC update of machine `id`, from what the store reported.
pub open spec fn bmc_answer(id: u128, outcome: Result<bool, String>) -> ResponseView {
    match outcome {
        Ok(true) => answer(STATUS_OK, BodyView::Html(BMC_UPDATED_PAGE@)),
        Ok(false) => answer(STATUS_NOT_FOUND, BodyView::Html(bmc_error_page(missing_machine_text(id)))),
        Err(e) => answer(STATUS_INTERNAL_ERROR, BodyView::Html(bmc_error_page("Database error: "@ + e@))),
    }
}

/// Answers `POST /api/machines/:id/bmc` once the store has saved the
/// credentials of machine `id`, or failed to.
pub fn update_bmc(id: u128, outcome: &Result<bool, String>) -> (r: ApiResponse)
    ensures
        r@ == bmc_answer(id, *outcome),
{
    match outcome {
        Ok(true) => ApiResponse { status: STATUS_OK, body: Body::Html(text(BMC_UPDATED_PAGE)) },
        Ok(false) => {
            let message = missing_machine_message(id);
            let page = concat3(BMC_ERROR_HEAD, message.as_str(), BMC_ERROR_TAIL);
            ApiResponse { status: STATUS_NOT_FOUND, body: Body::Html(page) }
        },
        Err(e) => {
            let message = concat2("Database error: ", e.as_str());
            let page = concat3(BMC_ERROR_HEAD, message.as_str(), BMC_ERROR_TAIL);
            ApiResponse { status: STATUS_INTERNAL_ERROR, body: Body::Html(page) }
        },
    }
}

} // verus!
