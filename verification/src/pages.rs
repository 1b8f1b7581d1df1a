use vstd::prelude::*;

use crate::ids::{id_text, machine_id_text};
use crate::response::{answer, ApiResponse, Body, BodyView, MediaType, ResponseView, STATUS_INTERNAL_ERROR, STATUS_NOT_FOUND, STATUS_OK};
use crate::store::MachineRecord;
use crate::text::concat3;

verus! {

/// The hostname form, up to the machine id in its form target.
pub const FORM_HEAD: &'static str = r###"
                <div class="sm:flex sm:items-start">
                    <div class="mt-3 text-center sm:mt-0 sm:text-left w-full">
                        <h3 class="text-base font-semibold leading-6 text-gray-900">
                            Update Machine Hostname
                        </h3>
                        <div class="mt-2">
                            <form hx-post="/api/machines/"###;

/// The hostname form, from after the machine id up to the current hostname.
pub const FORM_MIDDLE: &'static str = r###"/hostname" hx-target="#hostname-modal">
                                <label for="hostname" class="block text-sm font-medium text-gray-700">Hostname</label>
                                <input type="text" name="hostname" id="hostname" value=""###;

/// The hostname form, from after the current hostname to its end.
pub const FORM_TAIL: &'static str = r###"" class="mt-1 block w-full rounded-md border-gray-300 shadow-sm focus:border-indigo-500 focus:ring-indigo-500 sm:text-sm" placeholder="Enter hostname">
                                <div class="mt-5 sm:mt-4 sm:flex sm:flex-row-reverse">
                                    <button type="submit" class="inline-flex w-full justify-center rounded-md bg-indigo-600 px-3 py-2 text-sm font-semibold text-white shadow-sm hover:bg-indigo-500 sm:ml-3 sm:w-auto">
                                        Update
                                    </button>
                                    <button type="button" class="mt-3 inline-flex w-full justify-center rounded-md bg-white px-3 py-2 text-sm font-semibold text-gray-900 shadow-sm ring-1 ring-inset ring-gray-300 hover:bg-gray-50 sm:mt-0 sm:w-auto" onclick="document.getElementById('hostname-modal').classList.add('hidden')">
                                        Cancel
                                    </button>
                                </div>
                            </form>
                        </div>
                    </div>
                </div>
                "###;

/// The hostname edit form for machine `id`, filled in with `hostname`.
pub open spec fn hostname_form_page(id: u128, hostname: Seq<char>) -> Seq<char> {
    FORM_HEAD@ + id_text(id) + FORM_MIDDLE@ + hostname + FORM_TAIL@
}

/// The hostname a record shows in the form: its hostname, or nothing.
pub open spec fn shown_hostname(m: MachineRecord) -> Seq<char> {
    match m.hostname {
        Some(h) => h@,
        None => Seq::empty(),
    }
}

/// The answer to a request for the hostname form of machine `id`.
pub open spec fn hostname_form_answer(id: u128, lookup: Result<Option<MachineRecord>, String>) -> ResponseView {
    match lookup {
        Ok(Some(m)) => answer(STATUS_OK, BodyView::Typed(MediaType::TextHtml, hostname_form_page(id, shown_hostname(m)))),
        Ok(None) => answer(
            STATUS_NOT_FOUND,
            BodyView::Typed(
                MediaType::TextHtml,
                "<div class=\"p-4 text-red-500\">Machine with ID "@ + id_text(id) + " not found</div>"@,
            ),
        ),
        Err(e) => answer(
            STATUS_INTERNAL_ERROR,
            BodyView::Typed(MediaType::TextHtml, "<div class=\"p-4 text-red-500\">Error: "@ + e@ + "</div>"@),
        ),
    }
}

/// The hostname edit form for machine `id`, filled in with `hostname`.
pub fn hostname_form(id: u128, hostname: &str) -> (page: String)
    ensures
        page@ == hostname_form_page(id, hostname@),
{
    let id_str = machine_id_text(id);
    let mut page = concat3(FORM_HEAD, id_str.as_str(), FORM_MIDDLE);
    page.append(hostname);
    page.append(FORM_TAIL);
    page
}

/// Answers `GET /api/machines/:id/hostname` from the store's lookup of `id`.
pub fn get_hostname_form(id: u128, lookup: &Result<Option<MachineRecord>, String>) -> (r: ApiResponse)
    ensures
        r@ == hostname_form_answer(id, *lookup),
{
    match lookup {
        Ok(Some(m)) => {
            let current = match &m.hostname {
                Some(h) => h.clone(),
                None => String::new(),
            };
            let page = hostname_form(id, current.as_str());
            ApiResponse { status: STATUS_OK, body: Body::Typed(MediaType::TextHtml, page) }
        },
        Ok(None) => {
            let id_str = machine_id_text(id);
            let page = concat3("<div class=\"p-4 text-red-500\">Machine with ID ", id_str.as_str(), " not found</div>");
            ApiResponse { status: STATUS_NOT_FOUND, body: Body::Typed(MediaType::TextHtml, page) }
        },
        Err(e) => {
            let page = concat3("<div class=\"p-4 text-red-500\">Error: ", e.as_str(), "</div>");
            ApiResponse { status: STATUS_INTERNAL_ERROR, body: Body::Typed(MediaType::TextHtml, page) }
        },
    }
}

} // verus!
