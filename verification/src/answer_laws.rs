use vstd::prelude::*;

use crate::bmc::{bmc_answer, BMC_ERROR_HEAD, BMC_ERROR_TAIL, BMC_UPDATED_PAGE};
use crate::delete::{delete_after_lookup, delete_answer, DeleteStepView};
use crate::edit::{edit_answer, nonempty_names, planned_updates, report_messages, update_message, MachineEdit, UpdateReport, UpdateView};
use crate::ids::id_text;
use crate::ipxe::{ipxe_answer, ipxe_first_step, IpxeStepView, KNOWN_MACHINE_SCRIPT, NEW_MACHINE_SCRIPT};
use crate::machines::{assign_os_answer, internal_error_answer, machine_answer, machines_answer, os_installed_answer};
use crate::pages::{hostname_form_answer, FORM_HEAD, FORM_MIDDLE, FORM_TAIL};
use crate::response::{BodyView, MediaType, ResponseView};
use crate::store::MachineRecord;
use crate::sync::{after_insert, after_write, hostname_updated_answer, registered_answer, status_updated_answer, FollowUpView};
use crate::text::{join, texts};

verus! {

/// The `404` error answer that names machine `id`.
pub open spec fn names_missing_machine(r: ResponseView, id: u128) -> bool {
    r == (ResponseView {
        status: 404,
        body: BodyView::Error { error: "Not Found"@, message: "Machine with ID "@ + id_text(id) + " not found"@ },
    })
}

/// The `500` error answer that carries the store's error text `e` unchanged.
pub open spec fn passes_on_store_error(r: ResponseView, e: Seq<char>) -> bool {
    r == (ResponseView { status: 500, body: BodyView::Error { error: "Database Error"@, message: e } })
}

/// The `200` answer with `success: true` and the message `m`.
pub open spec fn succeeds_with(r: ResponseView, m: Seq<char>) -> bool {
    r == (ResponseView { status: 200, body: BodyView::Outcome { success: true, message: m } })
}

/// Lookups and listings: a found record is sent as it is, whatever it holds;
/// a missing machine is named in a `404`; a store failure is passed on in a
/// `500` with the store's text.
pub proof fn reads_answer_from_the_store(id: u128, m: MachineRecord, e: String)
    ensures
        machine_answer(id, Ok(Some(m))) == (ResponseView { status: 200, body: BodyView::Record }),
        names_missing_machine(machine_answer(id, Ok(None)), id),
        passes_on_store_error(machine_answer(id, Err(e)), e@),
        machines_answer(Ok(())) == (ResponseView { status: 200, body: BodyView::Records }),
        passes_on_store_error(machines_answer(Err(e)), e@),
        internal_error_answer(e@) == (ResponseView {
            status: 500,
            body: BodyView::Error { error: "Internal Server Error"@, message: e@ },
        }),
{
}

/// Writes of one machine: a done write is confirmed with a message that
/// names the machine (and, for an OS assignment, the OS); a write of a
/// missing machine is answered with a `404` naming it; a failed write passes
/// the store's text on in a `500`.
pub proof fn writes_answer_from_the_store(id: u128, os_choice: Seq<char>, e: String)
    ensures
        succeeds_with(
            assign_os_answer(id, os_choice, Ok(true)),
            "OS "@ + os_choice + " assigned to machine "@ + id_text(id),
        ),
        names_missing_machine(assign_os_answer(id, os_choice, Ok(false)), id),
        passes_on_store_error(assign_os_answer(id, os_choice, Err(e)), e@),
        succeeds_with(os_installed_answer(id, Ok(true)), "OS installed updated for machine "@ + id_text(id)),
        names_missing_machine(os_installed_answer(id, Ok(false)), id),
        passes_on_store_error(os_installed_answer(id, Err(e)), e@),
        after_write(id, Ok(true)) == FollowUpView::LookUp(id),
        after_write(id, Ok(false)) matches FollowUpView::Answer(r) && names_missing_machine(r, id),
        after_write(id, Err(e)) matches FollowUpView::Answer(r) && passes_on_store_error(r, e@),
        succeeds_with(status_updated_answer(id), "Status updated for machine "@ + id_text(id)),
        succeeds_with(hostname_updated_answer(id), "Hostname updated for machine "@ + id_text(id)),
{
}

/// A registration looks up the very id the store gave back, is answered
/// `201` with that id and the next step "awaiting_os_assignment", and a
/// failed insert passes the store's text on under "Registration Failed".
pub proof fn registration_answers(id: u128, e: String)
    ensures
        after_insert(Ok(id)) == FollowUpView::LookUp(id),
        after_insert(Err(e)) == FollowUpView::Answer(ResponseView {
            status: 500,
            body: BodyView::Error { error: "Registration Failed"@, message: e@ },
        }),
        registered_answer(id) == (ResponseView {
            status: 201,
            body: BodyView::Registered { machine_id: id, next_step: "awaiting_os_assignment"@ },
        }),
{
}

/// Deletion answers: a done deletion succeeds, and its message says whether
/// the hardware went too (the two messages differ); a machine missing at the
/// lookup or at the deletion is a `404`; a store failure is a `500` that
/// carries the store's text after "Database error: ".
pub proof fn deletion_answers(id: u128, e: String)
    ensures
        succeeds_with(delete_answer(true, Ok(true)), "Machine successfully deleted from Dragonfly and Tinkerbell."@),
        succeeds_with(
            delete_answer(false, Ok(true)),
            "Machine deleted from Dragonfly but there was an issue removing it from Tinkerbell."@,
        ),
        delete_answer(true, Ok(true)) != delete_answer(false, Ok(true)),
        forall|removed: bool| delete_answer(removed, Ok(false)) == (ResponseView {
            status: 404,
            body: BodyView::ErrorOnly("Machine not found in database"@),
        }),
        forall|removed: bool| delete_answer(removed, Err(e)) == (ResponseView {
            status: 500,
            body: BodyView::ErrorOnly("Database error: "@ + e@),
        }),
        delete_after_lookup(id, Ok(None)) == DeleteStepView::Answer(ResponseView {
            status: 404,
            body: BodyView::ErrorOnly("Machine not found"@),
        }),
        delete_after_lookup(id, Err(e)) == DeleteStepView::Answer(ResponseView {
            status: 500,
            body: BodyView::ErrorOnly("Database error: "@ + e@),
        }),
{
    reveal_strlit("Machine successfully deleted from Dragonfly and Tinkerbell.");
    reveal_strlit("Machine deleted from Dragonfly but there was an issue removing it from Tinkerbell.");
    assert("Machine successfully deleted from Dragonfly and Tinkerbell."@[8]
        != "Machine deleted from Dragonfly but there was an issue removing it from Tinkerbell."@[8]);
}

/// The line reported for each write: a done write names the field (and, for
/// text fields, the value written); a missing machine and a failure name the
/// field, a failure also the store's text.
pub proof fn edit_lines(v: Seq<char>, ns: Seq<Seq<char>>, e: String)
    ensures
        update_message(UpdateView::Hostname(v), Ok(true)) == "Hostname updated to '"@ + v + "'"@,
        update_message(UpdateView::Hostname(v), Ok(false)) == "Machine not found for hostname update"@,
        update_message(UpdateView::Hostname(v), Err(e)) == "Failed to update hostname: "@ + e@,
        update_message(UpdateView::IpAddress(v), Ok(true)) == "IP address updated to '"@ + v + "'"@,
        update_message(UpdateView::IpAddress(v), Ok(false)) == "Machine not found for IP address update"@,
        update_message(UpdateView::IpAddress(v), Err(e)) == "Failed to update IP address: "@ + e@,
        update_message(UpdateView::MacAddress(v), Ok(true)) == "MAC address updated to '"@ + v + "'"@,
        update_message(UpdateView::MacAddress(v), Ok(false)) == "Machine not found for MAC address update"@,
        update_message(UpdateView::MacAddress(v), Err(e)) == "Failed to update MAC address: "@ + e@,
        update_message(UpdateView::Nameservers(ns), Ok(true)) == "DNS servers updated"@,
        update_message(UpdateView::Nameservers(ns), Ok(false)) == "Machine not found for DNS servers update"@,
        update_message(UpdateView::Nameservers(ns), Err(e)) == "Failed to update DNS servers: "@ + e@,
{
}

/// An edit reports one line per write, in the order of the writes, and its
/// message is those lines joined by ", " (or "No updates provided" when there
/// were none).
pub proof fn edit_reports_every_write(reports: Seq<UpdateReport>)
    ensures
        report_messages(reports).len() == reports.len(),
        forall|i: int| 0 <= i < reports.len() ==> #[trigger] report_messages(reports)[i] == update_message(reports[i].update@, reports[i].outcome),
        reports.len() > 0 ==> (edit_answer(reports).body matches BodyView::Outcome { message, .. } && message == join(report_messages(reports), ", "@)),
        reports.len() == 0 ==> (edit_answer(reports).body matches BodyView::Outcome { message, .. } && message == "No updates provided"@),
{
}

/// Joining: nothing gives the empty text, one part gives that part, and one
/// more part is added after the separator.
pub proof fn join_adds_parts_after_the_separator(parts: Seq<Seq<char>>, p: Seq<char>, sep: Seq<char>)
    ensures
        join(Seq::<Seq<char>>::empty(), sep) == Seq::<char>::empty(),
        join(seq![p], sep) == p,
        parts.len() > 0 ==> join(parts.push(p), sep) == join(parts, sep) + sep + p,
{
    assert(parts.push(p).drop_last() =~= parts);
}

/// The non-empty name servers are exactly the entries of the list that are
/// not empty, in their order.
pub proof fn nonempty_names_is_the_nonempty_filter(names: Seq<Seq<char>>)
    ensures
        nonempty_names(names) == names.filter(|s: Seq<char>| s.len() > 0),
    decreases names.len(),
{
    reveal(Seq::filter);
    if names.len() > 0 {
        nonempty_names_is_the_nonempty_filter(names.drop_last());
    }
}

/// The given hostname, as a write list of at most one entry.
pub open spec fn hostname_write(edit: MachineEdit) -> Seq<UpdateView> {
    match edit.hostname {
        Some(h) => if h@.len() > 0 { seq![UpdateView::Hostname(h@)] } else { Seq::empty() },
        None => Seq::empty(),
    }
}

/// The given IP address, as a write list of at most one entry.
pub open spec fn ip_write(edit: MachineEdit) -> Seq<UpdateView> {
    match edit.ip_address {
        Some(a) => if a@.len() > 0 { seq![UpdateView::IpAddress(a@)] } else { Seq::empty() },
        None => Seq::empty(),
    }
}

/// The given MAC address, as a write list of at most one entry.
pub open spec fn mac_write(edit: MachineEdit) -> Seq<UpdateView> {
    match edit.mac_address {
        Some(m) => if m@.len() > 0 { seq![UpdateView::MacAddress(m@)] } else { Seq::empty() },
        None => Seq::empty(),
    }
}

/// The given name servers without empty entries, as a write list of at most
/// one entry (none when no entry is left).
pub open spec fn nameserver_write(edit: MachineEdit) -> Seq<UpdateView> {
    match edit.nameservers {
        Some(list) => {
            let kept = texts(list@).filter(|s: Seq<char>| s.len() > 0);
            if kept.len() > 0 { seq![UpdateView::Nameservers(kept)] } else { Seq::empty() }
        },
        None => Seq::empty(),
    }
}

/// An edit writes, in this order, the hostname, the IP address and the MAC
/// address when each is given and not empty, then the name servers without
/// their empty entries when any is left; it writes nothing else.
pub proof fn edit_writes_given_fields_in_order(edit: MachineEdit)
    ensures
        planned_updates(edit) == hostname_write(edit) + ip_write(edit) + mac_write(edit) + nameserver_write(edit),
{
    if let Some(list) = edit.nameservers {
        nonempty_names_is_the_nonempty_filter(texts(list@));
    }
    assert(planned_updates(edit) =~= hostname_write(edit) + ip_write(edit) + mac_write(edit) + nameserver_write(edit));
}

/// The hostname form of a found machine is the form filled in with the
/// machine's id and its hostname (nothing when it has none), whatever else
/// the record holds; a missing machine and a store failure get short error
/// fragments.
pub proof fn hostname_form_answers(id: u128, m: MachineRecord, e: String)
    ensures
        hostname_form_answer(id, Ok(Some(m))) == (ResponseView {
            status: 200,
            body: BodyView::Typed(
                MediaType::TextHtml,
                FORM_HEAD@ + id_text(id) + FORM_MIDDLE@ + (match m.hostname {
                    Some(h) => h@,
                    None => Seq::<char>::empty(),
                }) + FORM_TAIL@,
            ),
        }),
        hostname_form_answer(id, Ok(None)) == (ResponseView {
            status: 404,
            body: BodyView::Typed(
                MediaType::TextHtml,
                "<div class=\"p-4 text-red-500\">Machine with ID "@ + id_text(id) + " not found</div>"@,
            ),
        }),
        hostname_form_answer(id, Err(e)) == (ResponseView {
            status: 500,
            body: BodyView::Typed(MediaType::TextHtml, "<div class=\"p-4 text-red-500\">Error: "@ + e@ + "</div>"@),
        }),
{
}

/// BMC update answers: the saved page when done; the error alert naming the
/// missing machine, or carrying the store's text, otherwise.
pub proof fn bmc_update_answers(id: u128, e: String)
    ensures
        bmc_answer(id, Ok(true)) == (ResponseView { status: 200, body: BodyView::Html(BMC_UPDATED_PAGE@) }),
        bmc_answer(id, Ok(false)) == (ResponseView {
            status: 404,
            body: BodyView::Html(BMC_ERROR_HEAD@ + ("Machine with ID "@ + id_text(id) + " not found"@) + BMC_ERROR_TAIL@),
        }),
        bmc_answer(id, Err(e)) == (ResponseView {
            status: 500,
            body: BodyView::Html(BMC_ERROR_HEAD@ + ("Database error: "@ + e@) + BMC_ERROR_TAIL@),
        }),
{
}

/// Boot scripts: a machine the store knows chains to the installer, an
/// unknown one to discovery (two different scripts), whatever the record
/// holds; a store failure is passed on; a path that is no MAC address gets a
/// plain `404`.
pub proof fn boot_script_answers(m: MachineRecord, e: String, mac: Seq<char>)
    ensures
        ipxe_answer(Ok(Some(m))) == (ResponseView { status: 200, body: BodyView::Typed(MediaType::TextPlain, KNOWN_MACHINE_SCRIPT@) }),
        ipxe_answer(Ok(None)) == (ResponseView { status: 200, body: BodyView::Typed(MediaType::TextPlain, NEW_MACHINE_SCRIPT@) }),
        KNOWN_MACHINE_SCRIPT@ != NEW_MACHINE_SCRIPT@,
        passes_on_store_error(ipxe_answer(Err(e)), e@),
        ipxe_first_step(mac) matches IpxeStepView::Answer(r) ==> r == (ResponseView {
            status: 404,
            body: BodyView::Plain("Not Found"@),
        }),
{
    reveal_strlit("#!ipxe\nchain http://10.7.1.30:8080/hookos.ipxe");
    reveal_strlit("#!ipxe\nchain http://10.7.1.30:8080/sparxplug.ipxe");
    assert(KNOWN_MACHINE_SCRIPT@[35] != NEW_MACHINE_SCRIPT@[35]);
}

/// Replacing a character keeps the length and every other character, and
/// writes `to` exactly where `from` stood.
pub proof fn replace_char_is_pointwise(s: Seq<char>, from: char, to: char)
    ensures
        crate::text::replace_char(s, from, to).len() == s.len(),
        forall|i: int| 0 <= i < s.len() ==> #[trigger] crate::text::replace_char(s, from, to)[i] == (if s[i] == from { to } else { s[i] }),
{
}

/// ASCII lower-casing keeps the length, turns each capital `A`..=`Z` into the
/// letter 32 code points later, and keeps every other character.
pub proof fn ascii_lowercase_is_pointwise(s: Seq<char>)
    ensures
        crate::text::ascii_lowercase(s).len() == s.len(),
        forall|i: int| 0 <= i < s.len() ==> #[trigger] crate::text::ascii_lowercase(s)[i] == (if 'A' <= s[i] && s[i] <= 'Z' { ((s[i] as int) + 32) as char } else { s[i] }),
{
}

/// The texts of a vector of strings are its strings' texts, one for one.
pub proof fn texts_are_one_for_one(v: Seq<String>)
    ensures
        texts(v).len() == v.len(),
        forall|i: int| 0 <= i < v.len() ==> #[trigger] texts(v)[i] == v[i]@,
{
}

/// A machine id is written as 36 characters: `-` at positions 8, 13, 18 and
/// 23, a lower-case hexadecimal digit everywhere else.
pub proof fn id_text_shape(id: u128)
    ensures
        id_text(id).len() == 36,
        forall|i: int| 0 <= i < 36 ==> (#[trigger] id_text(id)[i] == '-' <==> (i == 8 || i == 13 || i == 18 || i == 23)),
        forall|i: int| 0 <= i < 36 && i != 8 && i != 13 && i != 18 && i != 23 ==>
            (('0' <= #[trigger] id_text(id)[i] && id_text(id)[i] <= '9') || ('a' <= id_text(id)[i] && id_text(id)[i] <= 'f')),
{
    assert forall|i: int| 0 <= i < 36 implies (#[trigger] id_text(id)[i] == '-' <==> (i == 8 || i == 13 || i == 18 || i == 23))
        && (!(i == 8 || i == 13 || i == 18 || i == 23) ==> (('0' <= id_text(id)[i] && id_text(id)[i] <= '9') || ('a' <= id_text(id)[i] && id_text(id)[i] <= 'f'))) by {
        if !(i == 8 || i == 13 || i == 18 || i == 23) {
            let k = crate::ids::digit_index(i);
            let p = vstd::arithmetic::power::pow(16, (31 - k) as nat);
            vstd::arithmetic::power::lemma_pow_positive(16, (31 - k) as nat);
            let q = (id as int) / p;
            vstd::arithmetic::div_mod::lemma_div_pos_is_pos(id as int, p);
            let n = crate::ids::id_nibble(id, k);
            assert(0 <= n < 16);
        }
    }
}

} // verus!
