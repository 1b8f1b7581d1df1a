use vstd::prelude::*;

use crate::bmc::bmc_answer;
use crate::delete::{delete_after_lookup, delete_answer, DeleteStepView};
use crate::edit::{any_succeeded, edit_answer, given_nameservers, given_text, nonempty_names, planned_updates, report_messages, MachineEdit, UpdateReport};
use crate::ipxe::{ipxe_first_step, is_boot_mac, IpxeStepView};
use crate::machines::{assign_os_answer, os_installed_answer};
use crate::response::{BodyView, ResponseView, STATUS_BAD_REQUEST, STATUS_OK};
use crate::store::{update_status_code, MachineRecord};
use crate::sync::{after_insert, after_lookup, after_write, hostname_updated_answer, registered_answer, status_updated_answer, FollowUpView};
use crate::text::occurrences;

verus! {

/// Every endpoint that writes one stored machine answers from the store's
/// report alone: `404` exactly when the store holds no such machine, `500`
/// exactly when the store failed, and `200` when the write went through
/// (the status and hostname updates first look the machine up again to pass
/// it on, and answer only then).
pub proof fn store_report_decides_status(id: u128, os_choice: Seq<char>, outcome: Result<bool, String>)
    ensures
        assign_os_answer(id, os_choice, outcome).status == update_status_code(outcome),
        os_installed_answer(id, outcome).status == update_status_code(outcome),
        bmc_answer(id, outcome).status == update_status_code(outcome),
        after_write(id, outcome) is LookUp <==> outcome == Ok::<bool, String>(true),
        after_write(id, outcome) matches FollowUpView::Answer(r) ==> r.status == update_status_code(outcome),
{
}

/// Once the store has taken a registration, a status update or a hostname
/// update, the request succeeds whatever happens next: whether the machine
/// is found again and whether the provisioning service takes it, the answer
/// is the success answer (the provisioning step, when there is one, is
/// followed by that same answer).
pub proof fn provisioning_never_changes_the_answer(id: u128, lookup: Result<Option<MachineRecord>, String>)
    ensures
        after_insert(Ok::<u128, String>(id)) == FollowUpView::LookUp(id),
        after_lookup(id, lookup, registered_answer(id)) == FollowUpView::Sync(id)
            || after_lookup(id, lookup, registered_answer(id)) == FollowUpView::Answer(registered_answer(id)),
        after_lookup(id, lookup, status_updated_answer(id)) == FollowUpView::Sync(id)
            || after_lookup(id, lookup, status_updated_answer(id)) == FollowUpView::Answer(status_updated_answer(id)),
        after_lookup(id, lookup, hostname_updated_answer(id)) == FollowUpView::Sync(id)
            || after_lookup(id, lookup, hostname_updated_answer(id)) == FollowUpView::Answer(hostname_updated_answer(id)),
        registered_answer(id).status == 201,
        status_updated_answer(id).status == STATUS_OK,
        hostname_updated_answer(id).status == STATUS_OK,
{
}

/// A deletion only reaches the provisioning service for a machine the store
/// found, and its hardware's removal does not decide the answer: the store's
/// report does, and only the success message tells whether the hardware went
/// too.
pub proof fn hardware_removal_does_not_decide_deletion(
    id: u128,
    lookup: Result<Option<MachineRecord>, String>,
    outcome: Result<bool, String>,
)
    ensures
        delete_after_lookup(id, lookup) is RemoveHardware <==> lookup matches Ok(Some(_)),
        delete_answer(true, outcome).status == delete_answer(false, outcome).status,
        delete_answer(true, outcome).status == update_status_code(outcome),
        outcome != Ok::<bool, String>(true) ==> delete_answer(true, outcome) == delete_answer(false, outcome),
{
}

/// The non-empty entries of a list are all kept, in order, and nothing else.
pub proof fn nonempty_names_keeps_exactly_the_nonempty(names: Seq<Seq<char>>)
    ensures
        nonempty_names(names).len() <= names.len(),
        forall|i: int| 0 <= i < nonempty_names(names).len() ==> #[trigger] nonempty_names(names)[i].len() > 0,
        (forall|i: int| 0 <= i < names.len() ==> #[trigger] names[i].len() > 0) ==> nonempty_names(names) == names,
        (forall|i: int| 0 <= i < names.len() ==> #[trigger] names[i].len() == 0) ==> nonempty_names(names).len() == 0,
    decreases names.len(),
{
    if names.len() > 0 {
        let rest = names.drop_last();
        nonempty_names_keeps_exactly_the_nonempty(rest);
        if forall|i: int| 0 <= i < names.len() ==> #[trigger] names[i].len() > 0 {
            assert forall|i: int| 0 <= i < rest.len() implies #[trigger] rest[i].len() > 0 by {
                assert(rest[i] == names[i]);
            }
            assert(rest.push(names.last()) =~= names);
        }
        if forall|i: int| 0 <= i < names.len() ==> #[trigger] names[i].len() == 0 {
            assert forall|i: int| 0 <= i < rest.len() implies #[trigger] rest[i].len() == 0 by {
                assert(rest[i] == names[i]);
            }
            assert(names[names.len() - 1].len() == 0);
        }
    }
}

/// An edit writes only what the form gives: at most one write per field,
/// none at all when every field is absent or empty (and every name server
/// entry empty), and such an edit is answered `400` "No updates provided".
pub proof fn edit_writes_only_what_is_given(edit: MachineEdit)
    ensures
        planned_updates(edit).len() <= 4,
        (given_text(edit.hostname).len() == 0 && given_text(edit.ip_address).len() == 0
            && given_text(edit.mac_address).len() == 0 && given_nameservers(edit.nameservers).len() == 0)
            ==> planned_updates(edit).len() == 0,
        edit_answer(Seq::<UpdateReport>::empty()) == (ResponseView {
            status: STATUS_BAD_REQUEST,
            body: BodyView::Outcome { success: false, message: "No updates provided"@ },
        }),
{
    assert(report_messages(Seq::<UpdateReport>::empty()).len() == 0);
}

/// An edit is answered `200` exactly when at least one of its writes went
/// through, else `400`; the answer's `success` says the same; and it reports
/// one line per write.
pub proof fn edit_succeeds_when_a_write_does(reports: Seq<UpdateReport>)
    ensures
        edit_answer(reports).status == STATUS_OK <==> any_succeeded(reports),
        edit_answer(reports).status == STATUS_OK || edit_answer(reports).status == STATUS_BAD_REQUEST,
        edit_answer(reports).body matches BodyView::Outcome { success, .. } && success == any_succeeded(reports),
        report_messages(reports).len() == reports.len(),
{
}

/// A text with no `c` in it has no occurrence of `c`.
proof fn absent_char_never_occurs(s: Seq<char>, c: char)
    requires
        !s.contains(c),
    ensures
        occurrences(s, c) == 0,
    decreases s.len(),
{
    if s.len() > 0 {
        assert forall|i: int| 0 <= i < s.drop_last().len() implies s.drop_last()[i] != c by {
            assert(s.drop_last()[i] == s[i]);
        }
        absent_char_never_occurs(s.drop_last(), c);
        assert(s.last() == s[s.len() - 1]);
    }
}

/// A boot-script request reaches the store only for a path that holds
/// exactly five `:` (so, in particular, contains `:`), and then asks for that
/// very path; any other path is refused with `404` before any lookup.
pub proof fn boot_scripts_only_for_mac_shaped_paths(mac: Seq<char>)
    ensures
        ipxe_first_step(mac) is LookUp <==> occurrences(mac, ':') == 5,
        is_boot_mac(mac) ==> mac.contains(':'),
        ipxe_first_step(mac) matches IpxeStepView::LookUp(m) ==> m == mac,
        ipxe_first_step(mac) matches IpxeStepView::Answer(r) ==> r.status == 404,
{
    if !mac.contains(':') {
        absent_char_never_occurs(mac, ':');
    }
}


/// An edit is answered `200` with `success: true` exactly when the store
/// reported at least one write as done (`Ok(true)`), whichever field that
/// write was for; otherwise it is answered `400` with `success: false`.
pub proof fn edit_answer_follows_done_writes(reports: Seq<UpdateReport>)
    ensures
        (exists|i: int| 0 <= i < reports.len() && #[trigger] reports[i].outcome == Ok::<bool, String>(true))
            ==> (edit_answer(reports).status == 200
                && (edit_answer(reports).body matches BodyView::Outcome { success, .. } && success)),
        !(exists|i: int| 0 <= i < reports.len() && #[trigger] reports[i].outcome == Ok::<bool, String>(true))
            ==> (edit_answer(reports).status == 400
                && (edit_answer(reports).body matches BodyView::Outcome { success, .. } && !success)),
{
    if exists|i: int| 0 <= i < reports.len() && #[trigger] reports[i].outcome == Ok::<bool, String>(true) {
        let i = choose|i: int| 0 <= i < reports.len() && #[trigger] reports[i].outcome == Ok::<bool, String>(true);
        assert(crate::edit::succeeded(reports[i].outcome));
        assert(any_succeeded(reports));
    } else {
        if any_succeeded(reports) {
            let i = choose|i: int| 0 <= i < reports.len() && #[trigger] crate::edit::succeeded(reports[i].outcome);
            assert(reports[i].outcome == Ok::<bool, String>(true));
        }
    }
}

/// The hardware a deletion removes is named from the found machine's MAC
/// address alone: each `:` becomes `-`, every other character is kept, and
/// the result is lower-cased; two records with the same MAC address give the
/// same step, whatever their other fields.
pub proof fn deletion_names_hardware_from_mac(id: u128, m: MachineRecord, other: MachineRecord)
    ensures
        exists|dashed: Seq<char>| {
            &&& dashed.len() == m.mac_address@.len()
            &&& (forall|i: int| 0 <= i < dashed.len() ==> #[trigger] dashed[i] == (if m.mac_address@[i] == ':' { '-' } else { m.mac_address@[i] }))
            &&& delete_after_lookup(id, Ok(Some(m))) == (DeleteStepView::RemoveHardware {
                machine_id: id,
                hardware: crate::text::unicode_lowercase(dashed),
            })
        },
        other.mac_address@ == m.mac_address@ ==> delete_after_lookup(id, Ok(Some(other))) == delete_after_lookup(id, Ok(Some(m))),
{
    let dashed = crate::text::replace_char(m.mac_address@, ':', '-');
    assert(dashed.len() == m.mac_address@.len());
    assert(forall|i: int| 0 <= i < dashed.len() ==> #[trigger] dashed[i] == (if m.mac_address@[i] == ':' { '-' } else { m.mac_address@[i] }));
}

/// `occurrences` counts every position that holds the character: it is the
/// length of the text filtered down to that character.
pub proof fn occurrences_counts_every_position(s: Seq<char>, c: char)
    ensures
        occurrences(s, c) == s.filter(|x: char| x == c).len(),
    decreases s.len(),
{
    reveal(Seq::filter);
    if s.len() > 0 {
        occurrences_counts_every_position(s.drop_last(), c);
    }
}

/// Appending a character adds one occurrence exactly when it is the one
/// counted; the empty text has none.
pub proof fn occurrences_step(s: Seq<char>, x: char, c: char)
    ensures
        occurrences(Seq::<char>::empty(), c) == 0,
        occurrences(s.push(x), c) == occurrences(s, c) + (if x == c { 1int } else { 0int }),
{
    assert(s.push(x).drop_last() =~= s);
}

/// A boot-script request looks up exactly the paths in which `:` stands at
/// exactly five positions, whatever the other characters are.
pub proof fn boot_script_lookup_iff_five_colons(mac: Seq<char>)
    ensures
        ipxe_first_step(mac) is LookUp <==> mac.filter(|x: char| x == ':').len() == 5,
{
    occurrences_counts_every_position(mac, ':');
}

/// Every machine that a lookup found is passed on to the provisioning
/// service, whatever the answer waiting for it; a lookup that found nothing
/// or failed gives that answer at once.
pub proof fn found_machines_are_passed_on(id: u128, lookup: Result<Option<MachineRecord>, String>, done: ResponseView)
    ensures
        lookup matches Ok(Some(_)) ==> after_lookup(id, lookup, done) == FollowUpView::Sync(id),
        !(lookup matches Ok(Some(_))) ==> after_lookup(id, lookup, done) == FollowUpView::Answer(done),
{
}

/// The stored BMC credentials carry the form's address, user name and
/// password, whatever the controller kind; the kind is `IPMI` exactly for the
/// text "IPMI", `Redfish` exactly for "Redfish", and any other text is kept.
pub proof fn bmc_credentials_keep_the_form(form: crate::bmc::BmcCredentialsUpdateRequest)
    ensures
        crate::bmc::credentials_of(form).password == Some(form.bmc_password@),
        crate::bmc::credentials_of(form).address == form.bmc_address@,
        crate::bmc::credentials_of(form).username == form.bmc_username@,
        crate::bmc::credentials_of(form).bmc_type is IPMI <==> form.bmc_type@ == "IPMI"@,
        crate::bmc::credentials_of(form).bmc_type is Redfish <==> form.bmc_type@ == "Redfish"@,
        crate::bmc::credentials_of(form).bmc_type matches crate::bmc::BmcTypeView::Other(n) ==> n == form.bmc_type@,
{
    reveal_strlit("IPMI");
    reveal_strlit("Redfish");
    assert("IPMI"@[0] != "Redfish"@[0]);
}

} // verus!
