use vstd::prelude::*;

use crate::response::{answer, ApiResponse, Body, BodyView, OutcomeResponse, ResponseView, STATUS_BAD_REQUEST, STATUS_OK};
use crate::text::{concat2, concat3, join, join_texts, text, texts};

verus! {

/// The form of `PUT /api/machines/:id`: each field that is given and not
/// empty is written to the machine.
#[derive(Debug, Clone, PartialEq, Eq)]
pub struct MachineEdit {
    pub hostname: Option<String>,
    pub ip_address: Option<String>,
    pub mac_address: Option<String>,
    pub nameservers: Option<Vec<String>>,
}

/// One write to a stored machine.
#[derive(Debug, Clone, PartialEq, Eq)]
pub enum MachineUpdate {
    Hostname(String),
    IpAddress(String),
    MacAddress(String),
    Nameservers(Vec<String>),
}

/// A write to a stored machine, with texts as character sequences.
pub enum UpdateView {
    Hostname(Seq<char>),
    IpAddress(Seq<char>),
    MacAddress(Seq<char>),
    Nameservers(Seq<Seq<char>>),
}

impl View for MachineUpdate {
    type V = UpdateView;

    open spec fn view(&self) -> UpdateView {
        match self {
            MachineUpdate::Hostname(h) => UpdateView::Hostname(h@),
            MachineUpdate::IpAddress(a) => UpdateView::IpAddress(a@),
            MachineUpdate::MacAddress(m) => UpdateView::MacAddress(m@),
            MachineUpdate::Nameservers(ns) => UpdateView::Nameservers(texts(ns@)),
        }
    }
}

/// A write that was made, with what the store reported for it.
#[derive(Debug, PartialEq, Eq)]
pub struct UpdateReport {
    pub update: MachineUpdate,
    pub outcome: Result<bool, String>,
}

/// The entries of `names` that are not empty, in their order.
pub open spec fn nonempty_names(names: Seq<Seq<char>>) -> Seq<Seq<char>>
    decreases names.len(),
{
    if names.len() == 0 {
        Seq::empty()
    } else if names.last().len() > 0 {
        nonempty_names(names.drop_last()).push(names.last())
    } else {
        nonempty_names(names.drop_last())
    }
}

/// The optional text field of the form, as a list of at most one text: the
/// text when it is given and not empty.
pub open spec fn given_text(field: Option<String>) -> Seq<Seq<char>> {
    match field {
        Some(v) => if v@.len() > 0 { seq![v@] } else { Seq::empty() },
        None => Seq::empty(),
    }
}

/// The name servers to write: the non-empty ones given, when there is at
/// least one.
pub open spec fn given_nameservers(field: Option<Vec<String>>) -> Seq<Seq<Seq<char>>> {
    match field {
        Some(list) => {
            let kept = nonempty_names(texts(list@));
            if kept.len() > 0 { seq![kept] } else { Seq::empty() }
        },
        None => Seq::empty(),
    }
}

/// The writes that an edit makes, in the order they are made: hostname, IP
/// address, MAC address, name servers, each only where the form gives it
/// (and, for the name servers, after dropping the empty entries).
pub open spec fn planned_updates(edit: MachineEdit) -> Seq<UpdateView> {
    given_text(edit.hostname).map_values(|v: Seq<char>| UpdateView::Hostname(v))
        + given_text(edit.ip_address).map_values(|v: Seq<char>| UpdateView::IpAddress(v))
        + given_text(edit.mac_address).map_values(|v: Seq<char>| UpdateView::MacAddress(v))
        + given_nameservers(edit.nameservers).map_values(|v: Seq<Seq<char>>| UpdateView::Nameservers(v))
}

/// The line an edit reports for one write and what the store said of it.
pub open spec fn update_message(update: UpdateView, outcome: Result<bool, String>) -> Seq<char> {
    match update {
        UpdateView::Hostname(v) => match outcome {
            Ok(true) => "Hostname updated to '"@ + v + "'"@,
            Ok(false) => "Machine not found for hostname update"@,
            Err(e) => "Failed to update hostname: "@ + e@,
        },
        UpdateView::IpAddress(v) => match outcome {
            Ok(true) => "IP address updated to '"@ + v + "'"@,
            Ok(false) => "Machine not found for IP address update"@,
            Err(e) => "Failed to update IP address: "@ + e@,
        },
        UpdateView::MacAddress(v) => match outcome {
            Ok(true) => "MAC address updated to '"@ + v + "'"@,
            Ok(false) => "Machine not found for MAC address update"@,
            Err(e) => "Failed to update MAC address: "@ + e@,
        },
        UpdateView::Nameservers(_) => match outcome {
            Ok(true) => "DNS servers updated"@,
            Ok(false) => "Machine not found for DNS servers update"@,
            Err(e) => "Failed to update DNS servers: "@ + e@,
        },
    }
}

/// The lines an edit reports, one per write, in order.
pub open spec fn report_messages(reports: Seq<UpdateReport>) -> Seq<Seq<char>> {
    reports.map_values(|r: UpdateReport| update_message(r.update@, r.outcome))
}

/// The store wrote the machine.
pub open spec fn succeeded(outcome: Result<bool, String>) -> bool {
    match outcome {
        Ok(b) => b,
        Err(_) => false,
    }
}

/// At least one write of the edit went through.
pub open spec fn any_succeeded(reports: Seq<UpdateReport>) -> bool {
    exists|i: int| 0 <= i < reports.len() && #[trigger] succeeded(reports[i].outcome)
}

/// The answer to an edit: `200` with the report lines joined by ", " when a
/// write went through; otherwise `400`, with the lines, or with "No updates
/// provided" when nothing was written.
pub open spec fn edit_answer(reports: Seq<UpdateReport>) -> ResponseView {
    let messages = report_messages(reports);
    if any_succeeded(reports) {
        answer(STATUS_OK, BodyView::Outcome { success: true, message: join(messages, ", "@) })
    } else {
        answer(
            STATUS_BAD_REQUEST,
            BodyView::Outcome {
                success: false,
                message: if messages.len() == 0 {
                    "No updates provided"@
                } else {
                    join(messages, ", "@)
                },
            },
        )
    }
}

/// The entries of `names` that are not empty, in their order.
pub fn keep_nonempty(names: &Vec<String>) -> (kept: Vec<String>)
    ensures
        texts(kept@) == nonempty_names(texts(names@)),
{
    let mut kept: Vec<String> = Vec::new();
    let mut i: usize = 0;
    while i < names.len()
        invariant
            i <= names.len(),
            texts(kept@) == nonempty_names(texts(names@.take(i as int))),
        decreases names.len() - i,
    {
        let ghost before = texts(names@.take(i as int));
        let ghost after = texts(names@.take(i + 1));
        assert(after.drop_last() =~= before);
        assert(after.last() == names@[i as int]@);
        if !names[i].as_str().is_empty() {
            kept.push(names[i].clone());
            assert(texts(kept@) =~= nonempty_names(before).push(names@[i as int]@));
        }
        i = i + 1;
    }
    assert(names@.take(names.len() as int) =~= names@);
    kept
}

/// The optional text field as a write, when it is given and not empty.
fn text_update(field: &Option<String>) -> (v: Option<String>)
    ensures
        given_text(*field) == (match v {
            Some(s) => seq![s@],
            None => Seq::<Seq<char>>::empty(),
        }),
{
    match field {
        Some(s) => if s.as_str().is_empty() {
            None
        } else {
            Some(s.clone())
        },
        None => None,
    }
}

/// The writes that an edit makes, in the order it makes them.
pub fn update_machine_plan(edit: &MachineEdit) -> (plan: Vec<MachineUpdate>)
    ensures
        plan@.map_values(|u: MachineUpdate| u@) == planned_updates(*edit),
{
    let mut plan: Vec<MachineUpdate> = Vec::new();
    let ghost h = given_text(edit.hostname).map_values(|v: Seq<char>| UpdateView::Hostname(v));
    let ghost a = given_text(edit.ip_address).map_values(|v: Seq<char>| UpdateView::IpAddress(v));
    let ghost m = given_text(edit.mac_address).map_values(|v: Seq<char>| UpdateView::MacAddress(v));
    let ghost n = given_nameservers(edit.nameservers).map_values(
        |v: Seq<Seq<char>>| UpdateView::Nameservers(v),
    );
    if let Some(v) = text_update(&edit.hostname) {
        plan.push(MachineUpdate::Hostname(v));
    }
    assert(plan@.map_values(|u: MachineUpdate| u@) =~= h);
    if let Some(v) = text_update(&edit.ip_address) {
        plan.push(MachineUpdate::IpAddress(v));
    }
    assert(plan@.map_values(|u: MachineUpdate| u@) =~= h + a);
    if let Some(v) = text_update(&edit.mac_address) {
        plan.push(MachineUpdate::MacAddress(v));
    }
    assert(plan@.map_values(|u: MachineUpdate| u@) =~= h + a + m);
    if let Some(names) = &edit.nameservers {
        let kept = keep_nonempty(names);
        if kept.len() > 0 {
            plan.push(MachineUpdate::Nameservers(kept));
        }
    }
    assert(plan@.map_values(|u: MachineUpdate| u@) =~= h + a + m + n);
    plan
}

/// The line an edit reports for one write and what the store said of it.
pub fn update_line(update: &MachineUpdate, outcome: &Result<bool, String>) -> (line: String)
    ensures
        line@ == update_message(update@, *outcome),
{
    match update {
        MachineUpdate::Hostname(v) => match outcome {
            Ok(true) => concat3("Hostname updated to '", v.as_str(), "'"),
            Ok(false) => text("Machine not found for hostname update"),
            Err(e) => concat2("Failed to update hostname: ", e.as_str()),
        },
        MachineUpdate::IpAddress(v) => match outcome {
            Ok(true) => concat3("IP address updated to '", v.as_str(), "'"),
            Ok(false) => text("Machine not found for IP address update"),
            Err(e) => concat2("Failed to update IP address: ", e.as_str()),
        },
        MachineUpdate::MacAddress(v) => match outcome {
            Ok(true) => concat3("MAC address updated to '", v.as_str(), "'"),
            Ok(false) => text("Machine not found for MAC address update"),
            Err(e) => concat2("Failed to update MAC address: ", e.as_str()),
        },
        MachineUpdate::Nameservers(_) => match outcome {
            Ok(true) => text("DNS servers updated"),
            Ok(false) => text("Machine not found for DNS servers update"),
            Err(e) => concat2("Failed to update DNS servers: ", e.as_str()),
        },
    }
}

/// Answers `PUT /api/machines/:id` from the writes made and what the store
/// reported for each.
pub fn update_machine(reports: &Vec<UpdateReport>) -> (r: ApiResponse)
    ensures
        r@ == edit_answer(reports@),
{
    let mut lines: Vec<String> = Vec::new();
    let mut updated = false;
    let mut i: usize = 0;
    while i < reports.len()
        invariant
            i <= reports.len(),
            texts(lines@) == report_messages(reports@.take(i as int)),
            updated == any_succeeded(reports@.take(i as int)),
        decreases reports.len() - i,
    {
        let report = &reports[i];
        let line = update_line(&report.update, &report.outcome);
        let ghost before = reports@.take(i as int);
        let ghost after = reports@.take(i + 1);
        assert(after.drop_last() =~= before);
        assert(after[i as int] == reports@[i as int]);
        if let Ok(true) = report.outcome {
            updated = true;
        }
        proof {
            if succeeded(after[i as int].outcome) {
                assert(any_succeeded(after));
            } else {
                if any_succeeded(after) {
                    let k = choose|k: int| 0 <= k < after.len() && #[trigger] succeeded(after[k].outcome);
                    assert(before[k] == after[k]);
                }
                if any_succeeded(before) {
                    let k = choose|k: int| 0 <= k < before.len() && #[trigger] succeeded(before[k].outcome);
                    assert(after[k] == before[k]);
                }
            }
        }
        lines.push(line);
        proof {
            let want = report_messages(after);
            let old_lines = report_messages(before);
            assert(want.len() == old_lines.len() + 1);
            assert forall|j: int| 0 <= j < want.len() implies #[trigger] texts(lines@)[j] == want[j] by {
                if j < i {
                    assert(after[j] == before[j]);
                    assert(want[j] == old_lines[j]);
                } else {
                    assert(after[j] == reports@[i as int]);
                }
            }
            assert(texts(lines@) =~= want);
        }
        i = i + 1;
    }
    assert(reports@.take(reports.len() as int) =~= reports@);
    if updated {
        let message = join_texts(&lines, ", ");
        ApiResponse { status: STATUS_OK, body: Body::Outcome(OutcomeResponse { success: true, message }) }
    } else {
        let message = if lines.len() == 0 {
            text("No updates provided")
        } else {
            join_texts(&lines, ", ")
        };
        ApiResponse {
            status: STATUS_BAD_REQUEST,
            body: Body::Outcome(OutcomeResponse { success: false, message }),
        }
    }
}

} // verus!
