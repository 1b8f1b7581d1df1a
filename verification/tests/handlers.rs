use dragonfly_server::bmc::{bmc_credentials, bmc_type_from_name, update_bmc, BmcCredentials, BmcCredentialsUpdateRequest, BmcType, BMC_ERROR_HEAD, BMC_ERROR_TAIL, BMC_UPDATED_PAGE};
use dragonfly_server::delete::{delete_machine_after_hardware_removal, delete_machine_after_lookup, delete_machine_after_record_removal, hardware_name, DeleteStep};
use dragonfly_server::edit::{keep_nonempty, update_machine, update_machine_plan, MachineEdit, MachineUpdate, UpdateReport};
use dragonfly_server::errors::handle_error;
use dragonfly_server::ipxe::{ipxe_script, ipxe_script_after_lookup, IpxeStep};
use dragonfly_server::machines::{assign_os, get_all_machines, get_machine, internal_error_response, update_os_installed};
use dragonfly_server::pages::{get_hostname_form, FORM_HEAD, FORM_MIDDLE, FORM_TAIL};
use dragonfly_server::response::{ApiResponse, Body, ErrorResponse, MediaType, OutcomeResponse, RegisterResponse};
use dragonfly_server::store::MachineRecord;
use dragonfly_server::sync::{
    register_machine_after_insert, register_machine_after_lookup, register_machine_after_sync, update_hostname_after_lookup,
    update_hostname_after_sync, update_hostname_after_write, update_status_after_lookup, update_status_after_sync,
    update_status_after_write, FollowUp,
};
use dragonfly_server::text::{concat3, count_char, join_texts, replace_all};

const ID: u128 = 0x67e5504410b1426f9247bb680e5fe0c8;
const ID_TEXT: &str = "67e55044-10b1-426f-9247-bb680e5fe0c8";

fn record(mac: &str, hostname: Option<&str>) -> MachineRecord {
    MachineRecord { mac_address: mac.to_string(), hostname: hostname.map(|h| h.to_string()) }
}

fn error_reply(status: u16, error: &str, message: &str) -> ApiResponse {
    ApiResponse { status, body: Body::Error(ErrorResponse { error: error.to_string(), message: message.to_string() }) }
}

fn success_reply(message: &str) -> ApiResponse {
    ApiResponse { status: 200, body: Body::Outcome(OutcomeResponse { success: true, message: message.to_string() }) }
}

fn not_found_reply() -> ApiResponse {
    error_reply(404, "Not Found", &format!("Machine with ID {} not found", ID_TEXT))
}

#[test]
fn machine_ids_are_written_hyphenated_in_lower_case() {
    let r = get_machine(ID, &Ok(None));
    assert_eq!(r, not_found_reply());
    let r = get_machine(0, &Ok(None));
    assert_eq!(r, error_reply(404, "Not Found", "Machine with ID 00000000-0000-0000-0000-000000000000 not found"));
    let r = get_machine(u128::MAX, &Ok(None));
    assert_eq!(r, error_reply(404, "Not Found", "Machine with ID ffffffff-ffff-ffff-ffff-ffffffffffff not found"));
}

#[test]
fn get_machine_answers_by_lookup() {
    assert_eq!(get_machine(ID, &Ok(Some(record("aa:bb:cc:dd:ee:ff", None)))), ApiResponse { status: 200, body: Body::Record });
    assert_eq!(get_machine(ID, &Err("connection refused".to_string())), error_reply(500, "Database Error", "connection refused"));
}

#[test]
fn get_all_machines_answers_by_listing() {
    assert_eq!(get_all_machines(&Ok(())), ApiResponse { status: 200, body: Body::Records });
    assert_eq!(get_all_machines(&Err("locked".to_string())), error_reply(500, "Database Error", "locked"));
}

#[test]
fn assign_os_answers_by_store_report() {
    let os = "ubuntu-22.04".to_string();
    assert_eq!(assign_os(ID, &os, &Ok(true)), success_reply(&format!("OS ubuntu-22.04 assigned to machine {}", ID_TEXT)));
    assert_eq!(assign_os(ID, &os, &Ok(false)), not_found_reply());
    assert_eq!(assign_os(ID, &os, &Err("timeout".to_string())), error_reply(500, "Database Error", "timeout"));
}

#[test]
fn update_os_installed_answers_by_store_report() {
    assert_eq!(update_os_installed(ID, &Ok(true)), success_reply(&format!("OS installed updated for machine {}", ID_TEXT)));
    assert_eq!(update_os_installed(ID, &Ok(false)), not_found_reply());
    assert_eq!(update_os_installed(ID, &Err("e".to_string())), error_reply(500, "Database Error", "e"));
}

#[test]
fn registration_flow() {
    let registered = ApiResponse {
        status: 201,
        body: Body::Registered(RegisterResponse { machine_id: ID, next_step: "awaiting_os_assignment".to_string() }),
    };
    assert_eq!(register_machine_after_insert(&Ok(ID)), FollowUp::LookUp(ID));
    assert_eq!(
        register_machine_after_insert(&Err("duplicate MAC".to_string())),
        FollowUp::Answer(error_reply(500, "Registration Failed", "duplicate MAC"))
    );
    assert_eq!(register_machine_after_lookup(ID, &Ok(Some(record("aa:bb:cc:dd:ee:ff", None)))), FollowUp::Sync(ID));
    assert_eq!(register_machine_after_lookup(ID, &Ok(None)), FollowUp::Answer(registered.clone()));
    assert_eq!(register_machine_after_lookup(ID, &Err("x".to_string())), FollowUp::Answer(registered.clone()));
    assert_eq!(register_machine_after_sync(ID, &Ok(())), registered.clone());
    assert_eq!(register_machine_after_sync(ID, &Err("tinkerbell down".to_string())), registered);
}

#[test]
fn status_update_flow() {
    let done = success_reply(&format!("Status updated for machine {}", ID_TEXT));
    assert_eq!(update_status_after_write(ID, &Ok(true)), FollowUp::LookUp(ID));
    assert_eq!(update_status_after_write(ID, &Ok(false)), FollowUp::Answer(not_found_reply()));
    assert_eq!(update_status_after_write(ID, &Err("db".to_string())), FollowUp::Answer(error_reply(500, "Database Error", "db")));
    assert_eq!(update_status_after_lookup(ID, &Ok(Some(record("m", None)))), FollowUp::Sync(ID));
    assert_eq!(update_status_after_lookup(ID, &Ok(None)), FollowUp::Answer(done.clone()));
    assert_eq!(update_status_after_sync(ID, &Err("unreachable".to_string())), done);
}

#[test]
fn hostname_update_flow() {
    let done = success_reply(&format!("Hostname updated for machine {}", ID_TEXT));
    assert_eq!(update_hostname_after_write(ID, &Ok(true)), FollowUp::LookUp(ID));
    assert_eq!(update_hostname_after_write(ID, &Ok(false)), FollowUp::Answer(not_found_reply()));
    assert_eq!(update_hostname_after_lookup(ID, &Err("gone".to_string())), FollowUp::Answer(done.clone()));
    assert_eq!(update_hostname_after_lookup(ID, &Ok(Some(record("m", Some("h"))))), FollowUp::Sync(ID));
    assert_eq!(update_hostname_after_sync(ID, &Ok(())), done);
}

#[test]
fn hardware_names_replace_colons_and_lower_case() {
    assert_eq!(hardware_name(&"AA:BB:CC:dd:ee:0F".to_string()), "aa-bb-cc-dd-ee-0f");
    assert_eq!(hardware_name(&"ÄB:CD".to_string()), "äb-cd");
    assert_eq!(hardware_name(&"".to_string()), "");
}

#[test]
fn deletion_flow() {
    assert_eq!(
        delete_machine_after_lookup(ID, &Ok(Some(record("52:54:00:AB:CD:EF", None)))),
        DeleteStep::RemoveHardware { machine_id: ID, hardware: "52-54-00-ab-cd-ef".to_string() }
    );
    assert_eq!(
        delete_machine_after_lookup(ID, &Ok(None)),
        DeleteStep::Answer(ApiResponse { status: 404, body: Body::ErrorOnly("Machine not found".to_string()) })
    );
    assert_eq!(
        delete_machine_after_lookup(ID, &Err("io".to_string())),
        DeleteStep::Answer(ApiResponse { status: 500, body: Body::ErrorOnly("Database error: io".to_string()) })
    );
    assert_eq!(
        delete_machine_after_hardware_removal(ID, &Ok(())),
        DeleteStep::DeleteRecord { machine_id: ID, hardware_removed: true }
    );
    assert_eq!(
        delete_machine_after_hardware_removal(ID, &Err("kube".to_string())),
        DeleteStep::DeleteRecord { machine_id: ID, hardware_removed: false }
    );
    assert_eq!(
        delete_machine_after_record_removal(true, &Ok(true)),
        success_reply("Machine successfully deleted from Dragonfly and Tinkerbell.")
    );
    assert_eq!(
        delete_machine_after_record_removal(false, &Ok(true)),
        success_reply("Machine deleted from Dragonfly but there was an issue removing it from Tinkerbell.")
    );
    assert_eq!(
        delete_machine_after_record_removal(true, &Ok(false)),
        ApiResponse { status: 404, body: Body::ErrorOnly("Machine not found in database".to_string()) }
    );
    assert_eq!(
        delete_machine_after_record_removal(false, &Err("disk".to_string())),
        ApiResponse { status: 500, body: Body::ErrorOnly("Database error: disk".to_string()) }
    );
}

fn edit(hostname: Option<&str>, ip: Option<&str>, mac: Option<&str>, ns: Option<Vec<&str>>) -> MachineEdit {
    MachineEdit {
        hostname: hostname.map(|s| s.to_string()),
        ip_address: ip.map(|s| s.to_string()),
        mac_address: mac.map(|s| s.to_string()),
        nameservers: ns.map(|v| v.into_iter().map(|s| s.to_string()).collect()),
    }
}

#[test]
fn edit_plans_only_given_nonempty_fields_in_order() {
    let plan = update_machine_plan(&edit(Some("web01"), Some(""), None, Some(vec!["8.8.8.8", "", "1.1.1.1"])));
    assert_eq!(
        plan,
        vec![
            MachineUpdate::Hostname("web01".to_string()),
            MachineUpdate::Nameservers(vec!["8.8.8.8".to_string(), "1.1.1.1".to_string()]),
        ]
    );
    let plan = update_machine_plan(&edit(Some("h"), Some("10.0.0.5"), Some("aa:bb:cc:dd:ee:ff"), Some(vec!["9.9.9.9"])));
    assert_eq!(
        plan,
        vec![
            MachineUpdate::Hostname("h".to_string()),
            MachineUpdate::IpAddress("10.0.0.5".to_string()),
            MachineUpdate::MacAddress("aa:bb:cc:dd:ee:ff".to_string()),
            MachineUpdate::Nameservers(vec!["9.9.9.9".to_string()]),
        ]
    );
    assert_eq!(update_machine_plan(&edit(Some(""), None, Some(""), Some(vec!["", ""]))), vec![]);
    assert_eq!(update_machine_plan(&edit(None, None, None, None)), vec![]);
}

#[test]
fn keep_nonempty_drops_only_empty_entries() {
    let names = vec!["".to_string(), "a".to_string(), "".to_string(), "b".to_string()];
    assert_eq!(keep_nonempty(&names), vec!["a".to_string(), "b".to_string()]);
    assert_eq!(keep_nonempty(&vec![]), Vec::<String>::new());
}

#[test]
fn edit_succeeds_when_one_write_does() {
    let reports = vec![
        UpdateReport { update: MachineUpdate::Hostname("web01".to_string()), outcome: Ok(true) },
        UpdateReport { update: MachineUpdate::Nameservers(vec!["8.8.8.8".to_string()]), outcome: Err("timeout".to_string()) },
    ];
    assert_eq!(
        update_machine(&reports),
        success_reply("Hostname updated to 'web01', Failed to update DNS servers: timeout")
    );
    let reports = vec![
        UpdateReport { update: MachineUpdate::IpAddress("10.0.0.5".to_string()), outcome: Ok(false) },
        UpdateReport { update: MachineUpdate::MacAddress("aa:bb".to_string()), outcome: Err("bad".to_string()) },
    ];
    assert_eq!(
        update_machine(&reports),
        ApiResponse {
            status: 400,
            body: Body::Outcome(OutcomeResponse {
                success: false,
                message: "Machine not found for IP address update, Failed to update MAC address: bad".to_string(),
            }),
        }
    );
    let reports = vec![
        UpdateReport { update: MachineUpdate::MacAddress("aa:bb".to_string()), outcome: Ok(true) },
        UpdateReport { update: MachineUpdate::Nameservers(vec![]), outcome: Ok(true) },
        UpdateReport { update: MachineUpdate::Hostname("x".to_string()), outcome: Ok(false) },
        UpdateReport { update: MachineUpdate::IpAddress("1.2.3.4".to_string()), outcome: Err("e".to_string()) },
    ];
    assert_eq!(
        update_machine(&reports),
        success_reply("MAC address updated to 'aa:bb', DNS servers updated, Machine not found for hostname update, Failed to update IP address: e")
    );
}

#[test]
fn edit_with_nothing_to_write_is_refused() {
    assert_eq!(
        update_machine(&vec![]),
        ApiResponse {
            status: 400,
            body: Body::Outcome(OutcomeResponse { success: false, message: "No updates provided".to_string() }),
        }
    );
    let reports = vec![UpdateReport { update: MachineUpdate::Nameservers(vec!["1.1.1.1".to_string()]), outcome: Ok(false) }];
    assert_eq!(
        update_machine(&reports),
        ApiResponse {
            status: 400,
            body: Body::Outcome(OutcomeResponse { success: false, message: "Machine not found for DNS servers update".to_string() }),
        }
    );
}

#[test]
fn bmc_types_by_name() {
    assert_eq!(bmc_type_from_name("IPMI".to_string()), BmcType::IPMI);
    assert_eq!(bmc_type_from_name("Redfish".to_string()), BmcType::Redfish);
    assert_eq!(bmc_type_from_name("ipmi".to_string()), BmcType::Other("ipmi".to_string()));
    assert_eq!(bmc_type_from_name("iDRAC".to_string()), BmcType::Other("iDRAC".to_string()));
    assert_eq!(bmc_type_from_name("".to_string()), BmcType::Other("".to_string()));
}

#[test]
fn bmc_credentials_from_form() {
    let form = BmcCredentialsUpdateRequest {
        bmc_type: "Redfish".to_string(),
        bmc_address: "10.0.0.9".to_string(),
        bmc_username: "admin".to_string(),
        bmc_password: "SECRET-REDACTED".to_string(),
    };
    assert_eq!(
        bmc_credentials(form),
        BmcCredentials {
            address: "10.0.0.9".to_string(),
            username: "admin".to_string(),
            password: Some("SECRET-REDACTED".to_string()),
            bmc_type: BmcType::Redfish,
        }
    );
}

#[test]
fn bmc_update_pages() {
    let ok = update_bmc(ID, &Ok(true));
    assert_eq!(ok.status, 200);
    assert_eq!(ok.body, Body::Html(BMC_UPDATED_PAGE.to_string()));
    assert!(BMC_UPDATED_PAGE.contains("setTimeout(function() {"));
    assert!(BMC_UPDATED_PAGE.contains("}, 1500);"));
    let missing = update_bmc(ID, &Ok(false));
    assert_eq!(missing.status, 404);
    assert_eq!(
        missing.body,
        Body::Html(format!("{}Machine with ID {} not found{}", BMC_ERROR_HEAD, ID_TEXT, BMC_ERROR_TAIL))
    );
    let failed = update_bmc(ID, &Err("locked".to_string()));
    assert_eq!(failed.status, 500);
    assert_eq!(failed.body, Body::Html(format!("{}Database error: locked{}", BMC_ERROR_HEAD, BMC_ERROR_TAIL)));
    assert!(BMC_ERROR_HEAD.ends_with("<span class=\"font-medium\">Error!</span> "));
    assert!(BMC_ERROR_TAIL.starts_with(".\n"));
}

#[test]
fn hostname_form_pages() {
    let r = get_hostname_form(ID, &Ok(Some(record("m", Some("web01")))));
    assert_eq!(r.status, 200);
    let page = format!("{}{}{}web01{}", FORM_HEAD, ID_TEXT, FORM_MIDDLE, FORM_TAIL);
    assert_eq!(r.body, Body::Typed(MediaType::TextHtml, page.clone()));
    assert!(page.contains(&format!("hx-post=\"/api/machines/{}/hostname\"", ID_TEXT)));
    assert!(page.contains("value=\"web01\""));
    let r = get_hostname_form(ID, &Ok(Some(record("m", None))));
    assert_eq!(r.body, Body::Typed(MediaType::TextHtml, format!("{}{}{}{}", FORM_HEAD, ID_TEXT, FORM_MIDDLE, FORM_TAIL)));
    let r = get_hostname_form(ID, &Ok(None));
    assert_eq!(
        r,
        ApiResponse {
            status: 404,
            body: Body::Typed(MediaType::TextHtml, format!("<div class=\"p-4 text-red-500\">Machine with ID {} not found</div>", ID_TEXT)),
        }
    );
    let r = get_hostname_form(ID, &Err("boom".to_string()));
    assert_eq!(
        r,
        ApiResponse { status: 500, body: Body::Typed(MediaType::TextHtml, "<div class=\"p-4 text-red-500\">Error: boom</div>".to_string()) }
    );
}

#[test]
fn ipxe_requests_need_mac_shaped_paths() {
    let refused = IpxeStep::Answer(ApiResponse { status: 404, body: Body::Plain("Not Found".to_string()) });
    assert_eq!(ipxe_script("aa:bb:cc:dd:ee:ff".to_string()), IpxeStep::LookUp("aa:bb:cc:dd:ee:ff".to_string()));
    assert_eq!(ipxe_script(":::::".to_string()), IpxeStep::LookUp(":::::".to_string()));
    assert_eq!(ipxe_script("favicon.ico".to_string()), refused.clone());
    assert_eq!(ipxe_script("aa:bb:cc".to_string()), refused.clone());
    assert_eq!(ipxe_script("a:b:c:d:e:f:g".to_string()), refused.clone());
    assert_eq!(ipxe_script("aa-bb-cc-dd-ee-ff".to_string()), refused.clone());
    assert_eq!(ipxe_script("".to_string()), refused);
}

#[test]
fn ipxe_scripts_by_lookup() {
    assert_eq!(
        ipxe_script_after_lookup(&Ok(Some(record("aa:bb:cc:dd:ee:ff", None)))),
        ApiResponse { status: 200, body: Body::Typed(MediaType::TextPlain, "#!ipxe\nchain http://10.7.1.30:8080/hookos.ipxe".to_string()) }
    );
    assert_eq!(
        ipxe_script_after_lookup(&Ok(None)),
        ApiResponse { status: 200, body: Body::Typed(MediaType::TextPlain, "#!ipxe\nchain http://10.7.1.30:8080/sparxplug.ipxe".to_string()) }
    );
    assert_eq!(ipxe_script_after_lookup(&Err("db".to_string())), error_reply(500, "Database Error", "db"));
}

#[test]
fn escaped_errors_are_internal_errors() {
    let err = anyhow::Error::msg("disk full");
    assert_eq!(handle_error(&err), error_reply(500, "Internal Server Error", "disk full"));
    assert_eq!(internal_error_response("x".to_string()), error_reply(500, "Internal Server Error", "x"));
}

#[test]
fn text_helpers() {
    assert_eq!(count_char("aa:bb:cc", ':'), 2);
    assert_eq!(count_char("", ':'), 0);
    assert_eq!(replace_all("a:b:", ':', '-'), "a-b-");
    assert_eq!(join_texts(&vec!["a".to_string(), "b".to_string(), "c".to_string()], ", "), "a, b, c");
    assert_eq!(join_texts(&vec!["only".to_string()], ", "), "only");
    assert_eq!(join_texts(&vec![], ", "), "");
    assert_eq!(concat3("x", "y", "z"), "xyz");
}
