use lambda_cloud::catalog::{available_entries, lookup_type};
use lambda_cloud::model::{
    AcquireError, CatalogEntry, ConnectionReport, Instance, InstanceSpecs, InstanceTypeInfo,
    Region, connection_report, make_launch_request, make_terminate_request, running_row,
};
use lambda_cloud::orchestrator::{
    AcquisitionOrchestrator, Action, Event, Phase, plan_direct_start, ACTIVATION_DELAY_SECS,
};
use lambda_cloud::poller::{next_check_in, make_poll_status, AvailabilityPoller, PollState};

fn region(name: &str, description: &str) -> Region {
    Region { name: name.to_owned(), description: description.to_owned() }
}

fn entry(name: &str, regions: Vec<Region>) -> CatalogEntry {
    CatalogEntry {
        name: name.to_owned(),
        info: InstanceTypeInfo {
            description: format!("{} card", name),
            price_cents_per_hour: 60,
            specs: InstanceSpecs { vcpus: 30, memory_gib: 200, storage_gib: 1400 },
        },
        regions,
    }
}

#[test]
fn poller_found_iff_regions_nonempty() {
    let empty = entry("gpu_1x_a10", vec![]);
    let mut p = AvailabilityPoller::new();
    assert_eq!(p.tick(Some(&empty)), None);
    assert_eq!(p.state, PollState::Searching);

    let hit = entry("gpu_1x_a10", vec![region("us-east-1", "virginia")]);
    assert_eq!(p.tick(Some(&hit)), Some(region("us-east-1", "virginia")));
    assert_eq!(p.state, PollState::Found);
}

#[test]
fn poller_missing_type_counts_as_no_capacity() {
    let mut p = AvailabilityPoller::new();
    assert_eq!(p.tick(None), None);
    assert_eq!(p.state, PollState::Searching);
}

#[test]
fn poller_selects_first_region() {
    let hit = entry(
        "gpu_1x_a10",
        vec![region("us-east-1", "virginia"), region("us-west-1", "california")],
    );
    let mut p = AvailabilityPoller::new();
    assert_eq!(p.tick(Some(&hit)), Some(region("us-east-1", "virginia")));
}

#[test]
fn next_check_in_is_interval_minus_processing() {
    assert_eq!(next_check_in(10, 3), 7);
    assert_eq!(next_check_in(10, 10), 0);
    assert_eq!(next_check_in(10, 15), 0);
    assert_eq!(next_check_in(0, 0), 0);
}

#[test]
fn launch_request_has_quantity_one_and_single_key() {
    let r = make_launch_request(
        &"gpu_1x_a10".to_owned(),
        &"us-east-1".to_owned(),
        &"mykey".to_owned(),
    );
    assert_eq!(r.quantity, 1);
    assert_eq!(r.ssh_key_names, vec!["mykey".to_owned()]);
    assert_eq!(r.instance_type_name, "gpu_1x_a10");
    assert_eq!(r.region_name, "us-east-1");
}

#[test]
fn terminate_request_holds_exactly_the_one_id() {
    let r = make_terminate_request(&"i-123".to_owned());
    assert_eq!(r.instance_ids, vec!["i-123".to_owned()]);
}

#[test]
fn fruitless_tick_requests_no_launch() {
    let catalog = vec![entry("gpu_1x_a10", vec![])];
    let mut orch = AcquisitionOrchestrator::searching("gpu_1x_a10".to_owned(), "mykey".to_owned());
    let action = orch.step(Event::CatalogFetched(Ok(catalog)));
    assert_eq!(action, Action::ReportAndWait);
    assert_eq!(orch.phase, Phase::Searching);
}

#[test]
fn empty_region_list_keeps_searching() {
    let empty = entry("gpu_1x_a10", vec![]);
    let mut p = AvailabilityPoller::new();
    assert_eq!(p.tick(Some(&empty)), None);
    assert_eq!(p.state, PollState::Searching);
    let status = make_poll_status("2024-05-01 12:00:00".to_owned(), next_check_in(10, 2));
    assert_eq!(status.checked_at, "2024-05-01 12:00:00");
    assert_eq!(status.next_check_in_secs, 8);
}

#[test]
fn capacity_hit_launches_into_observed_region() {
    let catalog = vec![
        entry("gpu_8x_h100", vec![]),
        entry("gpu_1x_a10", vec![region("us-east-1", "virginia")]),
    ];
    let mut orch = AcquisitionOrchestrator::searching("gpu_1x_a10".to_owned(), "mykey".to_owned());
    let action = orch.step(Event::CatalogFetched(Ok(catalog)));
    assert_eq!(
        action,
        Action::PerformLaunch(lambda_cloud::model::LaunchRequest {
            region_name: "us-east-1".to_owned(),
            instance_type_name: "gpu_1x_a10".to_owned(),
            ssh_key_names: vec!["mykey".to_owned()],
            quantity: 1,
        })
    );
    assert_eq!(orch.phase, Phase::Launching { region_name: "us-east-1".to_owned() });
}

#[test]
fn launch_result_starts_activation_wait_then_reports_address() {
    let mut orch = AcquisitionOrchestrator::launching(
        "gpu_1x_a10".to_owned(),
        "mykey".to_owned(),
        "us-east-1".to_owned(),
    );
    let action = orch.step(Event::LaunchFinished(Ok(vec!["i-123".to_owned()])));
    assert_eq!(
        action,
        Action::AwaitActivation { delay_secs: ACTIVATION_DELAY_SECS, instance_id: "i-123".to_owned() }
    );
    assert_eq!(ACTIVATION_DELAY_SECS, 120);
    assert_eq!(
        orch.phase,
        Phase::AwaitingActivation {
            instance_id: "i-123".to_owned(),
            region_name: "us-east-1".to_owned(),
        }
    );

    let detail = Instance {
        id: Some("i-123".to_owned()),
        status: Some("active".to_owned()),
        ip: Some("1.2.3.4".to_owned()),
        ssh_key_names: Some(vec!["mykey".to_owned()]),
    };
    let action = orch.step(Event::DetailFetched(Ok(detail)));
    assert_eq!(action, Action::Halt);
    assert_eq!(
        orch.phase,
        Phase::Done { report: ConnectionReport::Endpoint { address: "1.2.3.4".to_owned() } }
    );
}

#[test]
fn detail_without_address_reports_pending() {
    let mut orch = AcquisitionOrchestrator::launching(
        "gpu_1x_a10".to_owned(),
        "mykey".to_owned(),
        "us-east-1".to_owned(),
    );
    orch.step(Event::LaunchFinished(Ok(vec!["i-123".to_owned()])));
    let detail = Instance {
        id: Some("i-123".to_owned()),
        status: Some("booting".to_owned()),
        ip: None,
        ssh_key_names: None,
    };
    let action = orch.step(Event::DetailFetched(Ok(detail)));
    assert_eq!(action, Action::Halt);
    assert_eq!(orch.phase, Phase::Done { report: ConnectionReport::AddressPending });
}

#[test]
fn absent_type_surfaces_not_found_and_no_launch() {
    let catalog = vec![entry("gpu_8x_h100", vec![region("us-east-1", "virginia")])];
    let planned = plan_direct_start(
        &catalog,
        &"gpu_1x_a10".to_owned(),
        &"mykey".to_owned(),
    );
    assert_eq!(planned, Err(AcquireError::NotFound));
}

#[test]
fn direct_start_without_capacity_is_refused() {
    let catalog = vec![entry("gpu_1x_a10", vec![])];
    let planned = plan_direct_start(
        &catalog,
        &"gpu_1x_a10".to_owned(),
        &"mykey".to_owned(),
    );
    assert_eq!(planned, Err(AcquireError::NoCapacity));
}

#[test]
fn direct_start_plans_first_region_launch() {
    let catalog = vec![entry(
        "gpu_1x_a10",
        vec![region("us-east-1", "virginia"), region("us-west-1", "california")],
    )];
    let planned = plan_direct_start(
        &catalog,
        &"gpu_1x_a10".to_owned(),
        &"mykey".to_owned(),
    );
    let req = planned.expect("capacity was reported");
    assert_eq!(req.region_name, "us-east-1");
    assert_eq!(req.instance_type_name, "gpu_1x_a10");
    assert_eq!(req.ssh_key_names, vec!["mykey".to_owned()]);
    assert_eq!(req.quantity, 1);
}

#[test]
fn catalog_error_aborts_the_search() {
    let mut orch = AcquisitionOrchestrator::searching("gpu_1x_a10".to_owned(), "mykey".to_owned());
    let action = orch.step(Event::CatalogFetched(Err(AcquireError::Network)));
    assert_eq!(action, Action::Halt);
    assert_eq!(orch.phase, Phase::Failed { error: AcquireError::Network });
}

#[test]
fn empty_id_list_from_launch_is_a_parse_failure() {
    let mut orch = AcquisitionOrchestrator::launching(
        "gpu_1x_a10".to_owned(),
        "mykey".to_owned(),
        "us-east-1".to_owned(),
    );
    let action = orch.step(Event::LaunchFinished(Ok(vec![])));
    assert_eq!(action, Action::Halt);
    assert_eq!(orch.phase, Phase::Failed { error: AcquireError::Parse });
}

#[test]
fn lookup_finds_the_named_entry() {
    let catalog = vec![
        entry("gpu_8x_h100", vec![]),
        entry("gpu_1x_a10", vec![region("us-east-1", "virginia")]),
    ];
    let found = lookup_type(&catalog, &"gpu_1x_a10".to_owned());
    assert_eq!(found, Some(&catalog[1]));
    assert_eq!(lookup_type(&catalog, &"gpu_1x_a100".to_owned()), None);
}

#[test]
fn listing_keeps_only_entries_with_capacity() {
    let catalog = vec![
        entry("gpu_8x_h100", vec![]),
        entry("gpu_1x_a10", vec![region("us-east-1", "virginia")]),
        entry("gpu_2x_a10", vec![region("us-west-1", "california")]),
    ];
    let shown = available_entries(&catalog);
    assert_eq!(shown, vec![&catalog[1], &catalog[2]]);
}

#[test]
fn running_row_fills_absent_fields() {
    let full = Instance {
        id: Some("i-123".to_owned()),
        status: Some("active".to_owned()),
        ip: Some("1.2.3.4".to_owned()),
        ssh_key_names: Some(vec!["a".to_owned(), "b".to_owned()]),
    };
    let row = running_row(full);
    assert_eq!(row.id, "i-123");
    assert_eq!(row.status, "active");
    assert_eq!(row.ip, "1.2.3.4");
    assert_eq!(row.ssh_key_names, vec!["a".to_owned(), "b".to_owned()]);

    let bare = Instance { id: None, status: None, ip: None, ssh_key_names: None };
    let row = running_row(bare);
    assert_eq!(row.id, "N/A");
    assert_eq!(row.status, "N/A");
    assert_eq!(row.ip, "N/A");
    assert_eq!(row.ssh_key_names, vec!["N/A".to_owned()]);
}

#[test]
fn connection_report_prefers_the_address() {
    let with_ip = Instance {
        id: None,
        status: None,
        ip: Some("1.2.3.4".to_owned()),
        ssh_key_names: None,
    };
    assert_eq!(
        connection_report(&with_ip),
        ConnectionReport::Endpoint { address: "1.2.3.4".to_owned() }
    );
    let without = Instance { id: None, status: None, ip: None, ssh_key_names: None };
    assert_eq!(connection_report(&without), ConnectionReport::AddressPending);
}
