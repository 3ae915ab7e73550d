use scry::agents::{
    check_agent, check_agent_detailed, check_agents, check_agents_detailed, AgentHealthOutcome,
    AgentHealthResponse,
};
use scry::config::{AccessPointConfig, AgentConfig, NetworkConfig, ServerConfig, SwitchConfig, VlanConfig};
use scry::monitor::{monitor_details, monitor_status_result, uptime_bar};
use scry::network::{
    access_point_status, check_access_points, check_network, check_switch, check_vlans, count_online_hosts,
    id_from_clock, id_from_nanos, rand_id,
};
use scry::server::{check_server, check_servers};
use scry::status::{
    gather_all_status, health_probe, http_health_status, is_success_status,
    network_connectivity_status, ping_fallback_ports, server_connectivity_status,
    tcp_probe_ports, HealthStatus, HttpOutcome, Probe, StatusResult,
};

fn line(category: &str, label: &str) -> StatusResult {
    StatusResult { category: category.into(), label: label.into(), status: HealthStatus::Online, details: None }
}

fn switch(label: &str, health_url: Option<&str>) -> SwitchConfig {
    SwitchConfig {
        host: "192.168.1.1".into(),
        label: label.into(),
        check_type: "http".into(),
        health_url: health_url.map(|s| s.into()),
    }
}

fn aps(hosts: Option<Vec<&str>>) -> AccessPointConfig {
    AccessPointConfig {
        count: 6,
        label: "enterprise APs".into(),
        hosts: hosts.map(|h| h.into_iter().map(|s| s.to_string()).collect()),
        health_url: None,
    }
}

fn server(ram: Option<u32>, storage: Option<&str>) -> ServerConfig {
    ServerConfig {
        host: "192.168.1.100".into(),
        label: "rack-01".into(),
        ram_gb: ram,
        storage: storage.map(|s| s.into()),
        health_url: None,
    }
}

#[test]
fn http_outcomes() {
    assert!(is_success_status(200) && is_success_status(299) && !is_success_status(300));
    assert_eq!(http_health_status(HttpOutcome::Response { code: 200 }), HealthStatus::Online);
    assert_eq!(http_health_status(HttpOutcome::Response { code: 204 }), HealthStatus::Online);
    assert_eq!(http_health_status(HttpOutcome::Response { code: 199 }), HealthStatus::Degraded);
    assert_eq!(http_health_status(HttpOutcome::Response { code: 503 }), HealthStatus::Degraded);
    assert_eq!(http_health_status(HttpOutcome::RequestFailed), HealthStatus::Offline);
    assert_eq!(http_health_status(HttpOutcome::ClientUnavailable), HealthStatus::Unknown);
}

#[test]
fn probes_and_ports() {
    assert!(matches!(health_probe(&Some("http://h/health".into()), &"h".into()), Probe::Http(u) if u == "http://h/health"));
    assert!(matches!(health_probe(&None, &"h".into()), Probe::Host(h) if h == "h"));
    assert_eq!(tcp_probe_ports(), vec![443, 80, 22, 8080]);
    assert_eq!(ping_fallback_ports(), vec![443, 80, 22]);
}

#[test]
fn connectivity_verdicts() {
    assert_eq!(network_connectivity_status(true, false, true), HealthStatus::Online);
    assert_eq!(network_connectivity_status(false, true, true), HealthStatus::Online);
    assert_eq!(network_connectivity_status(false, false, true), HealthStatus::Degraded);
    assert_eq!(network_connectivity_status(false, false, false), HealthStatus::Offline);
    assert_eq!(server_connectivity_status(true, false), HealthStatus::Online);
    assert_eq!(server_connectivity_status(false, true), HealthStatus::Online);
    assert_eq!(server_connectivity_status(false, false), HealthStatus::Offline);
}

#[test]
fn gather_keeps_group_order() {
    let all = gather_all_status(
        Some(vec![line("network", "sw"), line("network", "aps")]),
        Some(vec![line("server", "rack-01")]),
        None,
        Some(line("monitor", "uptime")),
    );
    let labels: Vec<&str> = all.iter().map(|r| r.label.as_str()).collect();
    assert_eq!(labels, vec!["sw", "aps", "rack-01", "uptime"]);
    let only_agents = gather_all_status(None, None, Some(vec![line("agents", "a")]), None);
    assert_eq!(only_agents.len(), 1);
    assert!(gather_all_status(None, None, None, None).is_empty());
}

#[test]
fn switch_line() {
    let r = check_switch(&switch("48-port managed switch", None), HealthStatus::Degraded);
    assert_eq!(r.category, "network");
    assert_eq!(r.label, "48-port managed switch");
    assert_eq!(r.status, HealthStatus::Degraded);
    assert!(r.details.is_none());
}

#[test]
fn access_point_aggregation() {
    assert_eq!(access_point_status(0, 0), HealthStatus::Online);
    assert_eq!(access_point_status(2, 2), HealthStatus::Online);
    assert_eq!(access_point_status(2, 1), HealthStatus::Degraded);
    assert_eq!(access_point_status(2, 0), HealthStatus::Offline);
    let two = aps(Some(vec!["192.168.1.10", "192.168.1.11"]));
    let r = check_access_points(&two, &vec![HealthStatus::Online, HealthStatus::Degraded]);
    assert_eq!(r.label, "6x enterprise APs");
    assert_eq!(r.status, HealthStatus::Degraded);
    let r = check_access_points(&two, &vec![HealthStatus::Online, HealthStatus::Online]);
    assert_eq!(r.status, HealthStatus::Online);
    let r = check_access_points(&two, &vec![HealthStatus::Offline, HealthStatus::Unknown]);
    assert_eq!(r.status, HealthStatus::Offline);
    let r = check_access_points(&aps(None), &vec![]);
    assert_eq!(r.status, HealthStatus::Online);
    assert_eq!(count_online_hosts(&vec![HealthStatus::Online, HealthStatus::Degraded, HealthStatus::Online]), 2);
}

#[test]
fn vlan_line() {
    let r = check_vlans(&VlanConfig { names: vec!["ops".into(), "guest".into(), "iot".into()] });
    assert_eq!(r.label, "VLANs: ops/guest/iot");
    assert_eq!(r.status, HealthStatus::Online);
    assert_eq!(r.details.as_deref(), Some("SEGMENTED"));
}

#[test]
fn network_order() {
    let config = NetworkConfig {
        switches: Some(vec![switch("sw-a", None), switch("sw-b", Some("http://x"))]),
        access_points: Some(vec![aps(Some(vec!["a", "b"]))]),
        vlans: Some(vec![VlanConfig { names: vec!["ops".into()] }]),
    };
    let r = check_network(&config, &vec![HealthStatus::Online, HealthStatus::Offline], &vec![vec![HealthStatus::Online, HealthStatus::Online]]);
    let labels: Vec<&str> = r.iter().map(|x| x.label.as_str()).collect();
    assert_eq!(labels, vec!["sw-a", "sw-b", "6x enterprise APs", "VLANs: ops"]);
    assert_eq!(r[1].status, HealthStatus::Offline);
    assert_eq!(r[2].status, HealthStatus::Online);
    let empty = NetworkConfig { switches: None, access_points: None, vlans: None };
    assert!(check_network(&empty, &vec![], &vec![]).is_empty());
}

#[test]
fn server_lines() {
    assert_eq!(check_server(&server(Some(32), Some("1TB SSD")), HealthStatus::Online).label, "rack-01 32GB/1TB SSD");
    assert_eq!(check_server(&server(None, None), HealthStatus::Online).label, "rack-01");
    assert_eq!(check_server(&server(None, Some("1TB SSD")), HealthStatus::Online).label, "rack-01 1TB SSD");
    assert_eq!(check_server(&server(Some(16), None), HealthStatus::Online).label, "rack-01 16GB");
    let r = check_servers(&vec![server(Some(32), None)], &vec![HealthStatus::Offline]);
    assert_eq!(r.len(), 1);
    assert_eq!(r[0].category, "server");
    assert_eq!(r[0].status, HealthStatus::Offline);
}

fn agent(name: &str) -> AgentConfig {
    AgentConfig { name: name.into(), health_url: "http://192.168.1.100:3001/health".into() }
}

#[test]
fn agent_lines() {
    let r = check_agent(&agent("lead-enrichment"), HealthStatus::Online);
    assert_eq!(r.category, "agents");
    assert_eq!(r.label, "lead-enrichment");
    let rs = check_agents(&vec![agent("a"), agent("b")], &vec![HealthStatus::Degraded, HealthStatus::Unknown]);
    assert_eq!(rs[1].status, HealthStatus::Unknown);
}

#[test]
fn agent_details() {
    let health = AgentHealthResponse {
        status: Some("ok".into()),
        last_run: Some("2024-01-15T10:30:00Z".into()),
        error_count: Some(0),
        uptime: None,
    };
    let d = check_agent_detailed(&agent("a"), &AgentHealthOutcome::Response { code: 200, health: Some(health.clone()) });
    assert_eq!(d.status, HealthStatus::Online);
    assert_eq!(d.last_run.as_deref(), Some("2024-01-15T10:30:00Z"));
    assert_eq!(d.error_count, Some(0));
    assert_eq!(d.health_url, "http://192.168.1.100:3001/health");
    let d = check_agent_detailed(&agent("a"), &AgentHealthOutcome::Response { code: 200, health: None });
    assert_eq!((d.status, d.last_run, d.error_count), (HealthStatus::Online, None, None));
    let d = check_agent_detailed(&agent("a"), &AgentHealthOutcome::Response { code: 500, health: Some(health) });
    assert_eq!((d.status, d.last_run, d.error_count), (HealthStatus::Degraded, None, None));
    let d = check_agent_detailed(&agent("a"), &AgentHealthOutcome::RequestFailed);
    assert_eq!(d.status, HealthStatus::Offline);
    let d = check_agent_detailed(&agent("a"), &AgentHealthOutcome::ClientUnavailable);
    assert_eq!(d.status, HealthStatus::Unknown);
    let ds = check_agents_detailed(&vec![agent("x"), agent("y")], &vec![AgentHealthOutcome::RequestFailed, AgentHealthOutcome::ClientUnavailable]);
    assert_eq!(ds.iter().map(|d| d.name.as_str()).collect::<Vec<_>>(), vec!["x", "y"]);
}

#[test]
fn uptime_bar_cells() {
    assert_eq!(uptime_bar(10), "||||||||||");
    assert_eq!(uptime_bar(5), "|||||     ");
    assert_eq!(uptime_bar(0), "          ");
    assert_eq!(uptime_bar(25), "||||||||||");
    for t in 0..20 {
        assert_eq!(uptime_bar(t).chars().count(), 10);
    }
}

#[test]
fn uptime_details_and_line() {
    assert_eq!(monitor_details(10, 42), "|||||||||| 42d");
    assert_eq!(monitor_details(9, 0), "||||||||| ");
    let r = monitor_status_result("uptime 99.97%".into(), HealthStatus::Online, 10, 42);
    assert_eq!(r.category, "monitor");
    assert_eq!(r.label, "uptime 99.97%");
    assert_eq!(r.details.as_deref(), Some("|||||||||| 42d"));
}

#[test]
fn ping_identifiers() {
    assert_eq!(id_from_nanos(0), 0);
    assert_eq!(id_from_nanos(65535), 0);
    assert_eq!(id_from_nanos(65536), 1);
    assert_eq!(id_from_clock(Some(65536)), 1);
    assert_eq!(id_from_clock(None), 0);
    assert!(rand_id() < 65535);
}

#[test]
fn summary_and_detail_agree_on_health() {
    for code in [100u16, 200, 204, 299, 301, 404, 503] {
        let summary = check_agent(&agent("a"), http_health_status(HttpOutcome::Response { code })).status;
        let detail = check_agent_detailed(&agent("a"), &AgentHealthOutcome::Response { code, health: None }).status;
        assert_eq!(summary, detail);
    }
    assert_eq!(
        http_health_status(HttpOutcome::RequestFailed),
        check_agent_detailed(&agent("a"), &AgentHealthOutcome::RequestFailed).status
    );
    assert_eq!(
        http_health_status(HttpOutcome::ClientUnavailable),
        check_agent_detailed(&agent("a"), &AgentHealthOutcome::ClientUnavailable).status
    );
}
