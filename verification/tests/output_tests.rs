use scry::agents::AgentDetailedStatus;
use scry::config::SiteInfo;
use scry::output::{
    render_agents_detailed, render_error, render_fetch_failure, render_ping_result, render_site_header,
    render_sites_list, render_status_line, render_status_results, render_success,
    render_watch_header, LatencyBand, PingLatency, Span, Style,
};
use scry::status::{HealthStatus, StatusResult};

fn texts(line: &[Span]) -> String {
    line.iter().map(|s| s.text.as_str()).collect()
}

fn styles(line: &[Span]) -> Vec<Style> {
    line.iter().map(|s| s.style).collect()
}

fn result(category: &str, label: &str, status: HealthStatus, details: Option<&str>) -> StatusResult {
    StatusResult { category: category.into(), label: label.into(), status, details: details.map(|d| d.into()) }
}

#[test]
fn status_line_layout() {
    let l = render_status_line(&result("network", "48-port managed switch", HealthStatus::Online, None));
    assert_eq!(texts(&l), "[network]  48-port managed switch ONLINE");
    assert_eq!(styles(&l), vec![Style::Cyan, Style::Plain, Style::BrightGreenBold]);
    let l = render_status_line(&result("network", "VLANs: ops/guest/iot", HealthStatus::Online, Some("SEGMENTED")));
    assert_eq!(texts(&l), "[network]  VLANs: ops/guest/iot SEGMENTED");
    assert_eq!(styles(&l), vec![Style::Cyan, Style::Plain, Style::Plain]);
    let l = render_status_line(&result("monitor", "uptime 99.97%", HealthStatus::Online, Some("|||||||||| 42d")));
    assert_eq!(texts(&l), "[monitor]  uptime 99.97% |||||||||| 42d");
    let l = render_status_line(&result("agents", "lead-enrichment", HealthStatus::Online, None));
    assert_eq!(texts(&l), "[agents]   lead-enrichment RUNNING");
    assert_eq!(l[0].style, Style::Green);
    let l = render_status_line(&result("server", "rack-01", HealthStatus::Offline, None));
    assert_eq!((l[0].style, l[2].text.as_str(), l[2].style), (Style::Blue, "OFFLINE", Style::BrightRedBold));
    let l = render_status_line(&result("monitor", "uptime 95.00%", HealthStatus::Degraded, None));
    assert_eq!((l[0].style, l[2].text.as_str(), l[2].style), (Style::Yellow, "DEGRADED", Style::YellowBold));
    let l = render_status_line(&result("crons", "job", HealthStatus::Unknown, None));
    assert_eq!((l[0].text.as_str(), l[0].style, l[2].text.as_str(), l[2].style), ("[crons]   ", Style::White, "UNKNOWN", Style::WhiteDimmed));
    let ls = render_status_results(&vec![result("a", "x", HealthStatus::Online, None), result("b", "y", HealthStatus::Online, None)]);
    assert_eq!(ls.len(), 2);
}

#[test]
fn site_header_layout() {
    let ls = render_site_header("client-04", "Acme Corp", Some("Milwaukee, WI"));
    assert_eq!(ls.len(), 4);
    assert!(ls[0].is_empty() && ls[3].is_empty());
    assert_eq!((texts(&ls[1]), ls[1][0].style), ("Acme Corp (client-04)".to_string(), Style::Bold));
    assert_eq!((texts(&ls[2]), ls[2][0].style), ("Milwaukee, WI".to_string(), Style::Dimmed));
    assert_eq!(render_site_header("a", "b", None).len(), 3);
}

#[test]
fn sites_list_layout() {
    let ls = render_sites_list(&vec![("client-04".into(), true), ("client-07".into(), false)]);
    assert_eq!(texts(&ls[1]), "Configured Sites");
    assert_eq!(texts(&ls[2]), "─".repeat(40));
    assert_eq!(texts(&ls[3]), "  ● client-04");
    assert_eq!(ls[3][1].style, Style::BrightGreen);
    assert_eq!(ls[4][1].style, Style::BrightRed);
    assert_eq!(ls.len(), 6);
    let ls = render_sites_list(&vec![]);
    assert_eq!(texts(&ls[3]), "No sites configured.");
    assert_eq!(texts(&ls[5]), "Add a site with: forge site add");
    assert_eq!(ls.len(), 7);
}

#[test]
fn agents_detail_layout() {
    let agents = vec![
        AgentDetailedStatus { name: "lead-enrichment".into(), status: HealthStatus::Online, last_run: Some("2024-01-15T10:30:00Z".into()), error_count: Some(0), health_url: "http://h:3001/health".into() },
        AgentDetailedStatus { name: "doc-processor".into(), status: HealthStatus::Offline, last_run: None, error_count: Some(3), health_url: "http://h:3002/health".into() },
    ];
    let ls = render_agents_detailed(&agents, "client-04");
    assert_eq!(texts(&ls[1]), "Agent Status - client-04");
    assert_eq!(texts(&ls[2]), "─".repeat(60));
    assert_eq!(texts(&ls[4]), "  ● lead-enrichment");
    assert_eq!(texts(&ls[5]), "    Status:    RUNNING");
    assert_eq!(texts(&ls[6]), "    Endpoint:  http://h:3001/health");
    assert_eq!(texts(&ls[7]), "    Last Run:  2024-01-15T10:30:00Z");
    assert_eq!((texts(&ls[8]), ls[8][1].style), ("    Errors:    0".to_string(), Style::Green));
    assert!(ls[9].is_empty());
    assert_eq!(texts(&ls[11]), "    Status:    STOPPED");
    assert_eq!((texts(&ls[13]), ls[13][1].style), ("    Errors:    3".to_string(), Style::Red));
    assert_eq!(ls.len(), 15);
    let ls = render_agents_detailed(&vec![], "client-04");
    assert_eq!(texts(&ls[4]), "No agents configured for this site.");
    assert_eq!(ls.len(), 6);
}

#[test]
fn ping_layout() {
    let l = render_ping_result("192.168.1.1", Some(PingLatency { text: "12.34ms".into(), band: LatencyBand::Fast }));
    assert_eq!(texts(&l), "● 192.168.1.1 is reachable (12.34ms)");
    assert_eq!(l[4].style, Style::BrightGreen);
    let l = render_ping_result("10.0.0.99", None);
    assert_eq!(texts(&l), "● 10.0.0.99 is unreachable");
    assert_eq!(l[2].style, Style::BrightRed);
}

#[test]
fn fetch_failure_layout() {
    let site = SiteInfo {
        name: "client-04".into(),
        display_name: "Acme Corp".into(),
        location: Some("Milwaukee, WI".into()),
        agent_url: Some("http://10.0.0.1:7734/status".into()),
        api_key: None,
    };
    let (header, error) = render_fetch_failure(&site, "timed out");
    assert_eq!(header.len(), 4);
    assert_eq!(texts(&header[1]), "Acme Corp (client-04)");
    assert_eq!(texts(&header[2]), "Milwaukee, WI");
    assert_eq!(texts(&error), "Error: Failed to fetch from agent: timed out");
    assert_eq!(error[0].style, Style::BrightRedBold);
}

#[test]
fn messages() {
    assert_eq!(texts(&render_error("boom")), "Error: boom");
    assert_eq!(render_error("boom")[0].style, Style::BrightRedBold);
    assert_eq!(texts(&render_success("saved")), "✓ saved");
    assert_eq!(render_watch_header(), "\x1B[2J\x1B[1;1H");
}
