use scry::remote::{
    api_key_to_send, convert_to_status_results, cron_label, CronStatus, RemoteAgentStatus,
    RemoteNetworkStatus, RemoteServiceStatus, RemoteSiteStatus, RemoteSystemInfo,
};
use scry::status::HealthStatus;

fn cron(name: &str, status: &str) -> CronStatus {
    CronStatus {
        name: name.into(),
        schedule: "0 * * * *".into(),
        last_run: "10:00".into(),
        next_run: "11:00".into(),
        status: status.into(),
    }
}

fn report() -> RemoteSiteStatus {
    RemoteSiteStatus {
        site: "client-04".into(),
        display_name: "Acme Corp".into(),
        location: "Milwaukee, WI".into(),
        system: RemoteSystemInfo {
            hostname: "rack-01".into(),
            uptime_secs: 42 * 86400 + 3600,
            cpu_count: 8,
            ram_total_gb: 32,
            ram_used_gb: 8,
            disk_total_gb: 1000,
            disk_used_gb: 250,
        },
        network: vec![
            RemoteNetworkStatus { label: "switch".into(), host: "192.168.1.1".into(), status: "online".into(), latency_ms: Some(3) },
            RemoteNetworkStatus { label: "ap".into(), host: "192.168.1.10".into(), status: "down".into(), latency_ms: None },
        ],
        agents: vec![
            RemoteAgentStatus { name: "lead-enrichment".into(), health_url: "u".into(), status: "running".into() },
            RemoteAgentStatus { name: "doc-processor".into(), health_url: "u".into(), status: "stopped".into() },
        ],
        services: vec![
            RemoteServiceStatus { name: "nginx".into(), status: "active".into() },
            RemoteServiceStatus { name: "cron".into(), status: "failed".into() },
        ],
        crons: vec![cron("backup", "ok"), cron("sync", "error"), cron("report", "idle")],
    }
}

#[test]
fn convert_report() {
    let r = convert_to_status_results(&report(), 25, 25);
    assert_eq!(r.len(), 1 + 2 + 2 + 2 + 3);
    assert_eq!(r[0].category, "server");
    assert_eq!(r[0].label, "rack-01 (8c, 32GB RAM)");
    assert_eq!(r[0].status, HealthStatus::Online);
    assert_eq!(r[0].details.as_deref(), Some("RAM 25%, Disk 25%, Up 42d"));
    assert_eq!((r[1].category.as_str(), r[1].status, r[1].details.as_deref()), ("network", HealthStatus::Online, Some("3ms")));
    assert_eq!((r[2].status, r[2].details.as_deref()), (HealthStatus::Offline, None));
    assert_eq!((r[3].category.as_str(), r[3].status), ("agents", HealthStatus::Online));
    assert_eq!(r[4].status, HealthStatus::Offline);
    assert_eq!((r[5].category.as_str(), r[5].status), ("services", HealthStatus::Online));
    assert_eq!(r[6].status, HealthStatus::Offline);
    assert_eq!((r[7].category.as_str(), r[7].status), ("crons", HealthStatus::Online));
    assert_eq!(r[7].details.as_deref(), Some("last: 10:00 | next: 11:00"));
    assert_eq!(r[8].status, HealthStatus::Offline);
    assert_eq!(r[9].status, HealthStatus::Unknown);
}

#[test]
fn cron_labels_are_cut_at_35_bytes() {
    let exact = "a".repeat(38);
    assert_eq!(cron_label(&exact), exact);
    let long = "abcdefghij".repeat(4);
    assert_eq!(cron_label(&long), format!("{}...", &long[..35]));
    let wide = format!("{}{}", "é".repeat(17), "xyz");
    assert_eq!(wide.len(), 37);
    assert_eq!(cron_label(&wide), wide);
    let wide_long = format!("{}{}", "é".repeat(17), "x".repeat(10));
    assert_eq!(cron_label(&wide_long), format!("{}...", &wide_long[..35]));
    assert!(cron_label(&wide_long).len() <= 38);
}

#[test]
fn api_key_only_when_set() {
    assert_eq!(api_key_to_send(&Some("SECRET-REDACTED".into())).as_deref(), Some("SECRET-REDACTED"));
    assert_eq!(api_key_to_send(&Some(String::new())), None);
    assert_eq!(api_key_to_send(&None), None);
}
