use scry::config::{
    config_file_name, default_check_type, list_site_names, resolve_site_name, site_is_healthy,
    site_name_from_file_name, status_plan, ConfigError, SiteConfig, SiteInfo, StatusPlan,
};

fn info(name: &str, agent_url: Option<&str>, api_key: Option<&str>) -> SiteInfo {
    SiteInfo {
        name: name.to_string(),
        display_name: "Acme Corp".to_string(),
        location: Some("Milwaukee, WI".to_string()),
        agent_url: agent_url.map(|s| s.to_string()),
        api_key: api_key.map(|s| s.to_string()),
    }
}

#[test]
fn default_check_type_is_ping() {
    assert_eq!(default_check_type(), "ping");
}

#[test]
fn file_names_and_sites() {
    assert_eq!(config_file_name("client-04"), "client-04.toml");
    assert_eq!(site_name_from_file_name("client-04.toml").as_deref(), Some("client-04"));
    assert_eq!(site_name_from_file_name("a.b.toml").as_deref(), Some("a.b"));
    assert_eq!(site_name_from_file_name("..toml").as_deref(), Some("."));
    assert_eq!(site_name_from_file_name(".toml"), None);
    assert_eq!(site_name_from_file_name("notes.txt"), None);
    assert_eq!(site_name_from_file_name("x.TOML"), None);
    assert_eq!(site_name_from_file_name("toml"), None);
}

#[test]
fn saved_site_is_listed_again() {
    for name in ["client-04", "x", "a.b"] {
        let file = config_file_name(name);
        assert_eq!(site_name_from_file_name(&file).as_deref(), Some(name));
    }
}

#[test]
fn listing_keeps_toml_stems_sorted() {
    let files = vec![
        "client-12.toml".to_string(),
        "README.md".to_string(),
        "client-04.toml".to_string(),
        ".toml".to_string(),
        "client-07.toml".to_string(),
    ];
    assert_eq!(list_site_names(files), vec!["client-04", "client-07", "client-12"]);
    assert!(list_site_names(Vec::new()).is_empty());
}

#[test]
fn explicit_site_wins_over_default() {
    assert_eq!(resolve_site_name(Some("a".into()), Some("b".into())).unwrap(), "a");
    assert_eq!(resolve_site_name(None, Some("b".into())).unwrap(), "b");
    let err = resolve_site_name(None, None).unwrap_err();
    assert_eq!(err, ConfigError::NoSiteSpecified);
    assert_eq!(err.message(), "No site specified. Use --site or set SCRY_SITE environment variable.");
}

#[test]
fn listed_site_health() {
    let config = SiteConfig { site: info("client-04", None, None), network: None, servers: None, agents: None, monitor: None };
    assert!(site_is_healthy(&"client-04".to_string(), &Some(config.clone())));
    assert!(!site_is_healthy(&"client-05".to_string(), &Some(config)));
    assert!(!site_is_healthy(&"client-04".to_string(), &None));
}

#[test]
fn status_plan_follows_agent_url() {
    match status_plan(&info("s", Some("http://10.0.0.1:7734/status"), Some("k"))) {
        StatusPlan::Remote { agent_url, api_key } => {
            assert_eq!(agent_url, "http://10.0.0.1:7734/status");
            assert_eq!(api_key.as_deref(), Some("k"));
        }
        StatusPlan::Local => panic!("expected a remote plan"),
    }
    assert!(matches!(status_plan(&info("s", None, Some("k"))), StatusPlan::Local));
}
