use scry::wizard::{
    input_kind, parse_vlan_names, text_default, Answer, InputKind, Question, SiteWizard,
    WizardError,
};

fn text(s: &str) -> Answer {
    Answer::Text(s.to_string())
}

fn answer_all(answers: Vec<Answer>) -> (SiteWizard, Vec<Question>) {
    let mut w = SiteWizard::new();
    let mut asked = Vec::new();
    for a in answers {
        asked.push(w.next.unwrap());
        w.answer(a).unwrap();
    }
    (w, asked)
}

#[test]
fn vlan_names_are_trimmed_and_filtered() {
    assert_eq!(parse_vlan_names(" ops, guest ,,iot ,"), vec!["ops", "guest", "iot"]);
    assert!(parse_vlan_names(" , ").is_empty());
}

#[test]
fn kinds_and_defaults() {
    assert_eq!(input_kind(Question::AddNetwork), InputKind::Confirm { default: true });
    assert_eq!(input_kind(Question::AddVlans), InputKind::Confirm { default: false });
    assert_eq!(input_kind(Question::AccessPointCount), InputKind::Number { default: 1 });
    assert_eq!(input_kind(Question::ServerRam), InputKind::Number { default: 16 });
    assert_eq!(input_kind(Question::Location), InputKind::Text { allow_empty: true });
    assert_eq!(text_default(Question::AccessPointLabel).as_deref(), Some("access points"));
    assert_eq!(text_default(Question::ServerStorage).as_deref(), Some("500GB SSD"));
    assert_eq!(text_default(Question::SiteIdentifier), None);
}

#[test]
fn full_wizard() {
    let (w, asked) = answer_all(vec![
        text("client-15"),
        text("MegaCorp Industries"),
        text("Chicago, IL"),
        text("http://192.168.0.94:7734/status"),
        text(""),
        Answer::Confirm(true),
        Answer::Confirm(true),
        text("192.168.1.1"),
        text("48-port managed switch"),
        Answer::Confirm(true),
        Answer::Number(6),
        text("enterprise APs"),
        Answer::Confirm(true),
        text("ops, guest,iot"),
        Answer::Confirm(true),
        text("192.168.1.100"),
        text("rack-01"),
        Answer::Number(32),
        text("1TB SSD"),
        Answer::Confirm(true),
        text("lead-enrichment"),
        text("http://192.168.1.100:3001/health"),
        Answer::Confirm(true),
        text("doc-processor"),
        text("http://192.168.1.100:3002/health"),
        Answer::Confirm(false),
        text("https://uptime.example/api"),
    ]);
    assert_eq!(asked[4], Question::ApiKey);
    assert!(w.next.is_none());
    let c = w.finish().unwrap();
    assert_eq!(c.site.name, "client-15");
    assert_eq!(c.site.display_name, "MegaCorp Industries");
    assert_eq!(c.site.location.as_deref(), Some("Chicago, IL"));
    assert_eq!(c.site.agent_url.as_deref(), Some("http://192.168.0.94:7734/status"));
    assert_eq!(c.site.api_key, None);
    let net = c.network.unwrap();
    let sw = net.switches.unwrap();
    assert_eq!((sw[0].host.as_str(), sw[0].label.as_str(), sw[0].check_type.as_str()), ("192.168.1.1", "48-port managed switch", "ping"));
    let ap = net.access_points.unwrap();
    assert_eq!((ap[0].count, ap[0].label.as_str()), (6, "enterprise APs"));
    assert_eq!(net.vlans.unwrap()[0].names, vec!["ops", "guest", "iot"]);
    let sv = c.servers.unwrap();
    assert_eq!((sv[0].ram_gb, sv[0].storage.as_deref()), (Some(32), Some("1TB SSD")));
    let ag = c.agents.unwrap();
    assert_eq!(ag.len(), 2);
    assert_eq!((ag[1].name.as_str(), ag[1].health_url.as_str()), ("doc-processor", "http://192.168.1.100:3002/health"));
    assert_eq!(c.monitor.unwrap().uptime_url.as_deref(), Some("https://uptime.example/api"));
}

#[test]
fn minimal_wizard_skips_groups() {
    let (w, asked) = answer_all(vec![
        text("client-16"),
        text("Small Shop"),
        text(""),
        text(""),
        Answer::Confirm(false),
        Answer::Confirm(false),
        Answer::Confirm(false),
        text(""),
    ]);
    assert_eq!(
        asked,
        vec![
            Question::SiteIdentifier,
            Question::DisplayName,
            Question::Location,
            Question::AgentUrl,
            Question::AddNetwork,
            Question::AddServer,
            Question::AddAgents,
            Question::UptimeUrl,
        ]
    );
    let c = w.finish().unwrap();
    assert!(c.site.location.is_none() && c.site.agent_url.is_none() && c.site.api_key.is_none());
    assert!(c.network.is_none() && c.servers.is_none() && c.agents.is_none() && c.monitor.is_none());
}

#[test]
fn wrong_answers_are_refused() {
    let mut w = SiteWizard::new();
    assert_eq!(w.answer(Answer::Confirm(true)), Err(WizardError::WrongKind));
    assert_eq!(w.next, Some(Question::SiteIdentifier));
    let (mut done, _) = answer_all(vec![
        text("a"), text("b"), text(""), text(""), Answer::Confirm(false), Answer::Confirm(false), Answer::Confirm(false), text(""),
    ]);
    assert_eq!(done.answer(text("more")), Err(WizardError::Finished));
    let unfinished = SiteWizard::new();
    assert!(unfinished.finish().is_none());
}

#[test]
fn vlans_without_names_are_left_out() {
    let (w, _) = answer_all(vec![
        text("a"), text("b"), text(""), text(""),
        Answer::Confirm(true), Answer::Confirm(false), Answer::Confirm(false), Answer::Confirm(true), text(" , "),
        Answer::Confirm(false), Answer::Confirm(false), text(""),
    ]);
    let net = w.finish().unwrap().network.unwrap();
    assert!(net.switches.is_none() && net.access_points.is_none() && net.vlans.is_none());
}
