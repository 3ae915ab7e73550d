//! Adding a site by answering questions: which question comes next, and
//! the configuration that the answers make.
use vstd::prelude::*;
use crate::config::{
    AccessPointConfig, AgentConfig, MonitorConfig, NetworkConfig, ServerConfig, SiteConfig,
    SiteInfo, SwitchConfig, VlanConfig,
};
use crate::status::opt_view;
use crate::text::{owned, split_on, split_seq, trim, trim_seq, views};

verus! {

/// A question of the wizard.
#[derive(Debug, Clone, Copy, PartialEq, Eq, Structural)]
pub enum Question {
    SiteIdentifier,
    DisplayName,
    Location,
    AgentUrl,
    ApiKey,
    AddNetwork,
    AddSwitch,
    SwitchHost,
    SwitchLabel,
    AddAccessPoints,
    AccessPointCount,
    AccessPointLabel,
    AddVlans,
    VlanNames,
    AddServer,
    ServerHost,
    ServerLabel,
    ServerRam,
    ServerStorage,
    AddAgents,
    AgentName,
    AgentHealthUrl,
    AnotherAgent,
    UptimeUrl,
}

/// How a question is answered.
#[derive(Debug, Clone, Copy, PartialEq, Eq, Structural)]
pub enum InputKind {
    /// Free text, which may be empty or not.
    Text { allow_empty: bool },
    /// Free text with a default (see `text_default`).
    TextWithDefault,
    /// A number with a default.
    Number { default: u32 },
    /// Yes or no, with a default.
    Confirm { default: bool },
}

/// How each question is answered.
pub open spec fn input_kind_spec(q: Question) -> InputKind {
    match q {
        Question::SiteIdentifier => InputKind::Text { allow_empty: false },
        Question::DisplayName => InputKind::Text { allow_empty: false },
        Question::Location => InputKind::Text { allow_empty: true },
        Question::AgentUrl => InputKind::Text { allow_empty: true },
        Question::ApiKey => InputKind::Text { allow_empty: true },
        Question::AddNetwork => InputKind::Confirm { default: true },
        Question::AddSwitch => InputKind::Confirm { default: true },
        Question::SwitchHost => InputKind::Text { allow_empty: false },
        Question::SwitchLabel => InputKind::Text { allow_empty: false },
        Question::AddAccessPoints => InputKind::Confirm { default: true },
        Question::AccessPointCount => InputKind::Number { default: 1 },
        Question::AccessPointLabel => InputKind::TextWithDefault,
        Question::AddVlans => InputKind::Confirm { default: false },
        Question::VlanNames => InputKind::Text { allow_empty: false },
        Question::AddServer => InputKind::Confirm { default: true },
        Question::ServerHost => InputKind::Text { allow_empty: false },
        Question::ServerLabel => InputKind::Text { allow_empty: false },
        Question::ServerRam => InputKind::Number { default: 16 },
        Question::ServerStorage => InputKind::TextWithDefault,
        Question::AddAgents => InputKind::Confirm { default: false },
        Question::AgentName => InputKind::Text { allow_empty: false },
        Question::AgentHealthUrl => InputKind::Text { allow_empty: false },
        Question::AnotherAgent => InputKind::Confirm { default: false },
        Question::UptimeUrl => InputKind::Text { allow_empty: true },
    }
}

/// How a question is answered.
pub fn input_kind(q: Question) -> (k: InputKind)
    ensures
        k == input_kind_spec(q),
{
    match q {
        Question::SiteIdentifier => InputKind::Text { allow_empty: false },
        Question::DisplayName => InputKind::Text { allow_empty: false },
        Question::Location => InputKind::Text { allow_empty: true },
        Question::AgentUrl => InputKind::Text { allow_empty: true },
        Question::ApiKey => InputKind::Text { allow_empty: true },
        Question::AddNetwork => InputKind::Confirm { default: true },
        Question::AddSwitch => InputKind::Confirm { default: true },
        Question::SwitchHost => InputKind::Text { allow_empty: false },
        Question::SwitchLabel => InputKind::Text { allow_empty: false },
        Question::AddAccessPoints => InputKind::Confirm { default: true },
        Question::AccessPointCount => InputKind::Number { default: 1 },
        Question::AccessPointLabel => InputKind::TextWithDefault,
        Question::AddVlans => InputKind::Confirm { default: false },
        Question::VlanNames => InputKind::Text { allow_empty: false },
        Question::AddServer => InputKind::Confirm { default: true },
        Question::ServerHost => InputKind::Text { allow_empty: false },
        Question::ServerLabel => InputKind::Text { allow_empty: false },
        Question::ServerRam => InputKind::Number { default: 16 },
        Question::ServerStorage => InputKind::TextWithDefault,
        Question::AddAgents => InputKind::Confirm { default: false },
        Question::AgentName => InputKind::Text { allow_empty: false },
        Question::AgentHealthUrl => InputKind::Text { allow_empty: false },
        Question::AnotherAgent => InputKind::Confirm { default: false },
        Question::UptimeUrl => InputKind::Text { allow_empty: true },
    }
}

/// The default of a free-text question that has one.
pub open spec fn text_default_spec(q: Question) -> Option<Seq<char>> {
    match q {
        Question::AccessPointLabel => Some("access points"@),
        Question::ServerStorage => Some("500GB SSD"@),
        _ => None,
    }
}

/// The default of a free-text question that has one.
pub fn text_default(q: Question) -> (d: Option<String>)
    ensures
        opt_view(d) == text_default_spec(q),
{
    match q {
        Question::AccessPointLabel => Some(owned("access points")),
        Question::ServerStorage => Some(owned("500GB SSD")),
        _ => None,
    }
}

/// An answer to a question.
#[derive(Debug, Clone)]
pub enum Answer {
    Text(String),
    Number(u32),
    Confirm(bool),
}

/// Whether an answer is of the kind its question asks for.
pub open spec fn answer_fits(k: InputKind, a: Answer) -> bool {
    match k {
        InputKind::Text { .. } => a is Text,
        InputKind::TextWithDefault => a is Text,
        InputKind::Number { .. } => a is Number,
        InputKind::Confirm { .. } => a is Confirm,
    }
}

/// Whether an answer is a yes.
pub open spec fn is_yes(a: Answer) -> bool {
    a matches Answer::Confirm(b) && b
}

/// Whether an answer is a non-empty text.
pub open spec fn is_nonempty_text(a: Answer) -> bool {
    a matches Answer::Text(s) && s@.len() > 0
}

/// The question after `q` has been answered with `a`: the API key is only
/// asked for a site with a status daemon; each yes-or-no question opens
/// its group of questions or skips it; agents are asked for until the
/// answer is no; the uptime URL is the last question.
pub open spec fn next_question_spec(q: Question, a: Answer) -> Option<Question> {
    match q {
        Question::SiteIdentifier => Some(Question::DisplayName),
        Question::DisplayName => Some(Question::Location),
        Question::Location => Some(Question::AgentUrl),
        Question::AgentUrl => if is_nonempty_text(a) {
            Some(Question::ApiKey)
        } else {
            Some(Question::AddNetwork)
        },
        Question::ApiKey => Some(Question::AddNetwork),
        Question::AddNetwork => if is_yes(a) {
            Some(Question::AddSwitch)
        } else {
            Some(Question::AddServer)
        },
        Question::AddSwitch => if is_yes(a) {
            Some(Question::SwitchHost)
        } else {
            Some(Question::AddAccessPoints)
        },
        Question::SwitchHost => Some(Question::SwitchLabel),
        Question::SwitchLabel => Some(Question::AddAccessPoints),
        Question::AddAccessPoints => if is_yes(a) {
            Some(Question::AccessPointCount)
        } else {
            Some(Question::AddVlans)
        },
        Question::AccessPointCount => Some(Question::AccessPointLabel),
        Question::AccessPointLabel => Some(Question::AddVlans),
        Question::AddVlans => if is_yes(a) {
            Some(Question::VlanNames)
        } else {
            Some(Question::AddServer)
        },
        Question::VlanNames => Some(Question::AddServer),
        Question::AddServer => if is_yes(a) {
            Some(Question::ServerHost)
        } else {
            Some(Question::AddAgents)
        },
        Question::ServerHost => Some(Question::ServerLabel),
        Question::ServerLabel => Some(Question::ServerRam),
        Question::ServerRam => Some(Question::ServerStorage),
        Question::ServerStorage => Some(Question::AddAgents),
        Question::AddAgents => if is_yes(a) {
            Some(Question::AgentName)
        } else {
            Some(Question::UptimeUrl)
        },
        Question::AgentName => Some(Question::AgentHealthUrl),
        Question::AgentHealthUrl => Some(Question::AnotherAgent),
        Question::AnotherAgent => if is_yes(a) {
            Some(Question::AgentName)
        } else {
            Some(Question::UptimeUrl)
        },
        Question::UptimeUrl => None,
    }
}

/// The answers given so far.
#[derive(Debug, Clone)]
pub struct WizardAnswers {
    pub name: String,
    pub display_name: String,
    pub location: String,
    pub agent_url: String,
    pub api_key: String,
    pub add_network: bool,
    pub add_switch: bool,
    pub switch_host: String,
    pub switch_label: String,
    pub add_access_points: bool,
    pub access_point_count: u32,
    pub access_point_label: String,
    pub add_vlans: bool,
    pub vlan_names: String,
    pub add_server: bool,
    pub server_host: String,
    pub server_label: String,
    pub server_ram_gb: u32,
    pub server_storage: String,
    pub add_agents: bool,
    pub agents: Vec<AgentConfig>,
    pub pending_agent_name: String,
    pub uptime_url: String,
}

/// How answering `q` with `a` changes the answers: it records the answer
/// in the slot of its question; an agent's URL completes the agent whose
/// name came before it.
pub open spec fn recorded(old: WizardAnswers, q: Question, a: Answer, new: WizardAnswers) -> bool {
    match a {
        Answer::Text(s) => match q {
            Question::SiteIdentifier => new == WizardAnswers { name: s, ..old },
            Question::DisplayName => new == WizardAnswers { display_name: s, ..old },
            Question::Location => new == WizardAnswers { location: s, ..old },
            Question::AgentUrl => new == WizardAnswers { agent_url: s, ..old },
            Question::ApiKey => new == WizardAnswers { api_key: s, ..old },
            Question::SwitchHost => new == WizardAnswers { switch_host: s, ..old },
            Question::SwitchLabel => new == WizardAnswers { switch_label: s, ..old },
            Question::AccessPointLabel => new == WizardAnswers { access_point_label: s, ..old },
            Question::VlanNames => new == WizardAnswers { vlan_names: s, ..old },
            Question::ServerHost => new == WizardAnswers { server_host: s, ..old },
            Question::ServerLabel => new == WizardAnswers { server_label: s, ..old },
            Question::ServerStorage => new == WizardAnswers { server_storage: s, ..old },
            Question::AgentName => new == WizardAnswers { pending_agent_name: s, ..old },
            Question::AgentHealthUrl => new.agents@ == old.agents@.push(
                AgentConfig { name: old.pending_agent_name, health_url: s },
            ) && new == WizardAnswers { agents: new.agents, ..old },
            Question::UptimeUrl => new == WizardAnswers { uptime_url: s, ..old },
            _ => false,
        },
        Answer::Number(n) => match q {
            Question::AccessPointCount => new == WizardAnswers { access_point_count: n, ..old },
            Question::ServerRam => new == WizardAnswers { server_ram_gb: n, ..old },
            _ => false,
        },
        Answer::Confirm(b) => match q {
            Question::AddNetwork => new == WizardAnswers { add_network: b, ..old },
            Question::AddSwitch => new == WizardAnswers { add_switch: b, ..old },
            Question::AddAccessPoints => new == WizardAnswers { add_access_points: b, ..old },
            Question::AddVlans => new == WizardAnswers { add_vlans: b, ..old },
            Question::AddServer => new == WizardAnswers { add_server: b, ..old },
            Question::AddAgents => new == WizardAnswers { add_agents: b, ..old },
            Question::AnotherAgent => new == old,
            _ => false,
        },
    }
}

/// Whether a question comes no later than the agent URL question.
pub open spec fn before_agent_url(q: Option<Question>) -> bool {
    match q {
        Some(Question::SiteIdentifier) | Some(Question::DisplayName) | Some(Question::Location)
        | Some(Question::AgentUrl) => true,
        _ => false,
    }
}

/// What every state of the wizard keeps: no API key is held for a site
/// without a status daemon URL, none before that URL is asked, and the API
/// key is only asked for after a non-empty URL.
pub open spec fn wizard_consistent(w: SiteWizard) -> bool {
    &&& w.answers.api_key@.len() > 0 ==> w.answers.agent_url@.len() > 0
    &&& w.next == Some(Question::ApiKey) ==> w.answers.agent_url@.len() > 0
    &&& before_agent_url(w.next) ==> w.answers.api_key@.len() == 0
}

/// Why an answer was not taken.
#[derive(Debug, Clone, Copy, PartialEq, Eq, Structural)]
pub enum WizardError {
    /// Every question has been answered.
    Finished,
    /// The answer is not of the kind the question asks for.
    WrongKind,
}

/// The wizard: the question it asks next, if any, and the answers so far.
#[derive(Debug)]
pub struct SiteWizard {
    pub next: Option<Question>,
    pub answers: WizardAnswers,
}

fn empty_string() -> (s: String)
    ensures
        s@.len() == 0,
{
    String::new()
}

impl SiteWizard {
    /// A wizard that asks for the site identifier first.
    pub fn new() -> (w: SiteWizard)
        ensures
            w.next == Some(Question::SiteIdentifier),
            w.answers.agents@.len() == 0,
            !w.answers.add_network && !w.answers.add_switch && !w.answers.add_access_points,
            !w.answers.add_vlans && !w.answers.add_server && !w.answers.add_agents,
            w.answers.name@.len() == 0 && w.answers.display_name@.len() == 0,
            w.answers.location@.len() == 0 && w.answers.agent_url@.len() == 0,
            w.answers.api_key@.len() == 0,
            w.answers.switch_host@.len() == 0 && w.answers.switch_label@.len() == 0,
            w.answers.access_point_count == 0 && w.answers.access_point_label@.len() == 0,
            w.answers.vlan_names@.len() == 0,
            w.answers.server_host@.len() == 0 && w.answers.server_label@.len() == 0,
            w.answers.server_ram_gb == 0 && w.answers.server_storage@.len() == 0,
            w.answers.pending_agent_name@.len() == 0,
            w.answers.uptime_url@.len() == 0,
            wizard_consistent(w),
    {
        SiteWizard {
            next: Some(Question::SiteIdentifier),
            answers: WizardAnswers {
                name: empty_string(),
                display_name: empty_string(),
                location: empty_string(),
                agent_url: empty_string(),
                api_key: empty_string(),
                add_network: false,
                add_switch: false,
                switch_host: empty_string(),
                switch_label: empty_string(),
                add_access_points: false,
                access_point_count: 0,
                access_point_label: empty_string(),
                add_vlans: false,
                vlan_names: empty_string(),
                add_server: false,
                server_host: empty_string(),
                server_label: empty_string(),
                server_ram_gb: 0,
                server_storage: empty_string(),
                add_agents: false,
                agents: Vec::new(),
                pending_agent_name: empty_string(),
                uptime_url: empty_string(),
            },
        }
    }

    /// Takes the answer to the current question: records it and moves to
    /// the next question. A finished wizard, or an answer of the wrong
    /// kind, leaves the wizard as it was.
    pub fn answer(&mut self, a: Answer) -> (r: Result<(), WizardError>)
        ensures
            match old(self).next {
                None => r == Err::<(), WizardError>(WizardError::Finished) && *final(self)
                    == *old(self),
                Some(q) => if answer_fits(input_kind_spec(q), a) {
                    &&& r is Ok
                    &&& final(self).next == next_question_spec(q, a)
                    &&& recorded(old(self).answers, q, a, final(self).answers)
                } else {
                    r == Err::<(), WizardError>(WizardError::WrongKind) && *final(self)
                        == *old(self)
                },
            },
            wizard_consistent(*old(self)) ==> wizard_consistent(*final(self)),
    {
        let q = match self.next {
            None => return Err(WizardError::Finished),
            Some(q) => q,
        };
        let kind = input_kind(q);
        let fits = match kind {
            InputKind::Text { .. } => matches!(a, Answer::Text(_)),
            InputKind::TextWithDefault => matches!(a, Answer::Text(_)),
            InputKind::Number { .. } => matches!(a, Answer::Number(_)),
            InputKind::Confirm { .. } => matches!(a, Answer::Confirm(_)),
        };
        if !fits {
            return Err(WizardError::WrongKind);
        }
        match a {
            Answer::Text(s) => {
                let nonempty = s.as_str().unicode_len() > 0;
                match q {
                    Question::SiteIdentifier => {
                        self.answers.name = s;
                        self.next = Some(Question::DisplayName);
                    },
                    Question::DisplayName => {
                        self.answers.display_name = s;
                        self.next = Some(Question::Location);
                    },
                    Question::Location => {
                        self.answers.location = s;
                        self.next = Some(Question::AgentUrl);
                    },
                    Question::AgentUrl => {
                        self.answers.agent_url = s;
                        self.next = if nonempty {
                            Some(Question::ApiKey)
                        } else {
                            Some(Question::AddNetwork)
                        };
                    },
                    Question::ApiKey => {
                        self.answers.api_key = s;
                        self.next = Some(Question::AddNetwork);
                    },
                    Question::SwitchHost => {
                        self.answers.switch_host = s;
                        self.next = Some(Question::SwitchLabel);
                    },
                    Question::SwitchLabel => {
                        self.answers.switch_label = s;
                        self.next = Some(Question::AddAccessPoints);
                    },
                    Question::AccessPointLabel => {
                        self.answers.access_point_label = s;
                        self.next = Some(Question::AddVlans);
                    },
                    Question::VlanNames => {
                        self.answers.vlan_names = s;
                        self.next = Some(Question::AddServer);
                    },
                    Question::ServerHost => {
                        self.answers.server_host = s;
                        self.next = Some(Question::ServerLabel);
                    },
                    Question::ServerLabel => {
                        self.answers.server_label = s;
                        self.next = Some(Question::ServerRam);
                    },
                    Question::ServerStorage => {
                        self.answers.server_storage = s;
                        self.next = Some(Question::AddAgents);
                    },
                    Question::AgentName => {
                        self.answers.pending_agent_name = s;
                        self.next = Some(Question::AgentHealthUrl);
                    },
                    Question::AgentHealthUrl => {
                        let name = self.answers.pending_agent_name.clone();
                        self.answers.agents.push(AgentConfig { name, health_url: s });
                        self.next = Some(Question::AnotherAgent);
                    },
                    _ => {
                        self.answers.uptime_url = s;
                        self.next = None;
                    },
                }
            },
            Answer::Number(n) => {
                match q {
                    Question::AccessPointCount => {
                        self.answers.access_point_count = n;
                        self.next = Some(Question::AccessPointLabel);
                    },
                    _ => {
                        self.answers.server_ram_gb = n;
                        self.next = Some(Question::ServerStorage);
                    },
                }
            },
            Answer::Confirm(b) => {
                match q {
                    Question::AddNetwork => {
                        self.answers.add_network = b;
                        self.next = if b {
                            Some(Question::AddSwitch)
                        } else {
                            Some(Question::AddServer)
                        };
                    },
                    Question::AddSwitch => {
                        self.answers.add_switch = b;
                        self.next = if b {
                            Some(Question::SwitchHost)
                        } else {
                            Some(Question::AddAccessPoints)
                        };
                    },
                    Question::AddAccessPoints => {
                        self.answers.add_access_points = b;
                        self.next = if b {
                            Some(Question::AccessPointCount)
                        } else {
                            Some(Question::AddVlans)
                        };
                    },
                    Question::AddVlans => {
                        self.answers.add_vlans = b;
                        self.next = if b {
                            Some(Question::VlanNames)
                        } else {
                            Some(Question::AddServer)
                        };
                    },
                    Question::AddServer => {
                        self.answers.add_server = b;
                        self.next = if b {
                            Some(Question::ServerHost)
                        } else {
                            Some(Question::AddAgents)
                        };
                    },
                    Question::AddAgents => {
                        self.answers.add_agents = b;
                        self.next = if b {
                            Some(Question::AgentName)
                        } else {
                            Some(Question::UptimeUrl)
                        };
                    },
                    _ => {
                        self.next = if b {
                            Some(Question::AgentName)
                        } else {
                            Some(Question::UptimeUrl)
                        };
                    },
                }
            },
        }
        Ok(())
    }
}

// ---------------------------------------------------------------------
// The configuration the answers make
// ---------------------------------------------------------------------
/// An empty answer stands for no value.
pub open spec fn nonempty_view(s: Seq<char>) -> Option<Seq<char>> {
    if s.len() == 0 {
        None
    } else {
        Some(s)
    }
}

fn nonempty(s: String) -> (r: Option<String>)
    ensures
        opt_view(r) == nonempty_view(s@),
        r matches Some(v) ==> v == s,
{
    if s.as_str().unicode_len() == 0 {
        None
    } else {
        Some(s)
    }
}

/// The non-empty strings of `s`, in order.
pub open spec fn keep_nonempty(s: Seq<Seq<char>>) -> Seq<Seq<char>>
    decreases s.len(),
{
    if s.len() == 0 {
        Seq::empty()
    } else if s.last().len() == 0 {
        keep_nonempty(s.drop_last())
    } else {
        keep_nonempty(s.drop_last()).push(s.last())
    }
}

/// The VLAN names in a comma-separated answer: its pieces, trimmed, without
/// the empty ones.
pub open spec fn vlan_names_spec(input: Seq<char>) -> Seq<Seq<char>> {
    keep_nonempty(split_seq(input, ',').map_values(|p: Seq<char>| trim_seq(p)))
}

/// Reads the VLAN names of a comma-separated answer.
pub fn parse_vlan_names(input: &str) -> (r: Vec<String>)
    ensures
        views(r@) == vlan_names_spec(input@),
{
    let pieces = split_on(input, ',');
    let ghost trimmed = views(pieces@).map_values(|p: Seq<char>| trim_seq(p));
    let mut names: Vec<String> = Vec::new();
    let n = pieces.len();
    let mut i: usize = 0;
    while i < n
        invariant
            i <= n,
            n == pieces@.len(),
            trimmed == views(pieces@).map_values(|p: Seq<char>| trim_seq(p)),
            views(names@) == keep_nonempty(trimmed.take(i as int)),
        decreases n - i,
    {
        let t = trim(pieces[i].as_str());
        assert(trimmed.take(i + 1).drop_last() =~= trimmed.take(i as int));
        assert(trimmed.take(i + 1).last() == t@);
        if t.as_str().unicode_len() > 0 {
            let ghost prev = names@;
            names.push(t);
            assert(views(names@) =~= views(prev).push(names@.last()@));
        }
        i = i + 1;
    }
    assert(trimmed.take(n as int) =~= trimmed);
    names
}

/// Every VLAN name read from an answer is non-empty and trimmed, and none
/// holds a comma.
pub proof fn lemma_vlan_names_clean(input: Seq<char>)
    ensures
        forall|i: int|
            0 <= i < vlan_names_spec(input).len() ==> (#[trigger] vlan_names_spec(input)[i]).len()
                > 0 && clean_piece(vlan_names_spec(input)[i]),
{
    let pieces = split_seq(input, ',');
    lemma_split_pieces_no_sep(input, ',');
    let t = pieces.map_values(|p: Seq<char>| trim_seq(p));
    assert forall|k: int| 0 <= k < t.len() implies clean_piece(#[trigger] t[k]) by {
        assert(t[k] == trim_seq(pieces[k]));
        assert(!pieces[k].contains(','));
        lemma_trim_idempotent(pieces[k]);
        lemma_trim_sub(pieces[k], ',');
    }
    lemma_keep_nonempty_from(t);
}

/// A trimmed piece without commas.
pub open spec fn clean_piece(v: Seq<char>) -> bool {
    trim_seq(v) == v && !v.contains(',')
}

proof fn lemma_keep_nonempty_from(t: Seq<Seq<char>>)
    requires
        forall|k: int| 0 <= k < t.len() ==> clean_piece(#[trigger] t[k]),
    ensures
        forall|i: int|
            0 <= i < keep_nonempty(t).len() ==> (#[trigger] keep_nonempty(t)[i]).len() > 0
                && clean_piece(keep_nonempty(t)[i]),
    decreases t.len(),
{
    if t.len() > 0 {
        let d = t.drop_last();
        assert forall|k: int| 0 <= k < d.len() implies clean_piece(#[trigger] d[k]) by {
            assert(d[k] == t[k]);
        }
        lemma_keep_nonempty_from(d);
        assert(clean_piece(t[t.len() - 1]));
        let kd = keep_nonempty(d);
        let kt = keep_nonempty(t);
        assert forall|i: int| 0 <= i < kt.len() implies (#[trigger] kt[i]).len() > 0 && clean_piece(
            kt[i],
        ) by {
            if i < kd.len() {
                assert(kt[i] == kd[i]);
            } else {
                assert(kt[i] == t.last());
            }
        }
    }
}

proof fn lemma_split_pieces_no_sep(s: Seq<char>, sep: char)
    ensures
        forall|k: int| 0 <= k < split_seq(s, sep).len() ==> !(#[trigger] split_seq(s, sep)[k]).contains(sep),
    decreases s.len(),
{
    if s.len() > 0 {
        lemma_split_pieces_no_sep(s.drop_last(), sep);
        crate::text::lemma_split_nonempty(s.drop_last(), sep);
        let prev = split_seq(s.drop_last(), sep);
        let cur = split_seq(s, sep);
        if s.last() != sep {
            assert forall|k: int| 0 <= k < cur.len() implies !(#[trigger] cur[k]).contains(sep) by {
                if k == prev.len() - 1 {
                    let p = prev.last().push(s.last());
                    assert(cur[k] == p);
                    if p.contains(sep) {
                        let j = choose|j: int| 0 <= j < p.len() && p[j] == sep;
                        if j < prev.last().len() {
                            assert(prev.last()[j] == sep);
                            assert(prev[prev.len() - 1].contains(sep));
                        }
                    }
                } else {
                    assert(cur[k] == prev[k]);
                }
            }
        } else {
            assert forall|k: int| 0 <= k < cur.len() implies !(#[trigger] cur[k]).contains(sep) by {
                if k < prev.len() {
                    assert(cur[k] == prev[k]);
                } else {
                    assert(cur[k] =~= Seq::<char>::empty());
                }
            }
        }
    }
}

proof fn lemma_trim_start_sub(s: Seq<char>, c: char)
    ensures
        !s.contains(c) ==> !crate::text::trim_start_seq(s).contains(c),
        crate::text::trim_start_seq(s).len() == 0 || !crate::text::is_ws(crate::text::trim_start_seq(s)[0]),
    decreases s.len(),
{
    if s.len() > 0 && crate::text::is_ws(s[0]) {
        lemma_trim_start_sub(s.drop_first(), c);
        if !s.contains(c) {
            assert forall|j: int| 0 <= j < s.drop_first().len() implies s.drop_first()[j] != c by {
                assert(s.drop_first()[j] == s[j + 1]);
            }
        }
    }
}

proof fn lemma_trim_end_sub(s: Seq<char>, c: char)
    ensures
        !s.contains(c) ==> !crate::text::trim_end_seq(s).contains(c),
        crate::text::trim_end_seq(s).len() == 0 || !crate::text::is_ws(crate::text::trim_end_seq(s).last()),
    decreases s.len(),
{
    if s.len() > 0 && crate::text::is_ws(s.last()) {
        lemma_trim_end_sub(s.drop_last(), c);
        if !s.contains(c) {
            assert forall|j: int| 0 <= j < s.drop_last().len() implies s.drop_last()[j] != c by {
                assert(s.drop_last()[j] == s[j]);
            }
        }
    }
}

proof fn lemma_trim_sub(s: Seq<char>, c: char)
    ensures
        !s.contains(c) ==> !trim_seq(s).contains(c),
{
    lemma_trim_start_sub(s, c);
    lemma_trim_end_sub(crate::text::trim_start_seq(s), c);
}

proof fn lemma_trim_end_keeps_start(s: Seq<char>)
    requires
        s.len() == 0 || !crate::text::is_ws(s[0]),
    ensures
        crate::text::trim_end_seq(s).len() == 0 || !crate::text::is_ws(crate::text::trim_end_seq(s)[0]),
        crate::text::trim_end_seq(s).len() == 0 || crate::text::trim_end_seq(s)[0] == s[0],
    decreases s.len(),
{
    if s.len() > 0 && crate::text::is_ws(s.last()) {
        let d = s.drop_last();
        if d.len() > 0 {
            assert(d[0] == s[0]);
        }
        lemma_trim_end_keeps_start(d);
    }
}

proof fn lemma_trim_idempotent(s: Seq<char>)
    ensures
        trim_seq(trim_seq(s)) == trim_seq(s),
{
    let a = crate::text::trim_start_seq(s);
    let b = crate::text::trim_end_seq(a);
    lemma_trim_start_sub(s, ' ');
    lemma_trim_end_sub(a, ' ');
    lemma_trim_end_keeps_start(a);
    assert(crate::text::trim_start_seq(b) == b);
    assert(crate::text::trim_end_seq(b) == b);
}

/// What the configuration made from the answers holds: the site's texts,
/// with empty answers as no value; each group of devices exactly when its
/// question was answered yes (VLANs only with at least one name); agents
/// only where any were given; the uptime monitor only with a URL.
pub open spec fn built_from(answers: WizardAnswers, c: SiteConfig) -> bool {
    &&& (c.site.name == answers.name)
    &&& (c.site.display_name == answers.display_name)
    &&& (opt_view(c.site.location) == nonempty_view(answers.location@))
    &&& (opt_view(c.site.agent_url) == nonempty_view(answers.agent_url@))
    &&& (opt_view(c.site.api_key) == nonempty_view(answers.api_key@))
    &&& (answers.add_network <==> c.network is Some)
    &&& (c.network matches Some(net) ==> {
            &&& answers.add_switch <==> net.switches is Some
            &&& net.switches matches Some(sw) ==> sw@.len() == 1 && sw@[0].host == answers.switch_host
                && sw@[0].label == answers.switch_label && sw@[0].check_type@ == "ping"@
                && sw@[0].health_url is None
            &&& answers.add_access_points <==> net.access_points is Some
            &&& net.access_points matches Some(aps) ==> aps@.len() == 1 && aps@[0].count
                == answers.access_point_count && aps@[0].label == answers.access_point_label
                && aps@[0].hosts is None && aps@[0].health_url is None
            &&& (answers.add_vlans && vlan_names_spec(answers.vlan_names@).len() > 0)
                <==> net.vlans is Some
            &&& net.vlans matches Some(vl) ==> vl@.len() == 1 && views(vl@[0].names@)
                == vlan_names_spec(answers.vlan_names@)
        })
    &&& (answers.add_server <==> c.servers is Some)
    &&& (c.servers matches Some(sv) ==> sv@.len() == 1 && sv@[0].host == answers.server_host
            && sv@[0].label == answers.server_label && sv@[0].ram_gb == Some(answers.server_ram_gb)
            && sv@[0].storage == Some(answers.server_storage) && sv@[0].health_url is None)
    &&& ((answers.add_agents && answers.agents@.len() > 0) <==> c.agents is Some)
    &&& (c.agents matches Some(ag) ==> ag == answers.agents)
    &&& (match c.monitor {
        Some(m) => m.uptime_url matches Some(u) && nonempty_view(answers.uptime_url@) == Some(u@),
        None => nonempty_view(answers.uptime_url@) is None,
    })
}

/// The configuration that the answers make.
pub fn build_site_config(answers: WizardAnswers) -> (c: SiteConfig)
    ensures
        built_from(answers, c),
{
    let WizardAnswers {
        name,
        display_name,
        location,
        agent_url,
        api_key,
        add_network,
        add_switch,
        switch_host,
        switch_label,
        add_access_points,
        access_point_count,
        access_point_label,
        add_vlans,
        vlan_names,
        add_server,
        server_host,
        server_label,
        server_ram_gb,
        server_storage,
        add_agents,
        agents,
        pending_agent_name: _,
        uptime_url,
    } = answers;
    let site = SiteInfo {
        name,
        display_name,
        location: nonempty(location),
        agent_url: nonempty(agent_url),
        api_key: nonempty(api_key),
    };
    let network = if add_network {
        let switches = if add_switch {
            Some(
                vec![SwitchConfig {
                    host: switch_host,
                    label: switch_label,
                    check_type: owned("ping"),
                    health_url: None,
                }],
            )
        } else {
            None
        };
        let access_points = if add_access_points {
            Some(
                vec![AccessPointConfig {
                    count: access_point_count,
                    label: access_point_label,
                    hosts: None,
                    health_url: None,
                }],
            )
        } else {
            None
        };
        let vlans = if add_vlans {
            let names = parse_vlan_names(vlan_names.as_str());
            if names.len() > 0 {
                Some(vec![VlanConfig { names }])
            } else {
                None
            }
        } else {
            None
        };
        Some(NetworkConfig { switches, access_points, vlans })
    } else {
        None
    };
    let servers = if add_server {
        Some(
            vec![ServerConfig {
                host: server_host,
                label: server_label,
                ram_gb: Some(server_ram_gb),
                storage: Some(server_storage),
                health_url: None,
            }],
        )
    } else {
        None
    };
    let agents = if add_agents && agents.len() > 0 {
        Some(agents)
    } else {
        None
    };
    let monitor = match nonempty(uptime_url) {
        Some(u) => Some(MonitorConfig { uptime_url: Some(u) }),
        None => None,
    };
    SiteConfig { site, network, servers, agents, monitor }
}

impl SiteWizard {
    /// The configuration the answers make, once every question is answered.
    pub fn finish(self) -> (c: Option<SiteConfig>)
        ensures
            self.next is None <==> c is Some,
            c matches Some(cfg) ==> built_from(self.answers, cfg),
            wizard_consistent(self) ==> (c matches Some(cfg) ==> (cfg.site.api_key is Some
                ==> cfg.site.agent_url is Some)),
    {
        if self.next.is_some() {
            return None;
        }
        Some(build_site_config(self.answers))
    }
}

/// The place of a question in the network group of the wizard, which runs
/// from the question whether to add a network to the VLAN names; `None`
/// for a question outside that group.
pub open spec fn network_stage(q: Question) -> Option<nat> {
    match q {
        Question::AddNetwork => Some(0),
        Question::AddSwitch => Some(1),
        Question::SwitchHost => Some(2),
        Question::SwitchLabel => Some(3),
        Question::AddAccessPoints => Some(4),
        Question::AccessPointCount => Some(5),
        Question::AccessPointLabel => Some(6),
        Question::AddVlans => Some(7),
        Question::VlanNames => Some(8),
        _ => None,
    }
}

/// The question the wizard asks after `q` has been answered with each of
/// `answers` in turn; `None` once the questions run out.
pub open spec fn after_answers(q: Question, answers: Seq<Answer>) -> Option<Question>
    decreases answers.len(),
{
    if answers.len() == 0 {
        Some(q)
    } else {
        match next_question_spec(q, answers[0]) {
            Some(n) => after_answers(n, answers.drop_first()),
            None => None,
        }
    }
}

/// Whatever is answered to a question of the network group, the next
/// question is a later one of that group or the question whether to add a
/// server: no answer there skips the server questions.
pub proof fn law_network_group_moves_toward_server(q: Question, a: Answer)
    requires
        network_stage(q) is Some,
    ensures
        next_question_spec(q, a) matches Some(n) && (n == Question::AddServer || (network_stage(
            n,
        ) is Some && network_stage(n)->0 > network_stage(q)->0)),
{
}

/// Every path through the network group reaches the question whether to
/// add a server: from a question at place `s` of the group, whatever the
/// answers, that question comes after at most `9 - s` of them.
pub proof fn law_network_group_reaches_server(q: Question, answers: Seq<Answer>)
    requires
        network_stage(q) is Some,
        answers.len() + network_stage(q)->0 >= 9,
    ensures
        exists|k: int|
            1 <= k <= 9 - network_stage(q)->0 && #[trigger] after_answers(q, answers.take(k))
                == Some(Question::AddServer),
    decreases 9 - network_stage(q)->0,
{
    law_network_group_moves_toward_server(q, answers[0]);
    let n = next_question_spec(q, answers[0])->0;
    let one = answers.take(1);
    assert(one.drop_first() =~= Seq::<Answer>::empty());
    if n == Question::AddServer {
        assert(after_answers(q, one) == after_answers(n, one.drop_first()));
        assert(after_answers(q, answers.take(1)) == Some(Question::AddServer));
    } else {
        let rest = answers.drop_first();
        law_network_group_reaches_server(n, rest);
        let k = choose|k: int|
            1 <= k <= 9 - network_stage(n)->0 && #[trigger] after_answers(n, rest.take(k))
                == Some(Question::AddServer);
        let t = answers.take(k + 1);
        assert(t.drop_first() =~= rest.take(k));
        assert(t[0] == answers[0]);
        assert(after_answers(q, t) == after_answers(n, t.drop_first()));
        assert(after_answers(q, answers.take(k + 1)) == Some(Question::AddServer));
    }
}

/// The place of a question in the order in which the wizard first asks
/// them.
pub open spec fn question_rank(q: Question) -> nat {
    match q {
        Question::SiteIdentifier => 0,
        Question::DisplayName => 1,
        Question::Location => 2,
        Question::AgentUrl => 3,
        Question::ApiKey => 4,
        Question::AddNetwork => 5,
        Question::AddSwitch => 6,
        Question::SwitchHost => 7,
        Question::SwitchLabel => 8,
        Question::AddAccessPoints => 9,
        Question::AccessPointCount => 10,
        Question::AccessPointLabel => 11,
        Question::AddVlans => 12,
        Question::VlanNames => 13,
        Question::AddServer => 14,
        Question::ServerHost => 15,
        Question::ServerLabel => 16,
        Question::ServerRam => 17,
        Question::ServerStorage => 18,
        Question::AddAgents => 19,
        Question::AgentName => 20,
        Question::AgentHealthUrl => 21,
        Question::AnotherAgent => 22,
        Question::UptimeUrl => 23,
    }
}

/// The wizard only moves forward: after each answer it asks a later
/// question, except that a yes to another agent goes back to the agent's
/// name; it ends only after the uptime URL, which is asked on every run.
pub proof fn law_wizard_moves_forward(q: Question, a: Answer)
    ensures
        next_question_spec(q, a) is None <==> q == Question::UptimeUrl,
        q == Question::AnotherAgent && is_yes(a) ==> next_question_spec(q, a) == Some(
            Question::AgentName,
        ),
        !(q == Question::AnotherAgent && is_yes(a)) ==> (next_question_spec(q, a) matches Some(
            n,
        ) ==> question_rank(n) > question_rank(q)),
{
}

/// Each yes-or-no question opens its group on a yes and skips it on any
/// other answer: no network goes to the server question, no switch to the
/// access points, no access points to the VLANs, no VLANs to the server
/// question, no server to the agents, and no agents (or no further agent)
/// to the uptime URL.
pub proof fn law_yes_no_questions(a: Answer)
    ensures
        is_yes(a) ==> next_question_spec(Question::AddNetwork, a) == Some(Question::AddSwitch),
        !is_yes(a) ==> next_question_spec(Question::AddNetwork, a) == Some(Question::AddServer),
        is_yes(a) ==> next_question_spec(Question::AddSwitch, a) == Some(Question::SwitchHost),
        !is_yes(a) ==> next_question_spec(Question::AddSwitch, a) == Some(
            Question::AddAccessPoints,
        ),
        is_yes(a) ==> next_question_spec(Question::AddAccessPoints, a) == Some(
            Question::AccessPointCount,
        ),
        !is_yes(a) ==> next_question_spec(Question::AddAccessPoints, a) == Some(
            Question::AddVlans,
        ),
        is_yes(a) ==> next_question_spec(Question::AddVlans, a) == Some(Question::VlanNames),
        !is_yes(a) ==> next_question_spec(Question::AddVlans, a) == Some(Question::AddServer),
        is_yes(a) ==> next_question_spec(Question::AddServer, a) == Some(Question::ServerHost),
        !is_yes(a) ==> next_question_spec(Question::AddServer, a) == Some(Question::AddAgents),
        is_yes(a) ==> next_question_spec(Question::AddAgents, a) == Some(Question::AgentName),
        !is_yes(a) ==> next_question_spec(Question::AddAgents, a) == Some(Question::UptimeUrl),
        is_yes(a) ==> next_question_spec(Question::AnotherAgent, a) == Some(Question::AgentName),
        !is_yes(a) ==> next_question_spec(Question::AnotherAgent, a) == Some(
            Question::UptimeUrl,
        ),
{
}

} // verus!
