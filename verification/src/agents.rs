//! Status of the AI agents of a site, in summary and in detail.
use vstd::prelude::*;
use crate::config::AgentConfig;
use crate::status::{
    clone_opt, http_health_spec, is_success_code, HttpOutcome, is_success_status, lemma_result_views_push, opt_view,
    result_views, HealthStatus, StatusResult, StatusResultView,
};
use crate::text::owned;

verus! {

/// What an agent's health endpoint reports about it.
#[derive(Debug, Clone)]
pub struct AgentHealthResponse {
    pub status: Option<String>,
    pub last_run: Option<String>,
    pub error_count: Option<u32>,
    pub uptime: Option<String>,
}

/// The detailed status of one agent.
#[derive(Debug, Clone)]
pub struct AgentDetailedStatus {
    pub name: String,
    pub status: HealthStatus,
    pub last_run: Option<String>,
    pub error_count: Option<u32>,
    pub health_url: String,
}

/// The mathematical value of an agent's detailed status.
pub struct AgentDetailedView {
    pub name: Seq<char>,
    pub status: HealthStatus,
    pub last_run: Option<Seq<char>>,
    pub error_count: Option<u32>,
    pub health_url: Seq<char>,
}

impl View for AgentDetailedStatus {
    type V = AgentDetailedView;

    open spec fn view(&self) -> AgentDetailedView {
        AgentDetailedView {
            name: self.name@,
            status: self.status,
            last_run: opt_view(self.last_run),
            error_count: self.error_count,
            health_url: self.health_url@,
        }
    }
}

/// The views of a sequence of detailed statuses.
pub open spec fn detailed_views(v: Seq<AgentDetailedStatus>) -> Seq<AgentDetailedView> {
    v.map_values(|d: AgentDetailedStatus| d@)
}

/// The status line of an agent whose health endpoint showed `status`.
pub open spec fn agent_view(agent: AgentConfig, status: HealthStatus) -> StatusResultView {
    StatusResultView { category: "agents"@, label: agent.name@, status, details: None }
}

/// Reports an agent whose health endpoint showed `status`.
pub fn check_agent(agent: &AgentConfig, status: HealthStatus) -> (r: StatusResult)
    ensures
        r@ == agent_view(*agent, status),
{
    StatusResult { category: owned("agents"), label: agent.name.clone(), status, details: None }
}

/// Reports each agent with the status its endpoint showed, in order.
pub fn check_agents(agents: &Vec<AgentConfig>, statuses: &Vec<HealthStatus>) -> (r: Vec<
    StatusResult,
>)
    requires
        statuses@.len() == agents@.len(),
    ensures
        result_views(r@) == Seq::new(
            agents@.len(),
            |i: int| agent_view(agents@[i], statuses@[i]),
        ),
{
    let mut results: Vec<StatusResult> = Vec::new();
    let n = agents.len();
    let mut i: usize = 0;
    while i < n
        invariant
            i <= n,
            n == agents@.len(),
            statuses@.len() == n,
            result_views(results@) =~= Seq::new(
                i as nat,
                |k: int| agent_view(agents@[k], statuses@[k]),
            ),
        decreases n - i,
    {
        let item = check_agent(&agents[i], statuses[i]);
        let ghost prev = results@;
        results.push(item);
        proof {
            lemma_result_views_push(prev, item);
        }
        i = i + 1;
    }
    results
}

/// How the detailed probe of an agent's health endpoint ended.
#[derive(Debug, Clone)]
pub enum AgentHealthOutcome {
    /// No HTTP client could be built.
    ClientUnavailable,
    /// The endpoint answered with this status code and, where its body
    /// read as a health report, that report.
    Response { code: u16, health: Option<AgentHealthResponse> },
    /// The request failed.
    RequestFailed,
}

/// The detailed status of an agent after its probe: a success answer
/// makes it running, with the last run and error count of its report; any
/// other answer makes it degraded, no answer offline, no client unknown.
pub open spec fn agent_detailed_spec(agent: AgentConfig, outcome: AgentHealthOutcome) -> AgentDetailedView {
    let (status, last_run, error_count) = match outcome {
        AgentHealthOutcome::ClientUnavailable => (HealthStatus::Unknown, None, None),
        AgentHealthOutcome::Response { code, health } => if is_success_code(code) {
            match health {
                Some(h) => (HealthStatus::Online, opt_view(h.last_run), h.error_count),
                None => (HealthStatus::Online, None, None),
            }
        } else {
            (HealthStatus::Degraded, None, None)
        },
        AgentHealthOutcome::RequestFailed => (HealthStatus::Offline, None, None),
    };
    AgentDetailedView {
        name: agent.name@,
        status,
        last_run,
        error_count,
        health_url: agent.health_url@,
    }
}

/// The detailed status of an agent after its probe.
pub fn check_agent_detailed(agent: &AgentConfig, outcome: &AgentHealthOutcome) -> (r:
    AgentDetailedStatus)
    ensures
        r@ == agent_detailed_spec(*agent, *outcome),
{
    let (status, last_run, error_count) = match outcome {
        AgentHealthOutcome::ClientUnavailable => (HealthStatus::Unknown, None, None),
        AgentHealthOutcome::Response { code, health } => if is_success_status(*code) {
            match health {
                Some(h) => (HealthStatus::Online, clone_opt(&h.last_run), h.error_count),
                None => (HealthStatus::Online, None, None),
            }
        } else {
            (HealthStatus::Degraded, None, None)
        },
        AgentHealthOutcome::RequestFailed => (HealthStatus::Offline, None, None),
    };
    AgentDetailedStatus {
        name: agent.name.clone(),
        status,
        last_run,
        error_count,
        health_url: agent.health_url.clone(),
    }
}

/// The detailed status of each agent after its probe, in order.
pub fn check_agents_detailed(agents: &Vec<AgentConfig>, outcomes: &Vec<AgentHealthOutcome>) -> (r:
    Vec<AgentDetailedStatus>)
    requires
        outcomes@.len() == agents@.len(),
    ensures
        detailed_views(r@) == Seq::new(
            agents@.len(),
            |i: int| agent_detailed_spec(agents@[i], outcomes@[i]),
        ),
{
    let mut results: Vec<AgentDetailedStatus> = Vec::new();
    let n = agents.len();
    let mut i: usize = 0;
    while i < n
        invariant
            i <= n,
            n == agents@.len(),
            outcomes@.len() == n,
            detailed_views(results@) =~= Seq::new(
                i as nat,
                |k: int| agent_detailed_spec(agents@[k], outcomes@[k]),
            ),
        decreases n - i,
    {
        let item = check_agent_detailed(&agents[i], &outcomes[i]);
        let ghost prev = results@;
        results.push(item);
        assert(detailed_views(results@) =~= detailed_views(prev).push(item@));
        i = i + 1;
    }
    results
}

/// The plain HTTP outcome within a detailed probe of an agent.
pub open spec fn http_outcome_of(o: AgentHealthOutcome) -> HttpOutcome {
    match o {
        AgentHealthOutcome::ClientUnavailable => HttpOutcome::ClientUnavailable,
        AgentHealthOutcome::Response { code, .. } => HttpOutcome::Response { code },
        AgentHealthOutcome::RequestFailed => HttpOutcome::RequestFailed,
    }
}

/// For the same answer of its endpoint, an agent has the same health in
/// the summary and in the detailed view, whatever report its body held.
pub proof fn lemma_summary_agrees_with_detail(agent: AgentConfig, outcome: AgentHealthOutcome)
    ensures
        agent_view(agent, http_health_spec(http_outcome_of(outcome))).status
            == agent_detailed_spec(agent, outcome).status,
{
}

} // verus!
