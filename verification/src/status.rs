//! Health states, status lines, and the verdicts drawn from probe outcomes.
use vstd::prelude::*;

verus! {

/// Seconds that each health check may take.
pub const CHECK_TIMEOUT_SECS: u64 = 3;

/// The health of one component of a site.
#[derive(Debug, Clone, Copy, PartialEq, Eq, Structural)]
pub enum HealthStatus {
    Online,
    Offline,
    Degraded,
    Unknown,
}

/// One line of a site's status report.
#[derive(Debug, Clone)]
pub struct StatusResult {
    pub category: String,
    pub label: String,
    pub status: HealthStatus,
    pub details: Option<String>,
}

/// The mathematical value of a status line.
pub struct StatusResultView {
    pub category: Seq<char>,
    pub label: Seq<char>,
    pub status: HealthStatus,
    pub details: Option<Seq<char>>,
}

/// The view of an optional string.
pub open spec fn opt_view(o: Option<String>) -> Option<Seq<char>> {
    match o {
        Some(s) => Some(s@),
        None => None,
    }
}

impl View for StatusResult {
    type V = StatusResultView;

    open spec fn view(&self) -> StatusResultView {
        StatusResultView {
            category: self.category@,
            label: self.label@,
            status: self.status,
            details: opt_view(self.details),
        }
    }
}

/// The views of a sequence of status lines.
pub open spec fn result_views(v: Seq<StatusResult>) -> Seq<StatusResultView> {
    v.map_values(|r: StatusResult| r@)
}

/// Appending a line appends its view.
pub proof fn lemma_result_views_push(s: Seq<StatusResult>, x: StatusResult)
    ensures
        result_views(s.push(x)) == result_views(s).push(x@),
{
    assert(result_views(s.push(x)) =~= result_views(s).push(x@));
}

/// The owned copy of an optional string, with the same view.
pub fn clone_opt(o: &Option<String>) -> (r: Option<String>)
    ensures
        opt_view(r) == opt_view(*o),
{
    match o {
        Some(s) => Some(s.clone()),
        None => None,
    }
}

/// How an HTTP health probe ended.
#[derive(Debug, Clone, Copy, PartialEq, Eq, Structural)]
pub enum HttpOutcome {
    /// No HTTP client could be built.
    ClientUnavailable,
    /// The server answered with this status code.
    Response { code: u16 },
    /// The request failed (connection, timeout, protocol).
    RequestFailed,
}

/// Whether an HTTP status code is in the success class (200 to 299).
pub open spec fn is_success_code(code: u16) -> bool {
    200 <= code && code <= 299
}

/// Whether an HTTP status code is in the success class.
pub fn is_success_status(code: u16) -> (b: bool)
    ensures
        b == is_success_code(code),
{
    200 <= code && code <= 299
}

/// The health that an HTTP probe shows.
pub open spec fn http_health_spec(outcome: HttpOutcome) -> HealthStatus {
    match outcome {
        HttpOutcome::ClientUnavailable => HealthStatus::Unknown,
        HttpOutcome::Response { code } => if is_success_code(code) {
            HealthStatus::Online
        } else {
            HealthStatus::Degraded
        },
        HttpOutcome::RequestFailed => HealthStatus::Offline,
    }
}

/// The health that an HTTP probe shows: a success code means online, any
/// other answer degraded, no answer offline, no client unknown.
pub fn http_health_status(outcome: HttpOutcome) -> (s: HealthStatus)
    ensures
        s == http_health_spec(outcome),
{
    match outcome {
        HttpOutcome::ClientUnavailable => HealthStatus::Unknown,
        HttpOutcome::Response { code } => if is_success_status(code) {
            HealthStatus::Online
        } else {
            HealthStatus::Degraded
        },
        HttpOutcome::RequestFailed => HealthStatus::Offline,
    }
}

/// Which probe checks a device.
#[derive(Debug, Clone)]
pub enum Probe {
    /// HTTP GET of a health endpoint.
    Http(String),
    /// TCP connection to the host.
    Host(String),
}

/// The probe for a device: its health endpoint where it has one, else its
/// host.
pub fn health_probe(health_url: &Option<String>, host: &String) -> (p: Probe)
    ensures
        match health_url {
            Some(u) => p matches Probe::Http(v) && v@ == u@,
            None => p matches Probe::Host(h) && h@ == host@,
        },
{
    match health_url {
        Some(u) => Probe::Http(u.clone()),
        None => Probe::Host(host.clone()),
    }
}

/// Ports that a device without a health endpoint is tried on over TCP,
/// in order.
pub fn tcp_probe_ports() -> (v: Vec<u16>)
    ensures
        v@ == seq![443u16, 80u16, 22u16, 8080u16],
{
    vec![443, 80, 22, 8080]
}

/// Ports that `ping` falls back to when ICMP gets no answer, in order.
pub fn ping_fallback_ports() -> (v: Vec<u16>)
    ensures
        v@ == seq![443u16, 80u16, 22u16],
{
    vec![443, 80, 22]
}

/// The health of a network device without a health endpoint: reachable
/// over TCP, or else answering an ICMP ping, is online; a host that only
/// resolves is degraded; any other is offline.
pub fn network_connectivity_status(connected: bool, pinged: bool, resolvable: bool) -> (s:
    HealthStatus)
    ensures
        s == (if connected || pinged {
            HealthStatus::Online
        } else if resolvable {
            HealthStatus::Degraded
        } else {
            HealthStatus::Offline
        }),
{
    if connected || pinged {
        HealthStatus::Online
    } else if resolvable {
        HealthStatus::Degraded
    } else {
        HealthStatus::Offline
    }
}

/// The health of a server without a health endpoint: reachable over TCP,
/// or else answering an ICMP ping, is online; any other is offline.
pub fn server_connectivity_status(connected: bool, pinged: bool) -> (s: HealthStatus)
    ensures
        s == (if connected || pinged {
            HealthStatus::Online
        } else {
            HealthStatus::Offline
        }),
{
    if connected || pinged {
        HealthStatus::Online
    } else {
        HealthStatus::Offline
    }
}

/// The lines of a group of checks that may be missing.
pub open spec fn group_view(g: Option<Vec<StatusResult>>) -> Seq<StatusResultView> {
    match g {
        Some(v) => result_views(v@),
        None => Seq::empty(),
    }
}

fn append_group(all: &mut Vec<StatusResult>, group: &Option<Vec<StatusResult>>)
    ensures
        result_views(final(all)@) == result_views(old(all)@) + group_view(*group),
{
    if let Some(g) = group {
        let ghost before = all@;
        let m = g.len();
        let mut j: usize = 0;
        while j < m
            invariant
                j <= m,
                m == g@.len(),
                result_views(all@) =~= result_views(before) + result_views(g@.take(j as int)),
            decreases m - j,
        {
            let ghost prev = all@;
            let item = g[j].clone_result();
            all.push(item);
            proof {
                lemma_result_views_push(prev, item);
            }
            assert(result_views(g@.take(j + 1)) =~= result_views(g@.take(j as int)).push(
                g@[j as int]@,
            ));
            j = j + 1;
        }
        assert(g@.take(m as int) =~= g@);
    } else {
        assert(result_views(all@) =~= result_views(all@) + group_view(*group));
    }
}

/// Gathers the lines of a site's checks: the network's, then the servers',
/// then the agents', then the uptime line, leaving out each group that is
/// not configured or whose checks did not finish.
pub fn gather_all_status(
    network: Option<Vec<StatusResult>>,
    servers: Option<Vec<StatusResult>>,
    agents: Option<Vec<StatusResult>>,
    monitor: Option<StatusResult>,
) -> (r: Vec<StatusResult>)
    ensures
        result_views(r@) == group_view(network) + group_view(servers) + group_view(agents) + (
        match monitor {
            Some(m) => seq![m@],
            None => Seq::empty(),
        }),
{
    let mut all: Vec<StatusResult> = Vec::new();
    append_group(&mut all, &network);
    append_group(&mut all, &servers);
    append_group(&mut all, &agents);
    if let Some(m) = monitor {
        let ghost prev = all@;
        all.push(m);
        proof {
            lemma_result_views_push(prev, m);
        }
    }
    assert(result_views(all@) =~= group_view(network) + group_view(servers) + group_view(agents)
        + (match monitor {
        Some(m) => seq![m@],
        None => Seq::empty(),
    }));
    all
}

impl StatusResult {
    /// A copy with the same view.
    pub fn clone_result(&self) -> (r: StatusResult)
        ensures
            r@ == self@,
    {
        StatusResult {
            category: self.category.clone(),
            label: self.label.clone(),
            status: self.status,
            details: clone_opt(&self.details),
        }
    }
}

} // verus!
