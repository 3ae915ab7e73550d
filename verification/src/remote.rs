//! The report of a site's status daemon, and the status lines drawn from it.
use vstd::prelude::*;
use crate::status::{
    lemma_result_views_push, opt_view, result_views, HealthStatus, StatusResult,
    StatusResultView,
};
use crate::text::{chars_of, decimal, decimal_string, eq_str, owned};

verus! {

/// Seconds that a request to a status daemon may take.
pub const REMOTE_TIMEOUT_SECS: u64 = 5;

/// A status daemon's report on its site.
#[derive(Debug, Clone)]
pub struct RemoteSiteStatus {
    pub site: String,
    pub display_name: String,
    pub location: String,
    pub system: RemoteSystemInfo,
    pub network: Vec<RemoteNetworkStatus>,
    pub agents: Vec<RemoteAgentStatus>,
    pub services: Vec<RemoteServiceStatus>,
    pub crons: Vec<CronStatus>,
}

/// The machine that runs the daemon.
#[derive(Debug, Clone)]
pub struct RemoteSystemInfo {
    pub hostname: String,
    pub uptime_secs: u64,
    pub cpu_count: usize,
    pub ram_total_gb: u64,
    pub ram_used_gb: u64,
    pub disk_total_gb: u64,
    pub disk_used_gb: u64,
}

/// A network host that the daemon checked.
#[derive(Debug, Clone)]
pub struct RemoteNetworkStatus {
    pub label: String,
    pub host: String,
    pub status: String,
    pub latency_ms: Option<u64>,
}

/// An agent that the daemon checked.
#[derive(Debug, Clone)]
pub struct RemoteAgentStatus {
    pub name: String,
    pub health_url: String,
    pub status: String,
}

/// A system service that the daemon checked.
#[derive(Debug, Clone)]
pub struct RemoteServiceStatus {
    pub name: String,
    pub status: String,
}

/// A scheduled job that the daemon checked.
#[derive(Debug, Clone)]
pub struct CronStatus {
    pub name: String,
    pub schedule: String,
    pub last_run: String,
    pub next_run: String,
    pub status: String,
}

/// The key sent to a status daemon: the configured one, unless it is
/// empty.
pub fn api_key_to_send(api_key: &Option<String>) -> (r: Option<String>)
    ensures
        match api_key {
            Some(k) => if k@.len() > 0 {
                r matches Some(v) && v@ == k@
            } else {
                r is None
            },
            None => r is None,
        },
{
    match api_key {
        Some(k) => if k.as_str().unicode_len() > 0 {
            Some(k.clone())
        } else {
            None
        },
        None => None,
    }
}

// ---------------------------------------------------------------------
// UTF-8 lengths
// ---------------------------------------------------------------------
/// The number of bytes of a character in UTF-8.
pub open spec fn utf8_width(c: char) -> nat {
    let u = c as u32;
    if u < 0x80 {
        1
    } else if u < 0x800 {
        2
    } else if u < 0x10000 {
        3
    } else {
        4
    }
}

/// The number of bytes of a string in UTF-8, which `str::len` gives.
pub open spec fn byte_len(s: Seq<char>) -> nat
    decreases s.len(),
{
    if s.len() == 0 {
        0
    } else {
        byte_len(s.drop_last()) + utf8_width(s.last())
    }
}

fn utf8_width_of(c: char) -> (w: usize)
    ensures
        w == utf8_width(c),
{
    let u = c as u32;
    if u < 0x80 {
        1
    } else if u < 0x800 {
        2
    } else if u < 0x10000 {
        3
    } else {
        4
    }
}

proof fn lemma_byte_len_step(s: Seq<char>, i: int)
    requires
        0 <= i < s.len(),
    ensures
        byte_len(s.take(i + 1)) == byte_len(s.take(i)) + utf8_width(s[i]),
{
    assert(s.take(i + 1).drop_last() =~= s.take(i));
}

/// Longer prefixes take strictly more bytes.
proof fn lemma_byte_len_strict(s: Seq<char>, a: int, b: int)
    requires
        0 <= a < b <= s.len(),
    ensures
        byte_len(s.take(a)) < byte_len(s.take(b)),
    decreases b - a,
{
    lemma_byte_len_step(s, b - 1);
    if a < b - 1 {
        lemma_byte_len_strict(s, a, b - 1);
    }
}

/// Whether `s` has a character boundary `bytes` bytes in.
pub open spec fn has_boundary_at(s: Seq<char>, bytes: nat) -> bool {
    exists|k: int| 0 <= k <= s.len() && byte_len(#[trigger] s.take(k)) == bytes
}

/// The characters of `s` that fill its first `bytes` bytes.
pub open spec fn prefix_of_bytes(s: Seq<char>, bytes: nat) -> Seq<char> {
    s.take(choose|k: int| 0 <= k <= s.len() && byte_len(#[trigger] s.take(k)) == bytes)
}

/// The label of a scheduled job: names longer than 38 bytes are cut to
/// their first 35 bytes and marked with `...`.
pub open spec fn cron_label_spec(name: Seq<char>) -> Seq<char> {
    if byte_len(name) > 38 {
        prefix_of_bytes(name, 35) + "..."@
    } else {
        name
    }
}

/// Whether a job's name can be cut as its label needs: where it is longer
/// than 38 bytes, its 35th byte ends a character.
pub open spec fn cron_name_cuttable(name: Seq<char>) -> bool {
    byte_len(name) > 38 ==> has_boundary_at(name, 35)
}

/// The label of a scheduled job.
pub fn cron_label(name: &String) -> (r: String)
    requires
        cron_name_cuttable(name@),
    ensures
        r@ == cron_label_spec(name@),
{
    let cs = chars_of(name.as_str());
    let n = cs.len();
    let mut i: usize = 0;
    let mut bytes: usize = 0;
    while i < n && bytes <= 38
        invariant
            i <= n,
            n == name@.len(),
            cs@ == name@,
            bytes == byte_len(name@.take(i as int)),
            bytes <= 42,
        decreases n - i,
    {
        proof {
            lemma_byte_len_step(name@, i as int);
        }
        bytes = bytes + utf8_width_of(cs[i]);
        i = i + 1;
    }
    if bytes <= 38 {
        assert(name@.take(n as int) =~= name@);
        return name.clone();
    }
    proof {
        if i < n {
            lemma_byte_len_strict(name@, i as int, n as int);
        }
        assert(name@.take(n as int) =~= name@);
    }
    let ghost w = choose|k: int| 0 <= k <= name@.len() && byte_len(#[trigger] name@.take(k)) == 35;
    let mut j: usize = 0;
    let mut acc: usize = 0;
    while acc < 35
        invariant
            0 <= w <= name@.len(),
            byte_len(name@.take(w)) == 35,
            j <= w,
            n == name@.len(),
            cs@ == name@,
            acc == byte_len(name@.take(j as int)),
        decreases w - j,
    {
        proof {
            if j == w {
                assert(false);
            }
            lemma_byte_len_step(name@, j as int);
            if j + 1 > w {
                assert(false);
            } else if j + 1 < w {
                lemma_byte_len_strict(name@, j + 1, w);
            }
        }
        acc = acc + utf8_width_of(cs[j]);
        j = j + 1;
    }
    proof {
        if j < w {
            lemma_byte_len_strict(name@, j as int, w);
        }
    }
    assert(j == w);
    let mut r = owned(name.as_str().substring_char(0, j));
    r.append("...");
    r
}

// ---------------------------------------------------------------------
// Status lines
// ---------------------------------------------------------------------
/// The status line of the daemon's machine, with its RAM and disk use in
/// percent.
pub open spec fn system_view(sys: RemoteSystemInfo, ram_pct: u32, disk_pct: u32) -> StatusResultView {
    StatusResultView {
        category: "server"@,
        label: sys.hostname@ + " ("@ + decimal(sys.cpu_count as nat) + "c, "@ + decimal(
            sys.ram_total_gb as nat,
        ) + "GB RAM)"@,
        status: HealthStatus::Online,
        details: Some(
            "RAM "@ + decimal(ram_pct as nat) + "%, Disk "@ + decimal(disk_pct as nat)
                + "%, Up "@ + decimal((sys.uptime_secs / 86400) as nat) + "d"@,
        ),
    }
}

/// The status line of a checked network host: `online` is online, any
/// other state offline.
pub open spec fn remote_network_view(n: RemoteNetworkStatus) -> StatusResultView {
    StatusResultView {
        category: "network"@,
        label: n.label@,
        status: if n.status@ == "online"@ {
            HealthStatus::Online
        } else {
            HealthStatus::Offline
        },
        details: match n.latency_ms {
            Some(ms) => Some(decimal(ms as nat) + "ms"@),
            None => None,
        },
    }
}

/// The status line of a checked agent: `running` is online, any other
/// state offline.
pub open spec fn remote_agent_view(a: RemoteAgentStatus) -> StatusResultView {
    StatusResultView {
        category: "agents"@,
        label: a.name@,
        status: if a.status@ == "running"@ {
            HealthStatus::Online
        } else {
            HealthStatus::Offline
        },
        details: None,
    }
}

/// The status line of a checked service: `active` is online, any other
/// state offline.
pub open spec fn service_view(s: RemoteServiceStatus) -> StatusResultView {
    StatusResultView {
        category: "services"@,
        label: s.name@,
        status: if s.status@ == "active"@ {
            HealthStatus::Online
        } else {
            HealthStatus::Offline
        },
        details: None,
    }
}

/// The status line of a checked job: `ok` is online, `error` offline, any
/// other state unknown.
pub open spec fn cron_view(c: CronStatus) -> StatusResultView {
    StatusResultView {
        category: "crons"@,
        label: cron_label_spec(c.name@),
        status: if c.status@ == "ok"@ {
            HealthStatus::Online
        } else if c.status@ == "error"@ {
            HealthStatus::Offline
        } else {
            HealthStatus::Unknown
        },
        details: Some("last: "@ + c.last_run@ + " | next: "@ + c.next_run@),
    }
}

/// The status lines of a daemon's report: its machine, then its network
/// hosts, agents, services and jobs, each in the order of the report.
pub open spec fn convert_spec(remote: RemoteSiteStatus, ram_pct: u32, disk_pct: u32) -> Seq<
    StatusResultView,
> {
    seq![system_view(remote.system, ram_pct, disk_pct)] + Seq::new(
        remote.network@.len(),
        |i: int| remote_network_view(remote.network@[i]),
    ) + Seq::new(remote.agents@.len(), |i: int| remote_agent_view(remote.agents@[i]))
        + Seq::new(remote.services@.len(), |i: int| service_view(remote.services@[i]))
        + Seq::new(remote.crons@.len(), |i: int| cron_view(remote.crons@[i]))
}

/// Whether every job of a report has a name that its label can be cut from.
pub open spec fn crons_cuttable(crons: Seq<CronStatus>) -> bool {
    forall|i: int| 0 <= i < crons.len() ==> cron_name_cuttable(#[trigger] crons[i].name@)
}

fn system_result(sys: &RemoteSystemInfo, ram_pct: u32, disk_pct: u32) -> (r: StatusResult)
    ensures
        r@ == system_view(*sys, ram_pct, disk_pct),
{
    let mut label = sys.hostname.clone();
    label.append(" (");
    label.append(decimal_string(sys.cpu_count as u64).as_str());
    label.append("c, ");
    label.append(decimal_string(sys.ram_total_gb).as_str());
    label.append("GB RAM)");
    let mut details = owned("RAM ");
    details.append(decimal_string(ram_pct as u64).as_str());
    details.append("%, Disk ");
    details.append(decimal_string(disk_pct as u64).as_str());
    details.append("%, Up ");
    details.append(decimal_string(sys.uptime_secs / 86400).as_str());
    details.append("d");
    StatusResult {
        category: owned("server"),
        label,
        status: HealthStatus::Online,
        details: Some(details),
    }
}

fn network_result(n: &RemoteNetworkStatus) -> (r: StatusResult)
    ensures
        r@ == remote_network_view(*n),
{
    let status = if eq_str(&n.status, "online") {
        HealthStatus::Online
    } else {
        HealthStatus::Offline
    };
    let details = match n.latency_ms {
        Some(ms) => {
            let mut d = decimal_string(ms);
            d.append("ms");
            Some(d)
        },
        None => None,
    };
    StatusResult { category: owned("network"), label: n.label.clone(), status, details }
}

fn agent_result(a: &RemoteAgentStatus) -> (r: StatusResult)
    ensures
        r@ == remote_agent_view(*a),
{
    let status = if eq_str(&a.status, "running") {
        HealthStatus::Online
    } else {
        HealthStatus::Offline
    };
    StatusResult { category: owned("agents"), label: a.name.clone(), status, details: None }
}

fn service_result(s: &RemoteServiceStatus) -> (r: StatusResult)
    ensures
        r@ == service_view(*s),
{
    let status = if eq_str(&s.status, "active") {
        HealthStatus::Online
    } else {
        HealthStatus::Offline
    };
    StatusResult { category: owned("services"), label: s.name.clone(), status, details: None }
}

fn cron_result(c: &CronStatus) -> (r: StatusResult)
    requires
        cron_name_cuttable(c.name@),
    ensures
        r@ == cron_view(*c),
{
    let status = if eq_str(&c.status, "ok") {
        HealthStatus::Online
    } else if eq_str(&c.status, "error") {
        HealthStatus::Offline
    } else {
        HealthStatus::Unknown
    };
    let mut details = owned("last: ");
    details.append(c.last_run.as_str());
    details.append(" | next: ");
    details.append(c.next_run.as_str());
    StatusResult {
        category: owned("crons"),
        label: cron_label(&c.name),
        status,
        details: Some(details),
    }
}

/// The status lines of a daemon's report, given the RAM and disk use of
/// its machine in percent.
pub fn convert_to_status_results(remote: &RemoteSiteStatus, ram_pct: u32, disk_pct: u32) -> (r:
    Vec<StatusResult>)
    requires
        crons_cuttable(remote.crons@),
    ensures
        result_views(r@) == convert_spec(*remote, ram_pct, disk_pct),
{
    let mut results: Vec<StatusResult> = Vec::new();
    let first = system_result(&remote.system, ram_pct, disk_pct);
    results.push(first);
    let ghost part0 = seq![system_view(remote.system, ram_pct, disk_pct)];
    assert(result_views(results@) =~= part0);

    let n = remote.network.len();
    let mut i: usize = 0;
    while i < n
        invariant
            i <= n,
            n == remote.network@.len(),
            result_views(results@) =~= part0 + Seq::new(
                i as nat,
                |k: int| remote_network_view(remote.network@[k]),
            ),
        decreases n - i,
    {
        let item = network_result(&remote.network[i]);
        let ghost prev = results@;
        results.push(item);
        proof {
            lemma_result_views_push(prev, item);
        }
        i = i + 1;
    }
    let ghost part1 = result_views(results@);

    let n = remote.agents.len();
    let mut i: usize = 0;
    while i < n
        invariant
            i <= n,
            n == remote.agents@.len(),
            result_views(results@) =~= part1 + Seq::new(
                i as nat,
                |k: int| remote_agent_view(remote.agents@[k]),
            ),
        decreases n - i,
    {
        let item = agent_result(&remote.agents[i]);
        let ghost prev = results@;
        results.push(item);
        proof {
            lemma_result_views_push(prev, item);
        }
        i = i + 1;
    }
    let ghost part2 = result_views(results@);

    let n = remote.services.len();
    let mut i: usize = 0;
    while i < n
        invariant
            i <= n,
            n == remote.services@.len(),
            result_views(results@) =~= part2 + Seq::new(
                i as nat,
                |k: int| service_view(remote.services@[k]),
            ),
        decreases n - i,
    {
        let item = service_result(&remote.services[i]);
        let ghost prev = results@;
        results.push(item);
        proof {
            lemma_result_views_push(prev, item);
        }
        i = i + 1;
    }
    let ghost part3 = result_views(results@);

    let n = remote.crons.len();
    let mut i: usize = 0;
    while i < n
        invariant
            i <= n,
            n == remote.crons@.len(),
            crons_cuttable(remote.crons@),
            result_views(results@) =~= part3 + Seq::new(
                i as nat,
                |k: int| cron_view(remote.crons@[k]),
            ),
        decreases n - i,
    {
        assert(cron_name_cuttable(remote.crons@[i as int].name@));
        let item = cron_result(&remote.crons[i]);
        let ghost prev = results@;
        results.push(item);
        proof {
            lemma_result_views_push(prev, item);
        }
        i = i + 1;
    }
    assert(result_views(results@) =~= convert_spec(*remote, ram_pct, disk_pct));
    results
}

/// A job's label never takes more than 38 bytes.
pub proof fn lemma_cron_label_bounded(name: Seq<char>)
    requires
        cron_name_cuttable(name),
    ensures
        byte_len(cron_label_spec(name)) <= 38,
{
    if byte_len(name) > 38 {
        let p = prefix_of_bytes(name, 35);
        lemma_byte_len_concat(p, "..."@);
        reveal_strlit("...");
        let d1 = seq!['.'];
        let d2 = seq!['.', '.'];
        let d3 = seq!['.', '.', '.'];
        assert('.' as u32 == 46);
        assert(d1.drop_last() =~= Seq::<char>::empty());
        assert(byte_len(Seq::<char>::empty()) == 0);
        assert(utf8_width('.') == 1);
        assert(d1.last() == '.');
        assert(byte_len(d1) == 1);
        assert(d2.drop_last() =~= d1);
        assert(d2.last() == '.');
        assert(byte_len(d2) == 2);
        assert(d3.drop_last() =~= d2);
        assert(d3.last() == '.');
        assert(byte_len(d3) == 3);
        assert("..."@ =~= d3);
    }
}

/// Bytes of a concatenation add up.
pub proof fn lemma_byte_len_concat(a: Seq<char>, b: Seq<char>)
    ensures
        byte_len(a + b) == byte_len(a) + byte_len(b),
    decreases b.len(),
{
    if b.len() > 0 {
        lemma_byte_len_concat(a, b.drop_last());
        assert((a + b).drop_last() =~= a + b.drop_last());
    } else {
        assert(a + b =~= a);
    }
}

/// A service's line says the service is online exactly when the daemon
/// reported it `active`; any other reported state (`inactive`, `failed`,
/// anything else) makes the line say offline. The line stands after the
/// machine, network and agent lines, under the category `services` and
/// with the service's name as its label.
pub proof fn law_service_online_iff_active(
    remote: RemoteSiteStatus,
    ram_pct: u32,
    disk_pct: u32,
    i: int,
)
    requires
        0 <= i < remote.services@.len(),
    ensures
        ({
            let line = convert_spec(remote, ram_pct, disk_pct)[1 + remote.network@.len()
                + remote.agents@.len() + i];
            &&& line.category == "services"@
            &&& line.label == remote.services@[i].name@
            &&& (line.status == HealthStatus::Online <==> remote.services@[i].status@ == "active"@)
            &&& (remote.services@[i].status@ != "active"@ ==> line.status == HealthStatus::Offline)
        }),
{
    let lines = convert_spec(remote, ram_pct, disk_pct);
    let n = remote.network@.len();
    let g = remote.agents@.len();
    let head = seq![system_view(remote.system, ram_pct, disk_pct)] + Seq::new(
        n,
        |k: int| remote_network_view(remote.network@[k]),
    ) + Seq::new(g, |k: int| remote_agent_view(remote.agents@[k]));
    let services = Seq::new(
        remote.services@.len(),
        |k: int| service_view(remote.services@[k]),
    );
    let crons = Seq::new(remote.crons@.len(), |k: int| cron_view(remote.crons@[k]));
    assert(lines =~= head + services + crons);
    assert(head.len() == 1 + n + g);
    assert(lines[1 + n + g + i] == services[i]);
}

/// The lines of a daemon's report: one for the machine, which comes first
/// and is always online, then one per network host, agent, service and
/// job.
pub proof fn law_report_line_count(remote: RemoteSiteStatus, ram_pct: u32, disk_pct: u32)
    ensures
        convert_spec(remote, ram_pct, disk_pct).len() == 1 + remote.network@.len()
            + remote.agents@.len() + remote.services@.len() + remote.crons@.len(),
        convert_spec(remote, ram_pct, disk_pct)[0].category == "server"@,
        convert_spec(remote, ram_pct, disk_pct)[0].status == HealthStatus::Online,
{
    let lines = convert_spec(remote, ram_pct, disk_pct);
    let rest = Seq::new(remote.network@.len(), |k: int| remote_network_view(remote.network@[k]))
        + Seq::new(remote.agents@.len(), |k: int| remote_agent_view(remote.agents@[k])) + Seq::new(
        remote.services@.len(),
        |k: int| service_view(remote.services@[k]),
    ) + Seq::new(remote.crons@.len(), |k: int| cron_view(remote.crons@[k]));
    assert(lines =~= seq![system_view(remote.system, ram_pct, disk_pct)] + rest);
    assert(lines[0] == system_view(remote.system, ram_pct, disk_pct));
}

/// A network host's line says the host is online exactly when the daemon
/// reported it `online`, and offline for any other reported state.
pub proof fn law_network_host_online_iff_reported(
    remote: RemoteSiteStatus,
    ram_pct: u32,
    disk_pct: u32,
    i: int,
)
    requires
        0 <= i < remote.network@.len(),
    ensures
        ({
            let line = convert_spec(remote, ram_pct, disk_pct)[1 + i];
            &&& line.category == "network"@
            &&& line.label == remote.network@[i].label@
            &&& (line.status == HealthStatus::Online <==> remote.network@[i].status@ == "online"@)
            &&& (remote.network@[i].status@ != "online"@ ==> line.status == HealthStatus::Offline)
        }),
{
    let lines = convert_spec(remote, ram_pct, disk_pct);
    let hosts = Seq::new(remote.network@.len(), |k: int| remote_network_view(remote.network@[k]));
    let rest = Seq::new(remote.agents@.len(), |k: int| remote_agent_view(remote.agents@[k]))
        + Seq::new(remote.services@.len(), |k: int| service_view(remote.services@[k])) + Seq::new(
        remote.crons@.len(),
        |k: int| cron_view(remote.crons@[k]),
    );
    assert(lines =~= seq![system_view(remote.system, ram_pct, disk_pct)] + hosts + rest);
    assert(lines[1 + i] == hosts[i]);
}

/// An agent's line says the agent is online exactly when the daemon
/// reported it `running`, and offline for any other reported state.
pub proof fn law_agent_online_iff_running(
    remote: RemoteSiteStatus,
    ram_pct: u32,
    disk_pct: u32,
    i: int,
)
    requires
        0 <= i < remote.agents@.len(),
    ensures
        ({
            let line = convert_spec(remote, ram_pct, disk_pct)[1 + remote.network@.len() + i];
            &&& line.category == "agents"@
            &&& line.label == remote.agents@[i].name@
            &&& (line.status == HealthStatus::Online <==> remote.agents@[i].status@ == "running"@)
            &&& (remote.agents@[i].status@ != "running"@ ==> line.status == HealthStatus::Offline)
        }),
{
    let lines = convert_spec(remote, ram_pct, disk_pct);
    let n = remote.network@.len();
    let head = seq![system_view(remote.system, ram_pct, disk_pct)] + Seq::new(
        n,
        |k: int| remote_network_view(remote.network@[k]),
    );
    let agents = Seq::new(remote.agents@.len(), |k: int| remote_agent_view(remote.agents@[k]));
    let rest = Seq::new(remote.services@.len(), |k: int| service_view(remote.services@[k]))
        + Seq::new(remote.crons@.len(), |k: int| cron_view(remote.crons@[k]));
    assert(lines =~= head + agents + rest);
    assert(head.len() == 1 + n);
    assert(lines[1 + n + i] == agents[i]);
}

/// A job's line, the last group of the report, is online when the daemon
/// reported the job `ok`, offline when it reported `error`, and unknown
/// for any other state; its details give the last and the next run.
pub proof fn law_cron_line_follows_reported_state(
    remote: RemoteSiteStatus,
    ram_pct: u32,
    disk_pct: u32,
    i: int,
)
    requires
        0 <= i < remote.crons@.len(),
    ensures
        ({
            let c = remote.crons@[i];
            let line = convert_spec(remote, ram_pct, disk_pct)[1 + remote.network@.len()
                + remote.agents@.len() + remote.services@.len() + i];
            &&& line.category == "crons"@
            &&& (line.status == HealthStatus::Online <==> c.status@ == "ok"@)
            &&& (line.status == HealthStatus::Offline <==> c.status@ == "error"@)
            &&& (c.status@ != "ok"@ && c.status@ != "error"@ ==> line.status
                == HealthStatus::Unknown)
            &&& line.details == Some("last: "@ + c.last_run@ + " | next: "@ + c.next_run@)
        }),
{
    let lines = convert_spec(remote, ram_pct, disk_pct);
    let head = seq![system_view(remote.system, ram_pct, disk_pct)] + Seq::new(
        remote.network@.len(),
        |k: int| remote_network_view(remote.network@[k]),
    ) + Seq::new(remote.agents@.len(), |k: int| remote_agent_view(remote.agents@[k])) + Seq::new(
        remote.services@.len(),
        |k: int| service_view(remote.services@[k]),
    );
    let crons = Seq::new(remote.crons@.len(), |k: int| cron_view(remote.crons@[k]));
    assert(lines =~= head + crons);
    assert(head.len() == 1 + remote.network@.len() + remote.agents@.len()
        + remote.services@.len());
    assert(lines[head.len() + i] == crons[i]);
    reveal_strlit("ok");
    reveal_strlit("error");
    assert("ok"@[0] != "error"@[0]);
}

} // verus!
