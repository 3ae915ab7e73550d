//! Status lines for the servers of a site.
use vstd::prelude::*;
use crate::config::ServerConfig;
use crate::status::{lemma_result_views_push, result_views, HealthStatus, StatusResult, StatusResultView};
use crate::text::{decimal, decimal_string, join, join_seq, owned, views};

verus! {

/// The specs shown beside a server's label: its RAM, then its storage,
/// each where the configuration gives it.
pub open spec fn server_specs(s: ServerConfig) -> Seq<Seq<char>> {
    (match s.ram_gb {
        Some(r) => seq![decimal(r as nat) + "GB"@],
        None => Seq::empty(),
    }) + (match s.storage {
        Some(st) => seq![st@],
        None => Seq::empty(),
    })
}

/// A server's label with its specs joined by `/`.
pub open spec fn server_label_spec(s: ServerConfig) -> Seq<char> {
    let specs = server_specs(s);
    if specs.len() == 0 {
        s.label@
    } else {
        s.label@ + " "@ + join_seq(specs, "/"@)
    }
}

/// The status line of a server whose probe showed `status`.
pub open spec fn server_view(s: ServerConfig, status: HealthStatus) -> StatusResultView {
    StatusResultView {
        category: "server"@,
        label: server_label_spec(s),
        status,
        details: None,
    }
}

/// Reports a server whose probe showed `status`.
pub fn check_server(server: &ServerConfig, status: HealthStatus) -> (r: StatusResult)
    ensures
        r@ == server_view(*server, status),
{
    let mut specs: Vec<String> = Vec::new();
    if let Some(ram) = server.ram_gb {
        let mut s = decimal_string(ram as u64);
        s.append("GB");
        specs.push(s);
    }
    if let Some(storage) = &server.storage {
        specs.push(storage.clone());
    }
    assert(views(specs@) =~= server_specs(*server));
    let label = if specs.len() == 0 {
        server.label.clone()
    } else {
        let mut l = server.label.clone();
        l.append(" ");
        let joined = join(&specs, "/");
        l.append(joined.as_str());
        l
    };
    StatusResult { category: owned("server"), label, status, details: None }
}

/// Reports each server with the status its probe showed, in order.
pub fn check_servers(servers: &Vec<ServerConfig>, statuses: &Vec<HealthStatus>) -> (r: Vec<
    StatusResult,
>)
    requires
        statuses@.len() == servers@.len(),
    ensures
        result_views(r@) == Seq::new(
            servers@.len(),
            |i: int| server_view(servers@[i], statuses@[i]),
        ),
{
    let mut results: Vec<StatusResult> = Vec::new();
    let n = servers.len();
    let mut i: usize = 0;
    while i < n
        invariant
            i <= n,
            n == servers@.len(),
            statuses@.len() == n,
            result_views(results@) =~= Seq::new(
                i as nat,
                |k: int| server_view(servers@[k], statuses@[k]),
            ),
        decreases n - i,
    {
        let item = check_server(&servers[i], statuses[i]);
        let ghost prev = results@;
        results.push(item);
        proof {
            lemma_result_views_push(prev, item);
        }
        i = i + 1;
    }
    results
}

} // verus!
