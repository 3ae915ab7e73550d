//! Status lines for the network devices of a site: switches, access points
//! and VLANs.
use vstd::prelude::*;
use crate::config::{AccessPointConfig, NetworkConfig, SwitchConfig, VlanConfig};
use crate::status::{lemma_result_views_push, result_views, HealthStatus, StatusResult, StatusResultView};
use crate::text::{decimal, decimal_string, join, join_seq, owned, views};
use std::time::{Duration, SystemTime};

verus! {

/// The items of an optional list.
pub open spec fn opt_seq<T>(o: Option<Vec<T>>) -> Seq<T> {
    match o {
        Some(v) => v@,
        None => Seq::empty(),
    }
}

/// The status line of a switch whose probe showed `status`.
pub open spec fn switch_view(sw: SwitchConfig, status: HealthStatus) -> StatusResultView {
    StatusResultView { category: "network"@, label: sw.label@, status, details: None }
}

/// Reports a switch whose probe showed `status`.
pub fn check_switch(switch: &SwitchConfig, status: HealthStatus) -> (r: StatusResult)
    ensures
        r@ == switch_view(*switch, status),
{
    StatusResult { category: owned("network"), label: switch.label.clone(), status, details: None }
}

/// The number of access points that are probed.
pub open spec fn ap_host_count(ap: AccessPointConfig) -> nat {
    opt_seq(ap.hosts).len()
}

/// The health of a group of access points, `online` of whose `total`
/// probed hosts answered: all is online, some degraded, none offline; a
/// group with nothing to probe counts as online.
pub open spec fn ap_status_spec(total: nat, online: nat) -> HealthStatus {
    if total == 0 {
        HealthStatus::Online
    } else if online == total {
        HealthStatus::Online
    } else if online > 0 {
        HealthStatus::Degraded
    } else {
        HealthStatus::Offline
    }
}

/// The health of a group of access points.
pub fn access_point_status(total: usize, online: usize) -> (s: HealthStatus)
    ensures
        s == ap_status_spec(total as nat, online as nat),
{
    if total == 0 {
        HealthStatus::Online
    } else if online == total {
        HealthStatus::Online
    } else if online > 0 {
        HealthStatus::Degraded
    } else {
        HealthStatus::Offline
    }
}

/// The number of online states in `s`.
pub open spec fn count_online(s: Seq<HealthStatus>) -> nat
    decreases s.len(),
{
    if s.len() == 0 {
        0
    } else {
        count_online(s.drop_last()) + if s.last() == HealthStatus::Online {
            1nat
        } else {
            0nat
        }
    }
}

/// Counts the online states.
pub fn count_online_hosts(statuses: &Vec<HealthStatus>) -> (n: usize)
    ensures
        n == count_online(statuses@),
        n <= statuses@.len(),
{
    let mut n: usize = 0;
    let mut i: usize = 0;
    while i < statuses.len()
        invariant
            i <= statuses@.len(),
            n == count_online(statuses@.take(i as int)),
            n <= i,
        decreases statuses@.len() - i,
    {
        assert(statuses@.take(i + 1).drop_last() =~= statuses@.take(i as int));
        if statuses[i] == HealthStatus::Online {
            n = n + 1;
        }
        i = i + 1;
    }
    assert(statuses@.take(statuses@.len() as int) =~= statuses@);
    n
}

/// The status line of a group of access points whose probed hosts showed
/// `host_statuses`.
pub open spec fn ap_view(ap: AccessPointConfig, host_statuses: Seq<HealthStatus>) -> StatusResultView {
    StatusResultView {
        category: "network"@,
        label: decimal(ap.count as nat) + "x "@ + ap.label@,
        status: ap_status_spec(ap_host_count(ap), count_online(host_statuses)),
        details: None,
    }
}

/// Reports a group of access points whose probed hosts showed
/// `host_statuses`, one per host in order.
pub fn check_access_points(ap_config: &AccessPointConfig, host_statuses: &Vec<HealthStatus>) -> (r:
    StatusResult)
    requires
        host_statuses@.len() == ap_host_count(*ap_config),
    ensures
        r@ == ap_view(*ap_config, host_statuses@),
{
    let total: usize = match &ap_config.hosts {
        Some(h) => h.len(),
        None => 0,
    };
    let online_count = count_online_hosts(host_statuses);
    let mut label = decimal_string(ap_config.count as u64);
    label.append("x ");
    label.append(ap_config.label.as_str());
    StatusResult {
        category: owned("network"),
        label,
        status: access_point_status(total, online_count),
        details: None,
    }
}

/// The status line of a set of VLANs: their names joined by `/`, reported
/// as segmented.
pub open spec fn vlan_view(v: VlanConfig) -> StatusResultView {
    StatusResultView {
        category: "network"@,
        label: "VLANs: "@ + join_seq(views(v.names@), "/"@),
        status: HealthStatus::Online,
        details: Some("SEGMENTED"@),
    }
}

/// Reports a set of VLANs, which the configuration alone describes.
pub fn check_vlans(vlan_config: &VlanConfig) -> (r: StatusResult)
    ensures
        r@ == vlan_view(*vlan_config),
{
    let mut label = owned("VLANs: ");
    let names = join(&vlan_config.names, "/");
    label.append(names.as_str());
    StatusResult {
        category: owned("network"),
        label,
        status: HealthStatus::Online,
        details: Some(owned("SEGMENTED")),
    }
}

/// The status lines of a site's network: its switches, then its access
/// point groups, then its VLAN sets, each in the order of the
/// configuration.
pub open spec fn network_views(
    config: NetworkConfig,
    switch_statuses: Seq<HealthStatus>,
    ap_statuses: Seq<Vec<HealthStatus>>,
) -> Seq<StatusResultView> {
    let sw = opt_seq(config.switches);
    let aps = opt_seq(config.access_points);
    let vl = opt_seq(config.vlans);
    Seq::new(sw.len(), |i: int| switch_view(sw[i], switch_statuses[i])) + Seq::new(
        aps.len(),
        |i: int| ap_view(aps[i], ap_statuses[i]@),
    ) + Seq::new(vl.len(), |i: int| vlan_view(vl[i]))
}

/// Whether probe results fit a network configuration: one status per
/// switch, and per access point group one status per probed host.
pub open spec fn network_probes_fit(
    config: NetworkConfig,
    switch_statuses: Seq<HealthStatus>,
    ap_statuses: Seq<Vec<HealthStatus>>,
) -> bool {
    &&& switch_statuses.len() == opt_seq(config.switches).len()
    &&& ap_statuses.len() == opt_seq(config.access_points).len()
    &&& forall|i: int|
        0 <= i < ap_statuses.len() ==> (#[trigger] ap_statuses[i])@.len() == ap_host_count(
            opt_seq(config.access_points)[i],
        )
}

/// Reports a site's network from the results of its probes.
pub fn check_network(
    config: &NetworkConfig,
    switch_statuses: &Vec<HealthStatus>,
    ap_statuses: &Vec<Vec<HealthStatus>>,
) -> (r: Vec<StatusResult>)
    requires
        network_probes_fit(*config, switch_statuses@, ap_statuses@),
    ensures
        result_views(r@) == network_views(*config, switch_statuses@, ap_statuses@),
{
    let ghost sw = opt_seq(config.switches);
    let ghost aps = opt_seq(config.access_points);
    let ghost vl = opt_seq(config.vlans);
    let mut results: Vec<StatusResult> = Vec::new();
    if let Some(switches) = &config.switches {
        let n = switches.len();
        let mut i: usize = 0;
        while i < n
            invariant
                i <= n,
                n == sw.len(),
                switches@ == sw,
                switch_statuses@.len() == n,
                result_views(results@) =~= Seq::new(
                    i as nat,
                    |k: int| switch_view(sw[k], switch_statuses@[k]),
                ),
            decreases n - i,
        {
            let item = check_switch(&switches[i], switch_statuses[i]);
            let ghost prev = results@;
            results.push(item);
            proof {
                lemma_result_views_push(prev, item);
            }
            i = i + 1;
        }
    }
    let ghost after_switches = result_views(results@);
    assert(after_switches =~= Seq::new(
        sw.len(),
        |i: int| switch_view(sw[i], switch_statuses@[i]),
    ));
    if let Some(points) = &config.access_points {
        let n = points.len();
        let mut i: usize = 0;
        while i < n
            invariant
                i <= n,
                n == aps.len(),
                points@ == aps,
                ap_statuses@.len() == n,
                forall|k: int|
                    0 <= k < ap_statuses@.len() ==> (#[trigger] ap_statuses@[k])@.len()
                        == ap_host_count(aps[k]),
                result_views(results@) =~= after_switches + Seq::new(
                    i as nat,
                    |k: int| ap_view(aps[k], ap_statuses@[k]@),
                ),
            decreases n - i,
        {
            assert(ap_statuses@[i as int]@.len() == ap_host_count(aps[i as int]));
            let item = check_access_points(&points[i], &ap_statuses[i]);
            let ghost prev = results@;
            results.push(item);
            proof {
                lemma_result_views_push(prev, item);
            }
            i = i + 1;
        }
    }
    let ghost after_points = result_views(results@);
    assert(after_points =~= after_switches + Seq::new(
        aps.len(),
        |i: int| ap_view(aps[i], ap_statuses@[i]@),
    ));
    if let Some(vlans) = &config.vlans {
        let n = vlans.len();
        let mut i: usize = 0;
        while i < n
            invariant
                i <= n,
                n == vl.len(),
                vlans@ == vl,
                result_views(results@) =~= after_points + Seq::new(
                    i as nat,
                    |k: int| vlan_view(vl[k]),
                ),
            decreases n - i,
        {
            let item = check_vlans(&vlans[i]);
            let ghost prev = results@;
            results.push(item);
            proof {
                lemma_result_views_push(prev, item);
            }
            i = i + 1;
        }
    }
    assert(result_views(results@) =~= after_points + Seq::new(
        vl.len(),
        |i: int| vlan_view(vl[i]),
    ));
    results
}

// ---------------------------------------------------------------------
// Ping identifiers
// ---------------------------------------------------------------------
/// A point in time of the system clock.
#[verifier::external_type_specification]
#[verifier::external_body]
pub struct ExSystemTime(SystemTime);

/// Reads the system clock (`SystemTime::now`); nothing is stated of the
/// time it gives.
#[verifier::external_body]
fn system_now() -> SystemTime {
    SystemTime::now()
}

/// The time since the Unix epoch (`SystemTime::duration_since` with
/// `UNIX_EPOCH`), or `None` for a clock set before it; nothing is stated of
/// the duration.
#[verifier::external_body]
fn since_unix_epoch(t: &SystemTime) -> Option<Duration> {
    t.duration_since(std::time::UNIX_EPOCH).ok()
}

/// The whole nanoseconds of a duration (`Duration::as_nanos`); nothing is
/// stated of the count, the duration being opaque here.
#[verifier::external_body]
fn duration_nanos(d: &Duration) -> u128 {
    d.as_nanos()
}

/// The identifier of an ICMP echo taken from a count of nanoseconds.
pub fn id_from_nanos(nanos: u128) -> (id: u16)
    ensures
        id == nanos % 65535,
{
    (nanos % 65535) as u16
}

/// The identifier of an ICMP echo from the clock's nanoseconds since the
/// Unix epoch, or from no reading (a clock set before the epoch), which
/// counts as zero.
pub fn id_from_clock(nanos: Option<u128>) -> (id: u16)
    ensures
        id == match nanos {
            Some(n) => n % 65535,
            None => 0,
        },
{
    match nanos {
        Some(n) => id_from_nanos(n),
        None => 0,
    }
}

/// An identifier for an ICMP echo, from the clock's nanoseconds since the
/// Unix epoch (zero for a clock set before it).
pub fn rand_id() -> (id: u16)
    ensures
        id < 65535,
{
    let now = system_now();
    let nanos: Option<u128> = match since_unix_epoch(&now) {
        Some(d) => Some(duration_nanos(&d)),
        None => None,
    };
    id_from_clock(nanos)
}

/// The health of a group of access points, `online` of whose `total`
/// probed hosts answered: all of them online is online, some but not all
/// is degraded, none is offline; a group without hosts is online.
pub proof fn law_access_point_health(total: nat, online: nat)
    requires
        online <= total,
    ensures
        total == 0 ==> ap_status_spec(total, online) == HealthStatus::Online,
        total > 0 && online == total ==> ap_status_spec(total, online) == HealthStatus::Online,
        0 < online < total ==> ap_status_spec(total, online) == HealthStatus::Degraded,
        total > 0 && online == 0 ==> ap_status_spec(total, online) == HealthStatus::Offline,
{
}

/// The count of online states is at most the number of states; it is all
/// of them exactly when every state is online, and none exactly when no
/// state is.
proof fn lemma_count_online_bounds(s: Seq<HealthStatus>)
    ensures
        count_online(s) <= s.len(),
        count_online(s) == s.len() <==> forall|i: int|
            0 <= i < s.len() ==> #[trigger] s[i] == HealthStatus::Online,
        count_online(s) == 0 <==> forall|i: int|
            0 <= i < s.len() ==> #[trigger] s[i] != HealthStatus::Online,
    decreases s.len(),
{
    if s.len() > 0 {
        let d = s.drop_last();
        lemma_count_online_bounds(d);
        assert forall|i: int| 0 <= i < d.len() implies #[trigger] d[i] == s[i] by {}
        if forall|i: int| 0 <= i < s.len() ==> #[trigger] s[i] == HealthStatus::Online {
            assert forall|i: int| 0 <= i < d.len() implies #[trigger] d[i]
                == HealthStatus::Online by {
                assert(s[i] == HealthStatus::Online);
            }
        }
        if forall|i: int| 0 <= i < s.len() ==> #[trigger] s[i] != HealthStatus::Online {
            assert forall|i: int| 0 <= i < d.len() implies #[trigger] d[i]
                != HealthStatus::Online by {
                assert(s[i] != HealthStatus::Online);
            }
        }
        if count_online(s) == s.len() {
            assert forall|i: int| 0 <= i < s.len() implies #[trigger] s[i]
                == HealthStatus::Online by {
                if i < d.len() {
                    assert(d[i] == HealthStatus::Online);
                }
            }
        }
        if count_online(s) == 0 {
            assert forall|i: int| 0 <= i < s.len() implies #[trigger] s[i]
                != HealthStatus::Online by {
                if i < d.len() {
                    assert(d[i] != HealthStatus::Online);
                }
            }
        }
    }
}

/// The line of a group of access points, from the states of its probed
/// hosts: online when every host answered, degraded when some but not all
/// did, offline when none did.
pub proof fn law_access_point_line_health(ap: AccessPointConfig, host_statuses: Seq<HealthStatus>)
    requires
        host_statuses.len() == ap_host_count(ap),
    ensures
        (forall|i: int| 0 <= i < host_statuses.len() ==> #[trigger] host_statuses[i]
            == HealthStatus::Online) ==> ap_view(ap, host_statuses).status == HealthStatus::Online,
        (exists|i: int| 0 <= i < host_statuses.len() && #[trigger] host_statuses[i]
            == HealthStatus::Online) && (exists|j: int| 0 <= j < host_statuses.len()
            && #[trigger] host_statuses[j] != HealthStatus::Online) ==> ap_view(
            ap,
            host_statuses,
        ).status == HealthStatus::Degraded,
        host_statuses.len() > 0 && (forall|i: int| 0 <= i < host_statuses.len() ==> #[trigger] host_statuses[i]
            != HealthStatus::Online) ==> ap_view(ap, host_statuses).status == HealthStatus::Offline,
{
    lemma_count_online_bounds(host_statuses);
    law_access_point_health(host_statuses.len(), count_online(host_statuses));
}

} // verus!
