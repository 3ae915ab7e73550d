//! Site configuration: its types, file naming, listing and selection.
use vstd::prelude::*;
use crate::status::opt_view;
use crate::text::{chars_of, owned, sort_strings, sorted_seq, views};

verus! {

/// A site's whole configuration, as one `<site>.toml` file holds it.
#[derive(Debug, Clone)]
pub struct SiteConfig {
    pub site: SiteInfo,
    pub network: Option<NetworkConfig>,
    pub servers: Option<Vec<ServerConfig>>,
    pub agents: Option<Vec<AgentConfig>>,
    pub monitor: Option<MonitorConfig>,
}

/// The `[site]` table.
#[derive(Debug, Clone)]
pub struct SiteInfo {
    pub name: String,
    pub display_name: String,
    pub location: Option<String>,
    pub agent_url: Option<String>,
    pub api_key: Option<String>,
}

/// The `[network]` table.
#[derive(Debug, Clone)]
pub struct NetworkConfig {
    pub switches: Option<Vec<SwitchConfig>>,
    pub access_points: Option<Vec<AccessPointConfig>>,
    pub vlans: Option<Vec<VlanConfig>>,
}

/// One `[[network.switches]]` entry.
#[derive(Debug, Clone)]
pub struct SwitchConfig {
    pub host: String,
    pub label: String,
    pub check_type: String,
    pub health_url: Option<String>,
}

/// One `[[network.access_points]]` entry.
#[derive(Debug, Clone)]
pub struct AccessPointConfig {
    pub count: u32,
    pub label: String,
    pub hosts: Option<Vec<String>>,
    pub health_url: Option<String>,
}

/// One `[[network.vlans]]` entry.
#[derive(Debug, Clone)]
pub struct VlanConfig {
    pub names: Vec<String>,
}

/// One `[[servers]]` entry.
#[derive(Debug, Clone)]
pub struct ServerConfig {
    pub host: String,
    pub label: String,
    pub ram_gb: Option<u32>,
    pub storage: Option<String>,
    pub health_url: Option<String>,
}

/// One `[[agents]]` entry.
#[derive(Debug, Clone)]
pub struct AgentConfig {
    pub name: String,
    pub health_url: String,
}

/// The `[monitor]` table.
#[derive(Debug, Clone)]
pub struct MonitorConfig {
    pub uptime_url: Option<String>,
}

/// The check type of a switch whose entry names none.
pub fn default_check_type() -> (s: String)
    ensures
        s@ == seq!['p', 'i', 'n', 'g'],
{
    let lit = "ping";
    proof {
        reveal_strlit("ping");
    }
    owned(lit)
}

/// The extension of a site's configuration file.
pub open spec fn toml_suffix() -> Seq<char> {
    seq!['.', 't', 'o', 'm', 'l']
}

/// The file name under which a site's configuration is stored.
pub fn config_file_name(site_name: &str) -> (r: String)
    ensures
        r@ == site_name@ + toml_suffix(),
{
    let suffix = ".toml";
    proof {
        reveal_strlit(".toml");
        assert(suffix@ =~= toml_suffix());
    }
    let mut r = owned(site_name);
    r.append(suffix);
    r
}

/// The site that a file in the configuration directory stands for: its
/// stem, where its extension is `toml` (a name that is only `.toml` has no
/// extension).
pub open spec fn site_name_of_file(f: Seq<char>) -> Option<Seq<char>> {
    if f.len() > 5 && f.subrange(f.len() - 5, f.len() as int) == toml_suffix() {
        Some(f.subrange(0, f.len() - 5))
    } else {
        None
    }
}

/// The site that a file in the configuration directory stands for.
pub fn site_name_from_file_name(file_name: &str) -> (r: Option<String>)
    ensures
        opt_view(r) == site_name_of_file(file_name@),
{
    let cs = chars_of(file_name);
    let n = cs.len();
    if n > 5 && cs[n - 5] == '.' && cs[n - 4] == 't' && cs[n - 3] == 'o' && cs[n - 2] == 'm'
        && cs[n - 1] == 'l' {
        assert(file_name@.subrange(n - 5, n as int) =~= toml_suffix());
        Some(owned(file_name.substring_char(0, n - 5)))
    } else {
        proof {
            if n > 5 {
                let t = file_name@.subrange(n - 5, n as int);
                if t == toml_suffix() {
                    assert(t[0] == cs@[n - 5]);
                    assert(t[1] == cs@[n - 4]);
                    assert(t[2] == cs@[n - 3]);
                    assert(t[3] == cs@[n - 2]);
                    assert(t[4] == cs@[n - 1]);
                }
            }
        }
        None
    }
}

/// A site saved under a non-empty name is listed under that name again.
pub proof fn lemma_saved_site_is_listed(name: Seq<char>)
    requires
        name.len() > 0,
    ensures
        site_name_of_file(name + toml_suffix()) == Some(name),
{
    let f = name + toml_suffix();
    assert(f.subrange(f.len() - 5, f.len() as int) =~= toml_suffix());
    assert(f.subrange(0, f.len() - 5) =~= name);
}

/// The sites that the files of the configuration directory stand for, in
/// the order of the files.
pub open spec fn site_names_of_files(files: Seq<Seq<char>>) -> Seq<Seq<char>>
    decreases files.len(),
{
    if files.len() == 0 {
        Seq::empty()
    } else {
        let prev = site_names_of_files(files.drop_last());
        match site_name_of_file(files.last()) {
            Some(n) => prev.push(n),
            None => prev,
        }
    }
}

/// The configured sites, from the names of the files in the configuration
/// directory: the stems of the `.toml` files, sorted.
pub fn list_site_names(file_names: Vec<String>) -> (r: Vec<String>)
    ensures
        sorted_seq(views(r@)),
        views(r@).to_multiset() == site_names_of_files(views(file_names@)).to_multiset(),
{
    let mut sites: Vec<String> = Vec::new();
    let n = file_names.len();
    let mut i: usize = 0;
    while i < n
        invariant
            i <= n,
            n == file_names@.len(),
            views(sites@) == site_names_of_files(views(file_names@.take(i as int))),
        decreases n - i,
    {
        assert(views(file_names@.take(i + 1)).drop_last() =~= views(file_names@.take(i as int)));
        assert(views(file_names@.take(i + 1)).last() == file_names@[i as int]@);
        let ghost prev = sites@;
        match site_name_from_file_name(file_names[i].as_str()) {
            Some(name) => {
                sites.push(name);
                assert(views(sites@) =~= views(prev).push(sites@.last()@));
            },
            None => {},
        }
        i = i + 1;
    }
    assert(file_names@.take(n as int) =~= file_names@);
    sort_strings(sites)
}

/// Why no site could be chosen.
#[derive(Debug, Clone, Copy, PartialEq, Eq, Structural)]
pub enum ConfigError {
    NoSiteSpecified,
}

impl ConfigError {
    /// The message shown for the error.
    pub fn message(&self) -> (s: String)
        ensures
            s@ == "No site specified. Use --site or set SCRY_SITE environment variable."@,
    {
        owned("No site specified. Use --site or set SCRY_SITE environment variable.")
    }
}

/// The site to report on: the one named on the command line, else the
/// default site of the environment.
pub fn resolve_site_name(site: Option<String>, default_site: Option<String>) -> (r: Result<
    String,
    ConfigError,
>)
    ensures
        match site {
            Some(s) => r == Ok::<String, ConfigError>(s),
            None => match default_site {
                Some(d) => r == Ok::<String, ConfigError>(d),
                None => r == Err::<String, ConfigError>(ConfigError::NoSiteSpecified),
            },
        },
{
    match site {
        Some(s) => Ok(s),
        None => match default_site {
            Some(d) => Ok(d),
            None => Err(ConfigError::NoSiteSpecified),
        },
    }
}

/// Whether a listed site counts as healthy: its file loaded and names the
/// site itself.
pub fn site_is_healthy(site_name: &String, loaded: &Option<SiteConfig>) -> (b: bool)
    ensures
        b == match loaded {
            Some(c) => c.site.name@ == site_name@,
            None => false,
        },
{
    match loaded {
        Some(c) => c.site.name == *site_name,
        None => false,
    }
}

/// Where the status of a site comes from.
#[derive(Debug, Clone)]
pub enum StatusPlan {
    /// From the site's status daemon at this URL, with this key.
    Remote { agent_url: String, api_key: Option<String> },
    /// From checks run here.
    Local,
}

/// A site with a status daemon is asked for its status; any other is
/// checked from here.
pub fn status_plan(info: &SiteInfo) -> (p: StatusPlan)
    ensures
        match info.agent_url {
            Some(u) => p matches StatusPlan::Remote { agent_url, api_key } && agent_url@ == u@
                && opt_view(api_key) == opt_view(info.api_key),
            None => p matches StatusPlan::Local,
        },
{
    match &info.agent_url {
        Some(u) => StatusPlan::Remote {
            agent_url: u.clone(),
            api_key: crate::status::clone_opt(&info.api_key),
        },
        None => StatusPlan::Local,
    }
}

} // verus!
