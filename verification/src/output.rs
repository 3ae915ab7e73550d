//! The layout of what the tool shows: lines of styled spans, whose styles
//! the terminal paints.
use vstd::prelude::*;
use crate::agents::{detailed_views, AgentDetailedStatus, AgentDetailedView};
use crate::config::SiteInfo;
use crate::status::{opt_view, result_views, HealthStatus, StatusResult, StatusResultView};
use crate::text::{decimal, decimal_string, eq_str, owned, pad_right, pad_right_seq, repeat_seq, repeat_str};

verus! {

/// Width that the category column is padded to.
pub const LABEL_WIDTH: usize = 10;

/// How a span of text is painted.
#[derive(Debug, Clone, Copy, PartialEq, Eq, Structural)]
pub enum Style {
    Plain,
    Bold,
    Dimmed,
    Cyan,
    Blue,
    Green,
    Yellow,
    White,
    Red,
    BrightGreen,
    BrightRed,
    BrightGreenBold,
    BrightRedBold,
    YellowBold,
    WhiteDimmed,
}

/// A piece of a line with one style.
#[derive(Debug, Clone)]
pub struct Span {
    pub text: String,
    pub style: Style,
}

/// The mathematical value of a span.
pub struct SpanView {
    pub text: Seq<char>,
    pub style: Style,
}

impl View for Span {
    type V = SpanView;

    open spec fn view(&self) -> SpanView {
        SpanView { text: self.text@, style: self.style }
    }
}

/// A span from its parts.
pub open spec fn sv(text: Seq<char>, style: Style) -> SpanView {
    SpanView { text, style }
}

/// The views of the spans of a line.
pub open spec fn line_view(l: Seq<Span>) -> Seq<SpanView> {
    l.map_values(|s: Span| s@)
}

/// The views of lines.
pub open spec fn lines_view(ls: Seq<Vec<Span>>) -> Seq<Seq<SpanView>> {
    ls.map_values(|l: Vec<Span>| line_view(l@))
}

fn span(text: String, style: Style) -> (s: Span)
    ensures
        s@ == sv(text@, style),
{
    Span { text, style }
}

fn push_line(lines: &mut Vec<Vec<Span>>, line: Vec<Span>)
    ensures
        lines_view(final(lines)@) == lines_view(old(lines)@).push(line_view(line@)),
{
    let ghost prev = lines@;
    lines.push(line);
    assert(lines_view(lines@) =~= lines_view(prev).push(line_view(line@)));
}

// ---------------------------------------------------------------------
// Status lines
// ---------------------------------------------------------------------
/// The colour of a category: network cyan, server blue, agents green,
/// monitor yellow, any other white.
pub open spec fn category_style(cat: Seq<char>) -> Style {
    if cat == "network"@ {
        Style::Cyan
    } else if cat == "server"@ {
        Style::Blue
    } else if cat == "agents"@ {
        Style::Green
    } else if cat == "monitor"@ {
        Style::Yellow
    } else {
        Style::White
    }
}

/// The word for a health state on a status line: agents that are online
/// are running.
pub open spec fn status_word(cat: Seq<char>, status: HealthStatus) -> SpanView {
    match status {
        HealthStatus::Online => if cat == "agents"@ {
            sv("RUNNING"@, Style::BrightGreenBold)
        } else {
            sv("ONLINE"@, Style::BrightGreenBold)
        },
        HealthStatus::Offline => sv("OFFLINE"@, Style::BrightRedBold),
        HealthStatus::Degraded => sv("DEGRADED"@, Style::YellowBold),
        HealthStatus::Unknown => sv("UNKNOWN"@, Style::WhiteDimmed),
    }
}

/// A status line: the bracketed category padded to the column width, the
/// label, then the line's details where it has any, or else its health
/// word.
pub open spec fn status_line_spec(r: StatusResultView) -> Seq<SpanView> {
    seq![
        sv(pad_right_seq("["@ + r.category + "]"@, LABEL_WIDTH as nat), category_style(r.category)),
        sv(" "@ + r.label + " "@, Style::Plain),
        match r.details {
            Some(d) => sv(d, Style::Plain),
            None => status_word(r.category, r.status),
        },
    ]
}

fn category_style_of(cat: &String) -> (s: Style)
    ensures
        s == category_style(cat@),
{
    if eq_str(cat, "network") {
        Style::Cyan
    } else if eq_str(cat, "server") {
        Style::Blue
    } else if eq_str(cat, "agents") {
        Style::Green
    } else if eq_str(cat, "monitor") {
        Style::Yellow
    } else {
        Style::White
    }
}

fn status_word_span(cat: &String, status: HealthStatus) -> (s: Span)
    ensures
        s@ == status_word(cat@, status),
{
    match status {
        HealthStatus::Online => if eq_str(cat, "agents") {
            span(owned("RUNNING"), Style::BrightGreenBold)
        } else {
            span(owned("ONLINE"), Style::BrightGreenBold)
        },
        HealthStatus::Offline => span(owned("OFFLINE"), Style::BrightRedBold),
        HealthStatus::Degraded => span(owned("DEGRADED"), Style::YellowBold),
        HealthStatus::Unknown => span(owned("UNKNOWN"), Style::WhiteDimmed),
    }
}

/// Lays out one status line.
pub fn render_status_line(result: &StatusResult) -> (l: Vec<Span>)
    ensures
        line_view(l@) == status_line_spec(result@),
{
    let mut bracketed = owned("[");
    bracketed.append(result.category.as_str());
    bracketed.append("]");
    let category = pad_right(bracketed.as_str(), LABEL_WIDTH);
    let mut middle = owned(" ");
    middle.append(result.label.as_str());
    middle.append(" ");
    let last = match &result.details {
        Some(d) => span(d.clone(), Style::Plain),
        None => status_word_span(&result.category, result.status),
    };
    let l = vec![
        span(category, category_style_of(&result.category)),
        span(middle, Style::Plain),
        last,
    ];
    assert(line_view(l@) =~= status_line_spec(result@));
    l
}

/// Lays out a status report: one line per result, in order.
pub fn render_status_results(results: &Vec<StatusResult>) -> (ls: Vec<Vec<Span>>)
    ensures
        lines_view(ls@) == Seq::new(
            results@.len(),
            |i: int| status_line_spec(results@[i]@),
        ),
{
    let mut lines: Vec<Vec<Span>> = Vec::new();
    let n = results.len();
    let mut i: usize = 0;
    while i < n
        invariant
            i <= n,
            n == results@.len(),
            lines_view(lines@) =~= Seq::new(i as nat, |k: int| status_line_spec(results@[k]@)),
        decreases n - i,
    {
        let line = render_status_line(&results[i]);
        push_line(&mut lines, line);
        i = i + 1;
    }
    lines
}

// ---------------------------------------------------------------------
// Headers, lists and messages
// ---------------------------------------------------------------------
/// The header of a site's report: a blank line, the display name with the
/// site in brackets in bold, the location dimmed where there is one, and a
/// blank line.
pub open spec fn site_header_spec(
    site_name: Seq<char>,
    display_name: Seq<char>,
    location: Option<Seq<char>>,
) -> Seq<Seq<SpanView>> {
    let top = seq![Seq::empty(), seq![sv(display_name + " ("@ + site_name + ")"@, Style::Bold)]];
    let mid = match location {
        Some(l) => seq![seq![sv(l, Style::Dimmed)]],
        None => Seq::empty(),
    };
    top + mid + seq![Seq::empty()]
}

/// The view of an optional text.
pub open spec fn opt_str_view(o: Option<&str>) -> Option<Seq<char>> {
    match o {
        Some(s) => Some(s@),
        None => None,
    }
}

/// Lays out the header of a site's report.
pub fn render_site_header(site_name: &str, display_name: &str, location: Option<&str>) -> (ls: Vec<
    Vec<Span>,
>)
    ensures
        lines_view(ls@) == site_header_spec(site_name@, display_name@, opt_str_view(location)),
{
    let mut lines: Vec<Vec<Span>> = Vec::new();
    push_line(&mut lines, Vec::new());
    let mut header = owned(display_name);
    header.append(" (");
    header.append(site_name);
    header.append(")");
    push_line(&mut lines, vec![span(header, Style::Bold)]);
    if let Some(loc) = location {
        push_line(&mut lines, vec![span(owned(loc), Style::Dimmed)]);
    }
    push_line(&mut lines, Vec::new());
    assert(lines_view(lines@) =~~= site_header_spec(
        site_name@,
        display_name@,
        opt_str_view(location),
    ));
    lines
}

/// The views of the listed sites with their health.
pub open spec fn site_entries_view(sites: Seq<(String, bool)>) -> Seq<(Seq<char>, bool)> {
    sites.map_values(|e: (String, bool)| (e.0@, e.1))
}

/// The line of one listed site: a green dot for a healthy site, a red one
/// for any other.
pub open spec fn site_entry_line(site: Seq<char>, healthy: bool) -> Seq<SpanView> {
    seq![
        sv("  "@, Style::Plain),
        sv("●"@, if healthy {
            Style::BrightGreen
        } else {
            Style::BrightRed
        }),
        sv(" "@ + site, Style::Plain),
    ]
}

/// The list of configured sites: a title and rule, then a line per site,
/// or a hint on adding one where there is none.
pub open spec fn sites_list_spec(sites: Seq<(Seq<char>, bool)>) -> Seq<Seq<SpanView>> {
    let head = seq![
        Seq::empty(),
        seq![sv("Configured Sites"@, Style::Bold)],
        seq![sv(repeat_seq("─"@, 40), Style::Plain)],
    ];
    let body = if sites.len() == 0 {
        seq![
            seq![sv("No sites configured."@, Style::Dimmed)],
            Seq::empty(),
            seq![sv("Add a site with: "@, Style::Plain), sv("forge site add"@, Style::Cyan)],
        ]
    } else {
        Seq::new(sites.len(), |i: int| site_entry_line(sites[i].0, sites[i].1))
    };
    head + body + seq![Seq::empty()]
}

/// Lays out the list of configured sites.
pub fn render_sites_list(sites: &Vec<(String, bool)>) -> (ls: Vec<Vec<Span>>)
    ensures
        lines_view(ls@) == sites_list_spec(site_entries_view(sites@)),
{
    let ghost entries = site_entries_view(sites@);
    let mut lines: Vec<Vec<Span>> = Vec::new();
    push_line(&mut lines, Vec::new());
    push_line(&mut lines, vec![span(owned("Configured Sites"), Style::Bold)]);
    push_line(&mut lines, vec![span(repeat_str("─", 40), Style::Plain)]);
    let ghost head = lines_view(lines@);
    if sites.len() == 0 {
        push_line(&mut lines, vec![span(owned("No sites configured."), Style::Dimmed)]);
        push_line(&mut lines, Vec::new());
        push_line(
            &mut lines,
            vec![
                span(owned("Add a site with: "), Style::Plain),
                span(owned("forge site add"), Style::Cyan),
            ],
        );
    } else {
        let n = sites.len();
        let mut i: usize = 0;
        while i < n
            invariant
                i <= n,
                n == sites@.len(),
                entries == site_entries_view(sites@),
                lines_view(lines@) =~= head + Seq::new(
                    i as nat,
                    |k: int| site_entry_line(entries[k].0, entries[k].1),
                ),
            decreases n - i,
        {
            let (site, healthy) = &sites[i];
            let dot_style = if *healthy {
                Style::BrightGreen
            } else {
                Style::BrightRed
            };
            let mut rest = owned(" ");
            rest.append(site.as_str());
            let line = vec![
                span(owned("  "), Style::Plain),
                span(owned("●"), dot_style),
                span(rest, Style::Plain),
            ];
            assert(line_view(line@) =~= site_entry_line(entries[i as int].0, entries[i as int].1));
            push_line(&mut lines, line);
            i = i + 1;
        }
    }
    push_line(&mut lines, Vec::new());
    assert(lines_view(lines@) =~~= sites_list_spec(entries));
    lines
}

/// The word for an agent's health in the detailed view.
pub open spec fn agent_status_word(status: HealthStatus) -> SpanView {
    match status {
        HealthStatus::Online => sv("RUNNING"@, Style::BrightGreenBold),
        HealthStatus::Offline => sv("STOPPED"@, Style::BrightRedBold),
        HealthStatus::Degraded => sv("WARNING"@, Style::YellowBold),
        HealthStatus::Unknown => sv("UNKNOWN"@, Style::WhiteDimmed),
    }
}

/// The lines of one agent in the detailed view: its name, health and
/// endpoint, its last run and error count where it reported them (no
/// errors in green, some in red), and a blank line.
pub open spec fn agent_block_spec(a: AgentDetailedView) -> Seq<Seq<SpanView>> {
    let head = seq![
        seq![
            sv("  "@, Style::Plain),
            sv("●"@, Style::BrightGreen),
            sv(" "@, Style::Plain),
            sv(a.name, Style::Bold),
        ],
        seq![sv("    Status:    "@, Style::Plain), agent_status_word(a.status)],
        seq![sv("    Endpoint:  "@, Style::Plain), sv(a.health_url, Style::Dimmed)],
    ];
    let last = match a.last_run {
        Some(l) => seq![seq![sv("    Last Run:  "@ + l, Style::Plain)]],
        None => Seq::empty(),
    };
    let errors = match a.error_count {
        Some(e) => seq![
            seq![
                sv("    Errors:    "@, Style::Plain),
                if e == 0 {
                    sv("0"@, Style::Green)
                } else {
                    sv(decimal(e as nat), Style::Red)
                },
            ],
        ],
        None => Seq::empty(),
    };
    head + last + errors + seq![Seq::empty()]
}

/// The blocks of several agents, one after another.
pub open spec fn agent_blocks_spec(agents: Seq<AgentDetailedView>) -> Seq<Seq<SpanView>>
    decreases agents.len(),
{
    if agents.len() == 0 {
        Seq::empty()
    } else {
        agent_blocks_spec(agents.drop_last()) + agent_block_spec(agents.last())
    }
}

/// The detailed view of a site's agents: a title with the site, a rule,
/// then a block per agent, or a note where the site has none.
pub open spec fn agents_detailed_spec(agents: Seq<AgentDetailedView>, site: Seq<char>) -> Seq<
    Seq<SpanView>,
> {
    let head = seq![
        Seq::empty(),
        seq![
            sv("Agent Status"@, Style::Bold),
            sv(" - "@, Style::Plain),
            sv(site, Style::Cyan),
        ],
        seq![sv(repeat_seq("─"@, 60), Style::Plain)],
        Seq::empty(),
    ];
    if agents.len() == 0 {
        head + seq![seq![sv("No agents configured for this site."@, Style::Dimmed)], Seq::empty()]
    } else {
        head + agent_blocks_spec(agents)
    }
}

fn push_agent_block(lines: &mut Vec<Vec<Span>>, a: &AgentDetailedStatus)
    ensures
        lines_view(final(lines)@) == lines_view(old(lines)@) + agent_block_spec(a@),
{
    push_line(
        lines,
        vec![
            span(owned("  "), Style::Plain),
            span(owned("●"), Style::BrightGreen),
            span(owned(" "), Style::Plain),
            span(a.name.clone(), Style::Bold),
        ],
    );
    let word = match a.status {
        HealthStatus::Online => span(owned("RUNNING"), Style::BrightGreenBold),
        HealthStatus::Offline => span(owned("STOPPED"), Style::BrightRedBold),
        HealthStatus::Degraded => span(owned("WARNING"), Style::YellowBold),
        HealthStatus::Unknown => span(owned("UNKNOWN"), Style::WhiteDimmed),
    };
    push_line(lines, vec![span(owned("    Status:    "), Style::Plain), word]);
    push_line(
        lines,
        vec![span(owned("    Endpoint:  "), Style::Plain), span(a.health_url.clone(), Style::Dimmed)],
    );
    if let Some(l) = &a.last_run {
        let mut t = owned("    Last Run:  ");
        t.append(l.as_str());
        push_line(lines, vec![span(t, Style::Plain)]);
    }
    if let Some(e) = a.error_count {
        let count = if e == 0 {
            span(owned("0"), Style::Green)
        } else {
            span(decimal_string(e as u64), Style::Red)
        };
        push_line(lines, vec![span(owned("    Errors:    "), Style::Plain), count]);
    }
    push_line(lines, Vec::new());
    assert(lines_view(lines@) =~~= lines_view(old(lines)@) + agent_block_spec(a@));
}

/// Lays out the detailed view of a site's agents.
pub fn render_agents_detailed(agents: &Vec<AgentDetailedStatus>, site_name: &str) -> (ls: Vec<
    Vec<Span>,
>)
    ensures
        lines_view(ls@) == agents_detailed_spec(detailed_views(agents@), site_name@),
{
    let mut lines: Vec<Vec<Span>> = Vec::new();
    push_line(&mut lines, Vec::new());
    push_line(
        &mut lines,
        vec![
            span(owned("Agent Status"), Style::Bold),
            span(owned(" - "), Style::Plain),
            span(owned(site_name), Style::Cyan),
        ],
    );
    push_line(&mut lines, vec![span(repeat_str("─", 60), Style::Plain)]);
    push_line(&mut lines, Vec::new());
    let ghost head = lines_view(lines@);
    if agents.len() == 0 {
        push_line(
            &mut lines,
            vec![span(owned("No agents configured for this site."), Style::Dimmed)],
        );
        push_line(&mut lines, Vec::new());
        assert(lines_view(lines@) =~~= agents_detailed_spec(
            detailed_views(agents@),
            site_name@,
        ));
        return lines;
    }
    let n = agents.len();
    let mut i: usize = 0;
    while i < n
        invariant
            i <= n,
            n == agents@.len(),
            lines_view(lines@) =~= head + agent_blocks_spec(detailed_views(agents@.take(i as int))),
        decreases n - i,
    {
        push_agent_block(&mut lines, &agents[i]);
        assert(detailed_views(agents@.take(i + 1)).drop_last() =~= detailed_views(
            agents@.take(i as int),
        ));
        assert(detailed_views(agents@.take(i + 1)).last() == agents@[i as int]@);
        i = i + 1;
    }
    assert(agents@.take(n as int) =~= agents@);
    assert(lines_view(lines@) =~~= agents_detailed_spec(detailed_views(agents@), site_name@));
    lines
}

/// The latency class of a reachable host.
#[derive(Debug, Clone, Copy, PartialEq, Eq, Structural)]
pub enum LatencyBand {
    /// Under 50 ms.
    Fast,
    /// Under 200 ms.
    Moderate,
    /// 200 ms or more.
    Slow,
}

/// The colour of a latency: fast green, moderate yellow, slow red.
pub open spec fn latency_style(band: LatencyBand) -> Style {
    match band {
        LatencyBand::Fast => Style::BrightGreen,
        LatencyBand::Moderate => Style::Yellow,
        LatencyBand::Slow => Style::BrightRed,
    }
}

/// A measured latency: its text and its class.
#[derive(Debug, Clone)]
pub struct PingLatency {
    pub text: String,
    pub band: LatencyBand,
}

/// The result of a ping: reachable with its latency, or unreachable.
pub open spec fn ping_line_spec(host: Seq<char>, latency: Option<(Seq<char>, LatencyBand)>) -> Seq<
    SpanView,
> {
    match latency {
        Some((text, band)) => seq![
            sv("●"@, Style::BrightGreen),
            sv(" "@ + host + " is "@, Style::Plain),
            sv("reachable"@, Style::BrightGreen),
            sv(" ("@, Style::Plain),
            sv(text, latency_style(band)),
            sv(")"@, Style::Plain),
        ],
        None => seq![
            sv("●"@, Style::BrightRed),
            sv(" "@ + host + " is "@, Style::Plain),
            sv("unreachable"@, Style::BrightRed),
        ],
    }
}

/// The view of an optional latency.
pub open spec fn latency_view(l: Option<PingLatency>) -> Option<(Seq<char>, LatencyBand)> {
    match l {
        Some(p) => Some((p.text@, p.band)),
        None => None,
    }
}

/// Lays out the result of a ping.
pub fn render_ping_result(host: &str, latency: Option<PingLatency>) -> (l: Vec<Span>)
    ensures
        line_view(l@) == ping_line_spec(host@, latency_view(latency)),
{
    let mut middle = owned(" ");
    middle.append(host);
    middle.append(" is ");
    let l = match latency {
        Some(p) => {
            let style = match p.band {
                LatencyBand::Fast => Style::BrightGreen,
                LatencyBand::Moderate => Style::Yellow,
                LatencyBand::Slow => Style::BrightRed,
            };
            vec![
                span(owned("●"), Style::BrightGreen),
                span(middle, Style::Plain),
                span(owned("reachable"), Style::BrightGreen),
                span(owned(" ("), Style::Plain),
                span(p.text, style),
                span(owned(")"), Style::Plain),
            ]
        },
        None => vec![
            span(owned("●"), Style::BrightRed),
            span(middle, Style::Plain),
            span(owned("unreachable"), Style::BrightRed),
        ],
    };
    assert(line_view(l@) =~= ping_line_spec(host@, latency_view(latency)));
    l
}

/// The control text that clears the terminal and moves to its top.
pub fn render_watch_header() -> (s: String)
    ensures
        s@ == "\x1B[2J\x1B[1;1H"@,
{
    owned("\x1B[2J\x1B[1;1H")
}

/// Lays out an error message.
pub fn render_error(message: &str) -> (l: Vec<Span>)
    ensures
        line_view(l@) == seq![sv("Error:"@, Style::BrightRedBold), sv(" "@ + message@, Style::Plain)],
{
    let mut rest = owned(" ");
    rest.append(message);
    let l = vec![span(owned("Error:"), Style::BrightRedBold), span(rest, Style::Plain)];
    assert(line_view(l@) =~= seq![
        sv("Error:"@, Style::BrightRedBold),
        sv(" "@ + message@, Style::Plain),
    ]);
    l
}

/// What is shown when a site's status daemon cannot be asked: the header
/// of the site as its configuration gives it, then the error.
pub fn render_fetch_failure(site: &SiteInfo, error: &str) -> (r: (Vec<Vec<Span>>, Vec<Span>))
    ensures
        lines_view(r.0@) == site_header_spec(site.name@, site.display_name@, opt_view(site.location)),
        line_view(r.1@) == seq![
            sv("Error:"@, Style::BrightRedBold),
            sv(" "@ + ("Failed to fetch from agent: "@ + error@), Style::Plain),
        ],
{
    let location: Option<&str> = match &site.location {
        Some(l) => Some(l.as_str()),
        None => None,
    };
    let header = render_site_header(site.name.as_str(), site.display_name.as_str(), location);
    let mut message = owned("Failed to fetch from agent: ");
    message.append(error);
    let line = render_error(message.as_str());
    (header, line)
}

/// Lays out a success message.
pub fn render_success(message: &str) -> (l: Vec<Span>)
    ensures
        line_view(l@) == seq![sv("✓"@, Style::BrightGreen), sv(" "@ + message@, Style::Plain)],
{
    let mut rest = owned(" ");
    rest.append(message);
    let l = vec![span(owned("✓"), Style::BrightGreen), span(rest, Style::Plain)];
    assert(line_view(l@) =~= seq![sv("✓"@, Style::BrightGreen), sv(" "@ + message@, Style::Plain)]);
    l
}

/// In the detailed view of agents, an agent's status line shows `RUNNING`
/// (bright green, bold) for an online agent, `STOPPED` (bright red, bold)
/// for an offline one, `WARNING` (yellow, bold) for a degraded one and
/// `UNKNOWN` (white, dimmed) for one whose health is unknown; in the view
/// of a single agent it is the line after the title, the rule, a blank
/// line and the agent's name.
pub proof fn law_agent_status_line(a: AgentDetailedView, site: Seq<char>)
    ensures
        agent_block_spec(a)[1].len() == 2,
        agent_block_spec(a)[1][0] == sv("    Status:    "@, Style::Plain),
        a.status == HealthStatus::Online ==> agent_block_spec(a)[1][1] == sv(
            "RUNNING"@,
            Style::BrightGreenBold,
        ),
        a.status == HealthStatus::Offline ==> agent_block_spec(a)[1][1] == sv(
            "STOPPED"@,
            Style::BrightRedBold,
        ),
        a.status == HealthStatus::Degraded ==> agent_block_spec(a)[1][1] == sv(
            "WARNING"@,
            Style::YellowBold,
        ),
        a.status == HealthStatus::Unknown ==> agent_block_spec(a)[1][1] == sv(
            "UNKNOWN"@,
            Style::WhiteDimmed,
        ),
        agents_detailed_spec(seq![a], site)[5] == agent_block_spec(a)[1],
{
    let one = seq![a];
    let none = Seq::<AgentDetailedView>::empty();
    assert(one.drop_last() =~= none);
    assert(one.last() == a);
    assert(agent_blocks_spec(none) =~= Seq::<Seq<SpanView>>::empty());
    assert(agent_blocks_spec(one) == agent_blocks_spec(none) + agent_block_spec(a));
    assert(agent_blocks_spec(one) =~= agent_block_spec(a));
}

/// The status word of the detailed agent view names the health: the word
/// is `RUNNING` exactly for an online agent, `STOPPED` exactly for an
/// offline one, `WARNING` exactly for a degraded one and `UNKNOWN` exactly
/// for one of unknown health, so two different healths never show the
/// same word.
pub proof fn law_agent_status_words_distinct(s: HealthStatus, t: HealthStatus)
    ensures
        agent_status_word(s).text == "RUNNING"@ <==> s == HealthStatus::Online,
        agent_status_word(s).text == "STOPPED"@ <==> s == HealthStatus::Offline,
        agent_status_word(s).text == "WARNING"@ <==> s == HealthStatus::Degraded,
        agent_status_word(s).text == "UNKNOWN"@ <==> s == HealthStatus::Unknown,
        s != t ==> agent_status_word(s).text != agent_status_word(t).text,
{
    reveal_strlit("RUNNING");
    reveal_strlit("STOPPED");
    reveal_strlit("WARNING");
    reveal_strlit("UNKNOWN");
    assert("RUNNING"@[0] == 'R');
    assert("STOPPED"@[0] == 'S');
    assert("WARNING"@[0] == 'W');
    assert("UNKNOWN"@[0] == 'U');
}

/// A ping with a measured latency, whatever its class, is reported as
/// `reachable` (bright green) with the latency's text in the colour of its
/// class; only a ping without a latency is reported as `unreachable`
/// (bright red), and the two words differ.
pub proof fn law_ping_reachable_with_latency(host: Seq<char>, text: Seq<char>, band: LatencyBand)
    ensures
        ping_line_spec(host, Some((text, band))).len() == 6,
        ping_line_spec(host, Some((text, band)))[1] == sv(" "@ + host + " is "@, Style::Plain),
        ping_line_spec(host, Some((text, band)))[2] == sv("reachable"@, Style::BrightGreen),
        ping_line_spec(host, Some((text, band)))[4] == sv(text, latency_style(band)),
        ping_line_spec(host, None).len() == 3,
        ping_line_spec(host, None)[1] == sv(" "@ + host + " is "@, Style::Plain),
        ping_line_spec(host, None)[2] == sv("unreachable"@, Style::BrightRed),
        "reachable"@ != "unreachable"@,
{
    reveal_strlit("reachable");
    reveal_strlit("unreachable");
    assert("reachable"@[0] != "unreachable"@[0]);
}

} // verus!
