# scry

`scry` (the `forge` command) shows the status of a managed client site:
its switches, access points and VLANs, its servers, its AI agents and its
uptime, either by checking them from here or by asking the site's status
daemon.

## Layout

- `src/` — the library, verified with Verus:
  - `text` — decimal rendering, joining, padding, trimming, splitting and
    ordering of strings, stated over `Seq<char>`;
  - `status` — health states, status lines, HTTP and TCP verdicts, and the
    gathering of a site's check groups;
  - `config` — the site configuration, its file names, the listing of
    sites and the choice of a site;
  - `network`, `server`, `agents`, `monitor` — the status lines of each
    kind of component, from the outcomes of their probes;
  - `remote` — a status daemon's report and the lines drawn from it;
  - `output` — the layout of everything shown, as lines of styled spans;
  - `wizard` — the questions of `site add` and the configuration that the
    answers make;
  - `cli` — the commands.
- `app/` — the `forge` program: argument parsing, files, the network,
  the terminal and its colours, and the uptime and latency figures, which
  are floating point.
- `tests/` — tests of the library.
