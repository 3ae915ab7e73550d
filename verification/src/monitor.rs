//! The uptime line of a site: its bar of ten cells and its day count.
use vstd::prelude::*;
use crate::status::{HealthStatus, StatusResult, StatusResultView};
use crate::text::{decimal, decimal_string, owned, repeat_seq, repeat_str};

verus! {

/// Cells of the uptime bar.
pub const BAR_CELLS: usize = 10;

/// The filled cells of the bar for an uptime of `tenths` tenths of a
/// hundred percent, at most the whole bar.
pub open spec fn filled_cells(tenths: nat) -> nat {
    if tenths < 10 {
        tenths
    } else {
        10
    }
}

/// The uptime bar: a `|` per filled cell, then a space per empty one.
pub open spec fn uptime_bar_spec(tenths: nat) -> Seq<char> {
    repeat_seq("|"@, filled_cells(tenths)) + repeat_seq(" "@, (10 - filled_cells(tenths)) as nat)
}

/// Renders the uptime bar for an uptime rounded to `tenths` tenths.
pub fn uptime_bar(tenths: usize) -> (s: String)
    ensures
        s@ == uptime_bar_spec(tenths as nat),
{
    let filled = if tenths < BAR_CELLS {
        tenths
    } else {
        BAR_CELLS
    };
    let mut s = repeat_str("|", filled);
    let empty = repeat_str(" ", BAR_CELLS - filled);
    s.append(empty.as_str());
    s
}

/// Repeating a one-character text `n` times gives `n` characters.
pub proof fn lemma_repeat_len(s: Seq<char>, n: nat)
    ensures
        repeat_seq(s, n).len() == n * s.len(),
    decreases n,
{
    if n > 0 {
        lemma_repeat_len(s, (n - 1) as nat);
        assert(n * s.len() == (n - 1) * s.len() + s.len()) by (nonlinear_arith);
    }
}

/// The bar always has ten cells, of which `min(tenths, 10)` are filled.
pub proof fn lemma_uptime_bar_cells(tenths: nat)
    ensures
        uptime_bar_spec(tenths).len() == 10,
        forall|i: int|
            0 <= i < 10 ==> (#[trigger] uptime_bar_spec(tenths)[i] == '|' <==> i < filled_cells(
                tenths,
            )),
{
    reveal_strlit("|");
    reveal_strlit(" ");
    let f = filled_cells(tenths);
    lemma_repeat_len("|"@, f);
    lemma_repeat_len(" "@, (10 - f) as nat);
    lemma_repeat_all("|"@, f, '|');
    lemma_repeat_all(" "@, (10 - f) as nat, ' ');
    let b = uptime_bar_spec(tenths);
    assert forall|i: int| 0 <= i < 10 implies (#[trigger] b[i] == '|' <==> i < f) by {
        if i < f {
            assert(b[i] == repeat_seq("|"@, f)[i]);
        } else {
            assert(b[i] == repeat_seq(" "@, (10 - f) as nat)[i - f]);
        }
    }
}

proof fn lemma_repeat_all(s: Seq<char>, n: nat, c: char)
    requires
        s =~= seq![c],
    ensures
        forall|i: int| 0 <= i < repeat_seq(s, n).len() ==> #[trigger] repeat_seq(s, n)[i] == c,
    decreases n,
{
    lemma_repeat_len(s, n);
    if n > 0 {
        lemma_repeat_all(s, (n - 1) as nat, c);
        lemma_repeat_len(s, (n - 1) as nat);
    }
}

/// The day count after the bar: ` <days>d`, or nothing for zero days.
pub open spec fn days_suffix_spec(days: u32) -> Seq<char> {
    if days > 0 {
        " "@ + decimal(days as nat) + "d"@
    } else {
        Seq::empty()
    }
}

/// The details of the uptime line: the bar, then the day count.
pub fn monitor_details(tenths: usize, days: u32) -> (s: String)
    ensures
        s@ == uptime_bar_spec(tenths as nat) + days_suffix_spec(days),
{
    let mut s = uptime_bar(tenths);
    if days > 0 {
        s.append(" ");
        s.append(decimal_string(days as u64).as_str());
        s.append("d");
    }
    s
}

/// The status line of a site's uptime, with the label and health that its
/// uptime percentage gives.
pub open spec fn monitor_view(label: Seq<char>, status: HealthStatus, tenths: nat, days: u32) -> StatusResultView {
    StatusResultView {
        category: "monitor"@,
        label,
        status,
        details: Some(uptime_bar_spec(tenths) + days_suffix_spec(days)),
    }
}

/// Reports a site's uptime.
pub fn monitor_status_result(label: String, status: HealthStatus, tenths: usize, days: u32) -> (r:
    StatusResult)
    ensures
        r@ == monitor_view(label@, status, tenths as nat, days),
{
    StatusResult {
        category: owned("monitor"),
        label,
        status,
        details: Some(monitor_details(tenths, days)),
    }
}

} // verus!
