//! The dashboard's tab catalogue: one row per tab holding every
//! user-visible string of that tab (nav label, browser title, page heading,
//! plain-English lede and hover tooltip), and the nav bar rendered from it.

use vstd::prelude::*;
use crate::text::{from_chars, push_str};

verus! {

/// One tab of the dashboard nav, with the page identity it renders.
#[derive(Clone, Copy, Debug)]
pub struct TabMeta {
    /// URL-safe identifier matching the route, the `data-tab` attribute and
    /// the API endpoint.
    pub slug: &'static str,
    /// Nav-button text.
    pub label: &'static str,
    /// Browser `<title>`, `"{label} · Simard"`.
    pub title: &'static str,
    /// Page `<h1 class="page-h1">`.
    pub h1: &'static str,
    /// One-sentence plain-English explanation of what the page is for.
    pub lede: &'static str,
    /// Hover tooltip on the nav button.
    pub tooltip: &'static str,
}

/// Consultant-speak and insider acronyms that no lede may contain.
pub open spec fn banned_jargon_spec() -> Seq<&'static str> {
    seq![
        "OODA",
        "Observe-Orient-Decide-Act",
        "spawn_engineer",
        "LadybugDB",
        "cognitive memory",
        "synergize",
        "leverage",
        "ideate",
    ]
}

/// Consultant-speak and insider acronyms that no lede may contain.
pub fn banned_jargon() -> (v: Vec<&'static str>)
    ensures
        v@ == banned_jargon_spec(),
{
    vec![
        "OODA",
        "Observe-Orient-Decide-Act",
        "spawn_engineer",
        "LadybugDB",
        "cognitive memory",
        "synergize",
        "leverage",
        "ideate",
    ]
}

/// The tab catalogue, in nav order.
pub open spec fn tab_metadata_spec() -> Seq<TabMeta> {
    seq![
        TabMeta {
            slug: "overview",
            label: "Overview",
            title: "Overview · Simard",
            h1: "Overview",
            lede: "A live look at what the Simard daemon is doing right now, plus system health, open work items, aggregate run counters, and any other Simard hosts in your cluster.",
            tooltip: "System health and what the agent is doing right now",
        },
        TabMeta {
            slug: "goals",
            label: "Goals",
            title: "Goals · Simard",
            h1: "Goals",
            lede: "The things you have asked Simard to accomplish — active goals in progress now, the queued backlog, and a work board of the tasks it is moving through.",
            tooltip: "Active goals, the backlog, and the current work board",
        },
        TabMeta {
            slug: "activity",
            label: "Activity",
            title: "Activity · Simard",
            h1: "Activity",
            lede: "Everything Simard has been doing recently in one place — the background service log, step-by-step decision traces, the live thinking stream, and where its brain failed to parse a response.",
            tooltip: "Logs, traces, the thinking stream, and brain failures",
        },
        TabMeta {
            slug: "workers",
            label: "Workers",
            title: "Workers · Simard",
            h1: "Workers",
            lede: "The background processes and engineer subprocesses Simard is running on this host, with a tree view for spotting stuck workers and a live attach to any agent's terminal.",
            tooltip: "Processes, engineer subprocesses, and live terminals",
        },
        TabMeta {
            slug: "pull-requests",
            label: "Pull Requests",
            title: "Pull Requests · Simard",
            h1: "Pull Requests",
            lede: "Every pull request Simard is managing — the merge judge's approve, reject, and defer decisions plus the CI, review, and blocker status that shows what is ready to merge.",
            tooltip: "Merge decisions and per-PR readiness for managed PRs",
        },
        TabMeta {
            slug: "memory",
            label: "Memory",
            title: "Memory · Simard",
            h1: "Memory",
            lede: "A living map of what Simard knows — an interactive graph of the facts, events, procedures, and plans it holds, colour-coded by memory type and drawn live from what it currently remembers.",
            tooltip: "Interactive live graph of what Simard remembers, by memory type",
        },
        TabMeta {
            slug: "resources",
            label: "Resources",
            title: "Resources · Simard",
            h1: "Resources",
            lede: "What Simard has learned and remembered alongside what it costs to run — searchable memory of facts, events, and plans, plus token and dollar spending by model and provider.",
            tooltip: "What the agent remembers, plus token and dollar costs",
        },
        TabMeta {
            slug: "chat",
            label: "Chat",
            title: "Chat · Simard",
            h1: "Chat",
            lede: "Talk to the running Simard agent in real time — anything you say here can become a new goal, and slash-commands like /close, /goals, and /status are available.",
            tooltip: "Talk to the running agent (uses the meeting protocol)",
        },
        TabMeta {
            slug: "overseer",
            label: "Overseer",
            title: "Overseer · Simard",
            h1: "Overseer",
            lede: "What Simard's steward has been doing on its own — what it noticed across the system, what it changed, and, when it chose to wait, why it held back. Refreshes automatically.",
            tooltip: "What the steward has done on its own, and why it sometimes waits",
        },
        TabMeta {
            slug: "journal",
            label: "Journal",
            title: "Journal · Simard",
            h1: "Journal",
            lede: "A plain-language daily diary of what Simard and its steward the Overseer did each day, with a simple table of the code changes proposed. Browse by date and search the full history.",
            tooltip: "A plain-language daily diary of what Simard did, browseable by date",
        },
        TabMeta {
            slug: "creative-ideas",
            label: "Creative Ideas",
            title: "Creative Ideas · Simard",
            h1: "Creative Ideas",
            lede: "A pool of candidate improvements Simard dreams up for herself, each reviewed for feasibility, worth, and how to measure success. Browse and search by their review status, from brand-new to accepted or parked.",
            tooltip: "Simard's pool of self-improvement ideas, searchable by review status",
        },
    ]
}

/// The tab catalogue, in nav order.
pub fn tab_metadata() -> (v: Vec<TabMeta>)
    ensures
        v@ == tab_metadata_spec(),
{
    vec![
        TabMeta {
            slug: "overview",
            label: "Overview",
            title: "Overview · Simard",
            h1: "Overview",
            lede: "A live look at what the Simard daemon is doing right now, plus system health, open work items, aggregate run counters, and any other Simard hosts in your cluster.",
            tooltip: "System health and what the agent is doing right now",
        },
        TabMeta {
            slug: "goals",
            label: "Goals",
            title: "Goals · Simard",
            h1: "Goals",
            lede: "The things you have asked Simard to accomplish — active goals in progress now, the queued backlog, and a work board of the tasks it is moving through.",
            tooltip: "Active goals, the backlog, and the current work board",
        },
        TabMeta {
            slug: "activity",
            label: "Activity",
            title: "Activity · Simard",
            h1: "Activity",
            lede: "Everything Simard has been doing recently in one place — the background service log, step-by-step decision traces, the live thinking stream, and where its brain failed to parse a response.",
            tooltip: "Logs, traces, the thinking stream, and brain failures",
        },
        TabMeta {
            slug: "workers",
            label: "Workers",
            title: "Workers · Simard",
            h1: "Workers",
            lede: "The background processes and engineer subprocesses Simard is running on this host, with a tree view for spotting stuck workers and a live attach to any agent's terminal.",
            tooltip: "Processes, engineer subprocesses, and live terminals",
        },
        TabMeta {
            slug: "pull-requests",
            label: "Pull Requests",
            title: "Pull Requests · Simard",
            h1: "Pull Requests",
            lede: "Every pull request Simard is managing — the merge judge's approve, reject, and defer decisions plus the CI, review, and blocker status that shows what is ready to merge.",
            tooltip: "Merge decisions and per-PR readiness for managed PRs",
        },
        TabMeta {
            slug: "memory",
            label: "Memory",
            title: "Memory · Simard",
            h1: "Memory",
            lede: "A living map of what Simard knows — an interactive graph of the facts, events, procedures, and plans it holds, colour-coded by memory type and drawn live from what it currently remembers.",
            tooltip: "Interactive live graph of what Simard remembers, by memory type",
        },
        TabMeta {
            slug: "resources",
            label: "Resources",
            title: "Resources · Simard",
            h1: "Resources",
            lede: "What Simard has learned and remembered alongside what it costs to run — searchable memory of facts, events, and plans, plus token and dollar spending by model and provider.",
            tooltip: "What the agent remembers, plus token and dollar costs",
        },
        TabMeta {
            slug: "chat",
            label: "Chat",
            title: "Chat · Simard",
            h1: "Chat",
            lede: "Talk to the running Simard agent in real time — anything you say here can become a new goal, and slash-commands like /close, /goals, and /status are available.",
            tooltip: "Talk to the running agent (uses the meeting protocol)",
        },
        TabMeta {
            slug: "overseer",
            label: "Overseer",
            title: "Overseer · Simard",
            h1: "Overseer",
            lede: "What Simard's steward has been doing on its own — what it noticed across the system, what it changed, and, when it chose to wait, why it held back. Refreshes automatically.",
            tooltip: "What the steward has done on its own, and why it sometimes waits",
        },
        TabMeta {
            slug: "journal",
            label: "Journal",
            title: "Journal · Simard",
            h1: "Journal",
            lede: "A plain-language daily diary of what Simard and its steward the Overseer did each day, with a simple table of the code changes proposed. Browse by date and search the full history.",
            tooltip: "A plain-language daily diary of what Simard did, browseable by date",
        },
        TabMeta {
            slug: "creative-ideas",
            label: "Creative Ideas",
            title: "Creative Ideas · Simard",
            h1: "Creative Ideas",
            lede: "A pool of candidate improvements Simard dreams up for herself, each reviewed for feasibility, worth, and how to measure success. Browse and search by their review status, from brand-new to accepted or parked.",
            tooltip: "Simard's pool of self-improvement ideas, searchable by review status",
        },
    ]
}

/// Browser title of the tab shown on first load.
pub fn default_title() -> (r: &'static str)
    ensures
        r@ == tab_metadata_spec()[0].title@,
{
    "Overview · Simard"
}

/// One nav button: `class="tab active"` for the first tab, `class="tab"`
/// for the others, carrying the slug, the tooltip and the label.
pub open spec fn nav_item(first: bool, t: TabMeta) -> Seq<char> {
    "<div class=\""@ + (if first {
        "tab active"@
    } else {
        "tab"@
    }) + "\" data-tab=\""@ + t.slug@ + "\" title=\""@ + t.tooltip@ + "\">"@ + t.label@
        + "</div>"@
}

/// The nav buttons of `rows`, in order; the first is the active one.
pub open spec fn nav_items(rows: Seq<TabMeta>) -> Seq<char>
    decreases rows.len(),
{
    if rows.len() == 0 {
        Seq::empty()
    } else {
        nav_items(rows.drop_last()) + nav_item(rows.len() == 1, rows.last())
    }
}

/// The nav bar: one button per tab inside `<div class="tabs">`.
pub open spec fn tab_nav_spec() -> Seq<char> {
    "<div class=\"tabs\">"@ + nav_items(tab_metadata_spec()) + "</div>"@
}

/// Renders the nav bar, one button per tab, the first marked active.
pub fn tab_nav_html() -> (r: String)
    ensures
        r@ == tab_nav_spec(),
{
    let rows = tab_metadata();
    let mut out: Vec<char> = Vec::new();
    push_str(&mut out, "<div class=\"tabs\">");
    let mut i: usize = 0;
    while i < rows.len()
        invariant
            i <= rows.len(),
            rows@ == tab_metadata_spec(),
            out@ == "<div class=\"tabs\">"@ + nav_items(rows@.take(i as int)),
        decreases rows.len() - i,
    {
        let t = rows[i];
        let ghost before = out@;
        push_str(&mut out, "<div class=\"");
        if i == 0 {
            push_str(&mut out, "tab active");
        } else {
            push_str(&mut out, "tab");
        }
        push_str(&mut out, "\" data-tab=\"");
        push_str(&mut out, t.slug);
        push_str(&mut out, "\" title=\"");
        push_str(&mut out, t.tooltip);
        push_str(&mut out, "\">");
        push_str(&mut out, t.label);
        push_str(&mut out, "</div>");
        proof {
            let s = rows@.take(i + 1);
            assert(s.drop_last() =~= rows@.take(i as int));
            assert(s.last() == t);
            assert(out@ =~= before + nav_item(i == 0, t));
        }
        i = i + 1;
    }
    assert(rows@.take(rows.len() as int) =~= rows@);
    push_str(&mut out, "</div>");
    from_chars(out.as_slice())
}

} // verus!
