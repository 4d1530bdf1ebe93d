use simard_dashboard::index_html::index_html_string;
use simard_dashboard::index_html::{banned_jargon_js, tab_meta_js};
use simard_dashboard::index_html::tab_meta::{banned_jargon, default_title, tab_metadata, tab_nav_html};
use std::collections::HashSet;

#[test]
fn tab_meta_slugs_unique() {
    let mut seen = HashSet::new();
    for t in tab_metadata() {
        assert!(
            seen.insert(t.slug),
            "duplicate slug {:?} in tab_metadata()",
            t.slug
        );
    }
    assert_eq!(tab_metadata().len(), 11, "expected 11 tabs");
}

#[test]
fn tab_meta_labels_unique() {
    let mut seen = HashSet::new();
    for t in tab_metadata() {
        assert!(
            seen.insert(t.label),
            "duplicate label {:?} in tab_metadata()",
            t.label
        );
    }
}

#[test]
fn tab_meta_titles_unique_and_non_empty() {
    let mut seen = HashSet::new();
    for t in tab_metadata() {
        assert!(!t.title.is_empty(), "tab {:?} has empty title", t.slug);
        assert!(
            seen.insert(t.title),
            "duplicate title {:?} in tab_metadata()",
            t.title
        );
    }
}

#[test]
fn tab_meta_h1s_unique_and_non_empty() {
    let mut seen = HashSet::new();
    for t in tab_metadata() {
        assert!(!t.h1.is_empty(), "tab {:?} has empty h1", t.slug);
        assert!(seen.insert(t.h1), "duplicate h1 {:?} in tab_metadata()", t.h1);
    }
}

#[test]
fn tab_meta_titles_follow_label_dot_simard_format() {
    for t in tab_metadata() {
        let expected = format!("{} · Simard", t.h1);
        assert_eq!(
            t.title, expected,
            "tab {:?} title must be {:?}, got {:?}",
            t.slug, expected, t.title
        );
    }
}

#[test]
fn tab_meta_ledes_non_empty_and_single_sentence_ish() {
    for t in tab_metadata() {
        assert!(!t.lede.is_empty(), "tab {:?} has empty lede", t.slug);
        let last = t.lede.chars().last().expect("non-empty lede");
        assert!(
            matches!(last, '.' | '!' | '?'),
            "tab {:?} lede should end in terminal punctuation, got {:?}",
            t.slug,
            t.lede
        );
        assert!(
            t.lede.len() >= 40,
            "tab {:?} lede is suspiciously short ({} chars): {:?}",
            t.slug,
            t.lede.len(),
            t.lede
        );
    }
}

#[test]
fn tab_meta_ledes_no_banned_jargon() {
    for t in tab_metadata() {
        for banned in banned_jargon() {
            assert!(
                !t.lede.contains(banned),
                "tab {:?} lede contains banned jargon {:?}: {:?}",
                t.slug,
                banned,
                t.lede
            );
        }
    }
}

#[test]
fn tab_meta_tooltips_substantive() {
    for t in tab_metadata() {
        assert!(
            t.tooltip.len() >= 18,
            "tab {:?} tooltip is too short ({} chars): {:?}",
            t.slug,
            t.tooltip.len(),
            t.tooltip
        );
    }
}

#[test]
fn tab_meta_js_is_valid_json_assignment() {
    let js = tab_meta_js();
    assert!(js.starts_with("<script>window.__TAB_META="));
    assert!(js.ends_with(";</script>"));
    let payload = js
        .trim_start_matches("<script>window.__TAB_META=")
        .trim_end_matches(";</script>");
    let unescaped = payload.replace("\\u003c", "<");
    let parsed: serde_json::Value =
        serde_json::from_str(&unescaped).expect("__TAB_META payload must parse as JSON");
    let obj = parsed.as_object().expect("__TAB_META must be an object");
    assert_eq!(obj.len(), tab_metadata().len());
    for t in tab_metadata() {
        let entry = obj
            .get(t.slug)
            .unwrap_or_else(|| panic!("__TAB_META missing slug {:?}", t.slug));
        assert_eq!(entry["title"], t.title);
        assert_eq!(entry["h1"], t.h1);
        assert_eq!(entry["label"], t.label);
    }
}

#[test]
fn tab_meta_js_resists_script_breakout() {
    let js = tab_meta_js();
    assert!(
        !js[js.find("=").unwrap()..js.rfind(";").unwrap()].contains("</"),
        "tab_meta_js payload must not contain a literal `</` sequence"
    );
}

#[test]
fn default_title_is_first_tab_title() {
    assert_eq!(default_title(), tab_metadata()[0].title);
}

#[test]
fn rendered_html_contains_every_label() {
    let page = index_html_string();
    for t in tab_metadata() {
        assert!(
            page.contains(t.label),
            "rendered page missing tab label {:?} — the nav bar and \
             tab_metadata() have drifted",
            t.label
        );
    }
}

#[test]
fn rendered_html_contains_every_h1() {
    let page = index_html_string();
    for t in tab_metadata() {
        let needle = format!(r#"<h1 class="page-h1">{}</h1>"#, t.h1);
        assert!(
            page.contains(&needle),
            "rendered page missing per-tab h1 for slug {:?}; \
             expected to find: {needle}",
            t.slug
        );
    }
}

#[test]
fn rendered_html_contains_every_lede() {
    let page = index_html_string();
    for t in tab_metadata() {
        let needle = format!(r#"<p class="page-lede">{}</p>"#, t.lede);
        assert!(
            page.contains(&needle),
            "rendered page missing per-tab lede for slug {:?}; \
             expected to find: {needle}",
            t.slug
        );
    }
}

#[test]
fn rendered_html_contains_every_tooltip_from_sot() {
    let page = index_html_string();
    for t in tab_metadata() {
        let needle = format!(r#"data-tab="{}" title="{}""#, t.slug, t.tooltip);
        assert!(
            page.contains(&needle),
            "rendered page missing nav tooltip for slug {:?}; \
             expected to find: {needle}",
            t.slug
        );
    }
}

#[test]
fn tab_nav_html_marks_first_tab_active_and_rest_inactive() {
    let nav = tab_nav_html();
    let first = tab_metadata()[0];
    let active_needle = format!(r#"<div class="tab active" data-tab="{}""#, first.slug);
    assert!(
        nav.contains(&active_needle),
        "first tab {:?} should be rendered with class=\"tab active\"; nav: {nav}",
        first.slug
    );
    let active_count = nav.matches(r#"class="tab active""#).count();
    assert_eq!(
        active_count, 1,
        "exactly one tab should be rendered as active, found {active_count}; nav: {nav}"
    );
    for t in &tab_metadata()[1..] {
        let needle = format!(r#"<div class="tab" data-tab="{}""#, t.slug);
        assert!(
            nav.contains(&needle),
            "non-first tab {:?} should render with class=\"tab\" (no active); nav: {nav}",
            t.slug
        );
    }
}

#[test]
fn rendered_html_default_title_matches_sot() {
    let page = index_html_string();
    let needle = format!("<title>{}</title>", default_title());
    assert!(
        page.contains(&needle),
        "rendered page should contain <title>{}</title> for the \
         default-active tab; this is substituted from default_title() at \
         render time",
        default_title()
    );
}

#[test]
fn rendered_html_contains_tab_meta_js_block() {
    let page = index_html_string();
    assert!(
        page.contains("window.__TAB_META="),
        "page missing the __TAB_META JS block"
    );
}

#[test]
fn rendered_html_has_no_unresolved_template_markers() {
    let page = index_html_string();
    assert!(
        !page.contains("{{"),
        "rendered page still contains a template marker — \
         look for the leftover `{{` in the source parts"
    );
}

#[test]
fn rendered_html_demotes_brand_h1_to_div() {
    let page = index_html_string();
    assert!(
        page.contains(r#"<div class="brand">"#),
        "header brand must be a <div class=\"brand\">"
    );
    assert!(
        !page.contains("<h1>🌲 Simard Dashboard</h1>"),
        "header must not still render an <h1> for the brand text"
    );
}

#[test]
fn rendered_html_workboard_label_replaces_whiteboard() {
    let page = index_html_string();
    assert!(
        !page.contains(r#"data-tab="workboard""#),
        "workboard must no longer be a top-level nav tab after consolidation; \
         it lives as the `Work Board` sub-section of the Goals tab"
    );
    assert!(
        page.contains(r#"<h2 class="subsection">Work Board</h2>"#),
        "the retired workboard view must render as a `Work Board` sub-section \
         header inside the Goals tab"
    );
    assert!(
        !page.contains("Whiteboard"),
        "no user-facing text may still say `Whiteboard` (label lineage ends at \
         `Work Board`)"
    );
}

#[test]
fn rendered_html_tab_click_handler_swaps_document_title() {
    let page = index_html_string();
    assert!(
        page.contains("document.title"),
        "tab-click handler must set document.title"
    );
    assert!(
        page.contains("__TAB_META"),
        "tab-click handler must read window.__TAB_META"
    );
}

#[test]
fn banned_jargon_js_is_valid_json_array() {
    let js = banned_jargon_js();
    let parsed: serde_json::Value =
        serde_json::from_str(&js).expect("banned_jargon_js must be valid JSON");
    let arr = parsed
        .as_array()
        .expect("banned_jargon() renders as a JS array");
    assert_eq!(arr.len(), banned_jargon().len());
    for banned in banned_jargon() {
        assert!(
            arr.iter().any(|v| v.as_str() == Some(banned)),
            "banned_jargon_js missing term {banned:?}"
        );
    }
}

#[test]
fn rendered_html_injects_banned_jargon_for_summary_humanizer() {
    let page = index_html_string();
    assert!(
        !page.contains("{{BANNED_JARGON_JS}}"),
        "the banned_jargon() marker was not substituted"
    );
    assert!(
        page.contains("const BANNED_JARGON="),
        "rendered HTML must define the client-side banned_jargon() list"
    );
    for banned in banned_jargon() {
        assert!(
            page.contains(banned),
            "rendered HTML missing injected jargon term {banned:?} for the summary humanizer"
        );
    }
}

#[test]
fn rendered_html_humanizes_cycle_summaries() {
    let page = index_html_string();
    assert!(
        page.contains("function humanizeCycleSummary("),
        "humanizeCycleSummary helper must be defined"
    );
    assert!(
        page.contains("humanizeCycleSummary(rpt.summary)"),
        "Thinking legacy cycle summary must be humanized"
    );
    assert!(
        page.contains("humanizeCycleSummary(rpt.summary||'')"),
        "Thinking inline cycle summary must be humanized"
    );
    assert!(
        page.contains("humanizeCycleSummary(c.summary||'')"),
        "OODA cycle-history summary must be humanized"
    );
    assert!(
        !page.contains("esc(rpt.summary)"),
        "raw esc(rpt.summary) still leaks the machine cycle summary"
    );
}

#[test]
fn rendered_html_drops_false_invoice_cost_claim() {
    let page = index_html_string();
    assert!(
        !page.contains("real provider invoices rather than estimates"),
        "Costs lede must not claim invoice-derived figures while labeling them Estimated"
    );
}

#[test]
fn rendered_html_defines_token_humanizers() {
    let page = index_html_string();
    for needle in [
        "function humanizeGoalId(",
        "function humanizePeriod(",
        "humanizeGoalId(top.goal_id)",
    ] {
        assert!(
            page.contains(needle),
            "rendered HTML missing humanizer wiring: {needle}"
        );
    }
}

#[test]
fn rendered_html_humanizes_p3_units_and_scales() {
    let page = index_html_string();
    for needle in [
        "function humanizeDuration(",
        "function urgencyPhrase(",
        "humanizeDuration(intervalSecs)",
        "urgencyPhrase(top.urgency)",
        "urgencyPhrase(p.urgency)",
    ] {
        assert!(
            page.contains(needle),
            "rendered HTML missing P3 humanizer wiring: {needle}"
        );
    }
    assert!(
        !page.contains("intervalMin"),
        "memory growth interval still renders a bare minute count"
    );
    assert!(
        !page.contains("urgency ${top.urgency.toFixed(2)}"),
        "Overview still renders a bare unexplained urgency float"
    );
    assert!(
        !page.contains("(urgency: ${p.urgency.toFixed(2)})"),
        "Thinking priorities still render a bare unexplained urgency float"
    );
}

#[test]
fn rendered_html_humanizes_overview_action_detail() {
    let page = index_html_string();
    assert!(
        page.contains("function humanizeActionDetail("),
        "humanizeActionDetail helper must be defined so the Overview \
         action-detail slots stop leaking raw brain strings"
    );

    assert!(
        page.contains("esc(humanizeActionDetail(o.detail).substring(0,120))"),
        "Last Cycle Actions must render esc(humanizeActionDetail(o.detail)...) \
         so the raw detail is humanized before the terminal esc()"
    );

    assert!(
        page.contains("humanizeActionDetail(a.detail"),
        "Recent actions must humanize a.detail inside the truncation IIFE \
         before handing it to renderActionDetail()"
    );

    assert!(
        !page.contains("esc(o.detail.substring(0,120))"),
        "Last Cycle Actions still renders the raw, un-humanized detail string"
    );
}

#[test]
fn rendered_html_action_detail_humanizer_preserves_escape_last() {
    let page = index_html_string();

    assert!(
        page.contains("esc(humanizeActionDetail(o.detail).substring(0,120))"),
        "Site 1 must keep esc() as the outermost call wrapping the humanizer"
    );

    assert!(
        !page.contains("humanizeActionDetail(esc("),
        "humanizeActionDetail must never run on already-escaped text \
         (escape-first would let its output reach the DOM unescaped)"
    );

    assert!(
        page.contains("const safe=esc(detail||'')"),
        "renderActionDetail must retain its single internal esc(detail||'') \
         as the terminal escape for Site 2"
    );
    assert!(
        !page.contains("renderActionDetail(esc("),
        "Recent actions must not pre-escape before renderActionDetail() \
         (that double-escapes and corrupts the markup)"
    );
}

#[test]
fn rendered_html_action_detail_humanizer_preserves_attach_button_contract() {
    let page = index_html_string();
    assert!(
        page.contains("function renderActionDetail("),
        "renderActionDetail must remain defined to host the Attach-button logic"
    );
    assert!(
        page.contains("humanizeActionDetail(a.detail"),
        "Site 2 must humanize a.detail as the input fed into renderActionDetail"
    );
    assert!(
        page.contains(r"agent='(engineer-"),
        "renderActionDetail must keep matching agent='engineer-...' so the \
         Attach button contract survives the humanization change"
    );
}

#[test]
fn rendered_html_defines_task_memory_humanizers() {
    let page = index_html_string();
    assert!(
        page.contains("function humanizeTaskMemory("),
        "humanizeTaskMemory must be defined so the Task Memory table stops \
         rendering raw goal-board JSON blobs"
    );
    assert!(
        page.contains("function humanizeGoalProgress("),
        "humanizeGoalProgress must be defined to map the raw GoalProgress enum \
         (InProgress/Blocked/…) to plain English"
    );
    assert!(
        page.contains("'In progress — '+status.InProgress.percent+'%'"),
        "humanizeGoalProgress must render the InProgress percent variant as \
         'In progress — N%' instead of leaking the raw enum name"
    );
}

#[test]
fn rendered_html_task_memory_wires_humanizer_with_raw_tooltip() {
    let page = index_html_string();
    assert!(
        page.contains("const humanizedContent=humanizeTaskMemory(rawContent)"),
        "Task Memory must humanize the fact content via humanizeTaskMemory"
    );
    assert!(
        page.contains("esc(humanizedContent.substring(0,200))"),
        "Task Memory content must be esc()'d as the terminal op over the \
         humanized text (escape-last, truncate-before-escape)"
    );
    assert!(
        page.contains("' title=\"'+escAttr(rawContent)+'\"'"),
        "the raw fact content must survive as an escAttr()-hardened title= \
         tooltip when humanizeTaskMemory transforms it"
    );
    assert!(
        !page.contains("esc((f.content||'').substring(0,200))"),
        "Task Memory must no longer render the raw fact content directly"
    );
    assert!(
        !page.contains("humanizeTaskMemory(esc("),
        "humanizeTaskMemory must never run on already-escaped text"
    );
}

#[test]
fn rendered_html_workboard_recent_actions_humanized_with_raw_tooltip() {
    let page = index_html_string();
    assert!(
        page.contains("renderActionDetail(humanizeActionDetail(a.result))"),
        "Workboard Recent Actions must humanize a.result via humanizeActionDetail \
         before renderActionDetail() escapes it (finding #5)"
    );
    assert!(
        !page.contains("<span style=\"flex:1\">${renderActionDetail(a.result)}</span>"),
        "Workboard Recent Actions must no longer render the raw a.result string"
    );
    assert!(
        page.contains("title=\"${escAttr(a.result||'')}\""),
        "raw a.result must survive as an escAttr()-hardened title= tooltip so \
         power users lose nothing"
    );
    assert!(
        !page.contains("renderActionDetail(esc("),
        "Workboard must not pre-escape before renderActionDetail() (double-escape)"
    );
}

#[test]
fn feedback_widget_button_lives_in_shared_header() {
    let page = index_html_string();
    let html = page.as_str();
    let header_start = html
        .find("<header>")
        .expect("dashboard must have a <header>");
    let header_end = html
        .find("</header>")
        .expect("dashboard must close its <header>");
    let button = html
        .find("id=\"feedback-widget-button\"")
        .expect("a #feedback-widget-button control must exist");

    assert!(
        header_start < button && button < header_end,
        "the feedback button must live inside <header> so it renders on every tab"
    );
    assert_eq!(
        html.matches("id=\"feedback-widget-button\"").count(),
        1,
        "there must be exactly ONE shared feedback widget, not one per tab"
    );
}

#[test]
fn feedback_widget_control_is_labeled_for_bug_and_feature() {
    let page = index_html_string();
    let html = page.as_str();
    assert!(
        html.contains("Report bug") && html.contains("Request feature"),
        "the widget must offer both 'Report bug' and 'Request feature'"
    );
}

#[test]
fn feedback_widget_modal_and_form_fields_present() {
    let page = index_html_string();
    let html = page.as_str();
    for hook in [
        "id=\"feedback-modal\"",
        "id=\"feedback-form\"",
        "id=\"feedback-type\"",
        "id=\"feedback-title\"",
        "id=\"feedback-description\"",
    ] {
        assert!(html.contains(hook), "feedback widget markup missing {hook}");
    }
    assert!(
        html.contains("value=\"bug\"") && html.contains("value=\"feature\""),
        "feedback type selector must offer value=\"bug\" and value=\"feature\""
    );
}

#[test]
fn feedback_widget_posts_report_and_context_to_authed_endpoint() {
    let page = index_html_string();
    let html = page.as_str();
    assert!(
        html.contains("/api/feedback"),
        "widget JS must POST to /api/feedback"
    );
    assert!(
        html.contains("/api/feedback/status/"),
        "widget JS must poll /api/feedback/status/<id> for the workstream result"
    );
    assert!(
        html.contains("same-origin"),
        "widget fetch must use credentials:'same-origin' so the auth cookie is sent"
    );
    for key in ["page", "state", "timestamp", "identifiers"] {
        assert!(
            html.contains(key),
            "widget JS must capture the '{key}' context field"
        );
    }
}

const CANONICAL_TABS: &[(&str, &str)] = &[
    ("overview", "Overview"),
    ("goals", "Goals"),
    ("activity", "Activity"),
    ("workers", "Workers"),
    ("pull-requests", "Pull Requests"),
    ("memory", "Memory"),
    ("resources", "Resources"),
    ("chat", "Chat"),
    ("overseer", "Overseer"),
    ("journal", "Journal"),
    ("creative-ideas", "Creative Ideas"),
];

const RETIRED_SLUGS: &[&str] = &[
    "traces",
    "logs",
    "processes",
    "costs",
    "workboard",
    "thinking",
    "brain-failures",
    "merge-decisions",
    "pr-readiness",
    "terminal",
    "status",
];

#[test]
fn tab_meta_matches_canonical_taxonomy() {
    assert_eq!(
        tab_metadata().len(),
        CANONICAL_TABS.len(),
        "expected exactly {} canonical tabs, found {}",
        CANONICAL_TABS.len(),
        tab_metadata().len()
    );
    for (i, (slug, label)) in CANONICAL_TABS.iter().enumerate() {
        assert_eq!(
            tab_metadata()[i].slug, *slug,
            "tab #{i} slug should be {slug:?}, got {:?}",
            tab_metadata()[i].slug
        );
        assert_eq!(
            tab_metadata()[i].label, *label,
            "tab #{i} ({slug}) label should be {label:?}, got {:?}",
            tab_metadata()[i].label
        );
    }
}

#[test]
fn tab_meta_has_no_retired_top_level_slugs() {
    let live: HashSet<&str> = tab_metadata().iter().map(|t| t.slug).collect();
    for retired in RETIRED_SLUGS {
        assert!(
            !live.contains(retired),
            "retired slug {retired:?} must not remain a top-level tab; it should \
             be a sub-section reachable via its deep-link alias"
        );
    }
}

#[test]
fn tab_meta_uses_no_bridge_names() {
    for t in tab_metadata() {
        assert!(
            !t.label.contains("Bridge") && !t.h1.contains("Bridge") && !t.slug.contains("bridge"),
            "tab {:?} must not use a `Bridge` name",
            t.slug
        );
    }
}

#[test]
fn js_canonical_tabs_allowlist_includes_every_tab() {
    let page = index_html_string();
    let start = page
        .find("const CANONICAL_TABS=[")
        .expect("rendered HTML has the CANONICAL_TABS JS allowlist");
    let tail = &page[start..];
    let end = tail.find("];").expect("CANONICAL_TABS array is closed");
    let array = &tail[..end];
    for t in tab_metadata() {
        let needle = format!("'{}'", t.slug);
        assert!(
            array.contains(&needle),
            "JS CANONICAL_TABS allowlist is missing tab slug {:?}; its panel would \
             never activate. Array was: {array}",
            t.slug
        );
    }
}

#[test]
fn rendered_html_has_exactly_eleven_page_h1s() {
    let page = index_html_string();
    let count = page.matches(r#"<h1 class="page-h1">"#).count();
    assert_eq!(
        count, 11,
        "expected exactly 11 page-h1 headings (one per tab), found {count}; \
         a stray page-h1 usually means an absorbed panel kept its old <h1> instead of \
         being demoted to an <h2 class=\"subsection\">"
    );
}

#[test]
fn rendered_html_contains_consolidated_sub_section_headers() {
    let page = index_html_string();
    let required_subsections = [
        "Summary",
        "Health",
        "Stats",
        "Work Board",
        "Logs",
        "Traces",
        "Thinking",
        "Failures",
        "Processes",
        "Engineers",
        "Terminal",
        "Merge Decisions",
        "Readiness",
        "Memory",
        "Costs",
    ];
    for name in required_subsections {
        let needle = format!(r#"<h2 class="subsection">{name}</h2>"#);
        assert!(
            page.contains(&needle),
            "consolidated dashboard is missing the {name:?} sub-section header; \
             expected to find: {needle} — a merged view must survive as a labelled \
             `<h2 class=\"subsection\">` inside its parent tab so no data is lost"
        );
    }
}

#[test]
fn rendered_html_wires_tab_alias_allowlist() {
    let page = index_html_string();
    assert!(
        page.contains("TAB_ALIASES"),
        "rendered HTML must define the client-side TAB_ALIASES deep-link allowlist"
    );
    let alias_pairs = [
        ("status", "overview"),
        ("workboard", "goals"),
        ("logs", "activity"),
        ("traces", "activity"),
        ("thinking", "activity"),
        ("brain-failures", "activity"),
        ("processes", "workers"),
        ("terminal", "workers"),
        ("merge-decisions", "pull-requests"),
        ("pr-readiness", "pull-requests"),
        ("costs", "resources"),
    ];
    for (retired, parent) in alias_pairs {
        let needle = format!(r#""{retired}":"{parent}""#);
        assert!(
            page.contains(&needle),
            "TAB_ALIASES must map retired slug {retired:?} to parent tab {parent:?}; \
             expected to find: {needle}"
        );
    }
    assert!(
        !page.contains(r#""memory":"resources""#),
        "the retired-slug alias \"memory\":\"resources\" must be removed once \
         Memory is a canonical tab (issue #2627); it would shadow the real tab"
    );
    assert!(
        page.contains("^[a-z-]+$"),
        "the deep-link resolver must validate location.hash against ^[a-z-]+$ \
         before using it"
    );
    assert!(
        !page.contains(r#""stats":"overview""#),
        "the Stats sub-section was never a standalone tab and must not have an alias"
    );
    assert!(
        !page.contains(r#""engineers":"workers""#),
        "the Engineers sub-section was never a standalone tab and must not have an alias"
    );
}

#[test]
fn rendered_html_goals_status_column_uses_lifecycle_badge() {
    let page = index_html_string();
    assert!(
        page.contains("humanizeGoalProgress(g.status_progress)"),
        "the active-goals Status column must render humanizeGoalProgress(g.status_progress) \
         so each goal shows its real lifecycle status, not a uniform failed/blocked dump"
    );
    assert!(
        !page.contains("humanizeGoalProgress(esc("),
        "humanizeGoalProgress must run on the raw g.status_progress enum, never on \
         already-escaped text (escape-last invariant)"
    );
    assert!(
        !page.contains("<td>${esc(g.status)}</td>"),
        "the Status column must no longer dump the raw free-form g.status string \
         uniformly; it must render a per-status lifecycle badge"
    );
    assert!(
        page.contains("'Blocked — '+r"),
        "humanizeGoalProgress must render a blocked goal's REASON ('Blocked — <reason>') \
         so the Status column shows why a goal is blocked, not a bare 'failed'"
    );
}

#[test]
fn rendered_html_goals_status_classifier_and_color_allowlist() {
    let page = index_html_string();
    assert!(
        page.contains("function goalLifecycleKey("),
        "a goalLifecycleKey() classifier must map the serialized GoalProgress enum to a \
         canonical lifecycle key by variant, not by parsing the Display string"
    );
    assert!(
        page.contains("GOAL_STATUS_COLORS"),
        "a hardcoded GOAL_STATUS_COLORS allowlist must drive the lifecycle badge color \
         (goal data must never be interpolated into a style= attribute)"
    );
    assert!(
        page.contains("#d29922"),
        "the blocked lifecycle badge must use amber #d29922"
    );
    assert!(
        !page.contains("blocked:'#f85149'") && !page.contains("Blocked:'#f85149'"),
        "the blocked lifecycle badge must NOT reuse the activity-Failed red #f85149; \
         it must be a distinct amber so blocked != failed"
    );
}

#[test]
fn rendered_html_goals_defines_priority_tier_helpers() {
    let page = index_html_string();
    for needle in ["function priorityTierKey(", "function humanizePriority("] {
        assert!(
            page.contains(needle),
            "the Goals tab must define {needle:?} so each goal's priority is shown with a \
             distinct, human-readable tier"
        );
    }
}

#[test]
fn rendered_html_goals_priority_tier_color_allowlist_is_hardcoded() {
    let page = index_html_string();
    assert!(
        page.contains("GOAL_PRIORITY_COLORS"),
        "a hardcoded GOAL_PRIORITY_COLORS allowlist must drive the priority-tier color \
         (priority data must never be interpolated into a style= attribute)"
    );
    assert!(
        page.contains("GOAL_PRIORITY_COLORS[priorityTierKey("),
        "the priority-tier color must be looked up as GOAL_PRIORITY_COLORS[priorityTierKey(...)] \
         so only allowlisted colors reach the DOM"
    );
}

#[test]
fn rendered_html_goals_priority_is_humanized_escape_last() {
    let page = index_html_string();
    assert!(
        page.contains("humanizePriority("),
        "the Goals tab must render humanizePriority(...) so priority is visible and labeled, \
         not a bare number with no tier"
    );
    assert!(
        !page.contains("humanizePriority(esc("),
        "humanizePriority must run on the raw priority value, never on already-escaped text \
         (escape-last invariant)"
    );
}

#[test]
fn rendered_html_goals_ordered_by_priority() {
    let page = index_html_string();
    assert!(
        page.contains("function sortGoalsByPriority("),
        "the Goals tab must define sortGoalsByPriority(...) to order goals by priority \
         (highest first) at every level of the tree"
    );
    assert!(
        page.contains("sortGoalsByPriority("),
        "sortGoalsByPriority(...) must actually be applied to the goals before rendering"
    );
    assert!(
        !page.contains("d.active.map(g=>{"),
        "the Goals tab must not render d.active in raw order; goals must be ordered by \
         priority (and grouped by parent) first"
    );
}

#[test]
fn rendered_html_goals_render_parent_child_hierarchy() {
    let page = index_html_string();
    assert!(
        page.contains("parent_goal_id"),
        "the Goals tab render must reference parent_goal_id to nest sub-goals under their \
         parent (structured hierarchy edge, not brittle parsing)"
    );
    assert!(
        page.contains("function groupGoalsByParent("),
        "the Goals tab must define groupGoalsByParent(...) so decomposed children are \
         grouped/nested under their active parent (orphans/backlog-parent children at root)"
    );
}

#[test]
fn rendered_html_goals_render_label_chips_and_tag_filter() {
    let page = index_html_string();
    assert!(
        page.contains("goalLabelChips(g.labels)"),
        "each goal row must render its labels as chips via goalLabelChips(g.labels)"
    );
    assert!(
        page.contains("goal-label-chip"),
        "label chips must carry the goal-label-chip class for styling/testing"
    );
    assert!(
        page.contains("id=\"goals-tag-filter\""),
        "the Goals tab must host a tag-filter control container"
    );
    assert!(
        page.contains("function goalMatchesTagFilter(")
            && page.contains("window.setGoalTagFilter"),
        "the Goals tab must filter goals client-side by the selected tag"
    );
    assert!(
        page.contains("function entryMatchesTagFilter(")
            && page.contains(
                "groupGoalsByParent(d.active||[],d.backlog).filter(entryMatchesTagFilter)"
            ),
        "the render must group the full active list and filter at the group level"
    );
    assert!(
        page.contains("'<option value=\"'+escAttr(t)+'\"'"),
        "the tag-filter <option> value must be attribute-hardened with escAttr(t)"
    );
    assert!(
        !page.contains("'<option value=\"'+esc(t)+'\"'"),
        "the tag-filter <option> value must not use plain esc(t) in the \
         attribute context (attribute-injection risk)"
    );
}
