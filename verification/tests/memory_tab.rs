use simard_dashboard::index_html::index_html_string;
use simard_dashboard::index_html::tab_meta::tab_metadata;

const MEMORY_TYPES: [&str; 6] = [
    "WorkingMemory",
    "SemanticFact",
    "EpisodicMemory",
    "ProceduralMemory",
    "ProspectiveMemory",
    "SensoryBuffer",
];

fn tab_panel<'h>(html: &'h str, slug: &str) -> &'h str {
    let open = format!(r#"id="tab-{slug}""#);
    let start = html.find(&open).unwrap_or_else(|| {
        panic!(
            "no tab-content panel with id=\"tab-{slug}\" in the rendered dashboard — \
             the dedicated Memory tab (#2627) is not rendered"
        )
    });
    let rest = &html[start + open.len()..];
    let end = rest.find(r#"id="tab-"#).unwrap_or(rest.len());
    &rest[..end]
}

#[test]
fn memory_tab_registered_in_metadata() {
    let meta = tab_metadata().into_iter().find(|t| t.slug == "memory").expect(
        "tab_metadata() must register a top-level `memory` tab (issue #2627); \
             it is currently a RETIRED slug folded into Resources",
    );
    assert_eq!(
        meta.label, "Memory",
        "the memory tab's nav label must be \"Memory\", got {:?}",
        meta.label
    );
    assert_eq!(
        meta.h1, "Memory",
        "the memory tab's page-h1 must be \"Memory\", got {:?}",
        meta.h1
    );
    assert_eq!(
        meta.slug, "memory",
        "the memory tab slug must use accurate, non-legacy vocabulary (binding constraint)"
    );
}

#[test]
fn memory_tab_has_nav_button_and_panel() {
    let page = index_html_string();
    let html: &str = &page;
    assert!(
        html.contains(r#"data-tab="memory""#),
        "the rendered nav must include a data-tab=\"memory\" button so the \
         Memory tab is clickable"
    );
    assert!(
        html.contains(r#"id="tab-memory""#),
        "the rendered HTML must include the id=\"tab-memory\" content panel"
    );
    let panel = tab_panel(html, "memory");
    assert!(
        panel.contains(r#"<h1 class="page-h1">Memory</h1>"#),
        "the Memory panel must own a <h1 class=\"page-h1\">Memory</h1> heading"
    );
    assert!(
        panel.contains(r#"class="page-lede""#),
        "the Memory panel must carry a <p class=\"page-lede\"> intro like every \
         other tab (tab-identity contract)"
    );
}

#[test]
fn memory_tab_in_js_canonical_allowlist() {
    let page = index_html_string();
    let html: &str = &page;
    let start = html
        .find("const CANONICAL_TABS=[")
        .expect("rendered HTML has the CANONICAL_TABS JS allowlist");
    let tail = &html[start..];
    let end = tail.find("];").expect("CANONICAL_TABS array is closed");
    assert!(
        tail[..end].contains("'memory'"),
        "the JS CANONICAL_TABS allowlist must list 'memory' or its panel never \
         activates (activateTab falls back to Overview). Array was: {}",
        &tail[..end]
    );
}

#[test]
fn memory_tab_renders_the_graph_visualization() {
    let page = index_html_string();
    let html: &str = &page;
    let panel = tab_panel(html, "memory");
    assert!(
        panel.contains(r#"id="mem-graph-canvas""#),
        "the Memory tab must render the memory-graph <canvas id=\"mem-graph-canvas\">"
    );
    for ty in MEMORY_TYPES {
        let needle = format!(r#"data-type="{ty}""#);
        assert!(
            panel.contains(&needle),
            "the Memory tab must expose the {ty} type filter ({needle}) so all six \
             memory types are toggleable"
        );
    }
    assert!(
        panel.contains("fetchMemoryGraph"),
        "the Memory tab must wire fetchMemoryGraph() to pull the LIVE graph from \
         /api/memory/graph"
    );
}

#[test]
fn memory_graph_canvas_is_not_duplicated() {
    let page = index_html_string();
    let html: &str = &page;
    let n = html.matches(r#"id="mem-graph-canvas""#).count();
    assert_eq!(
        n, 1,
        "the memory-graph canvas must exist exactly once (MOVED into the Memory \
         tab, not copied) — {n} occurrences means a duplicate DOM id that breaks \
         document.getElementById"
    );
}

#[test]
fn memory_tab_has_background_loader() {
    let page = index_html_string();
    let html: &str = &page;
    let start = html
        .find("const TAB_LOADERS=")
        .expect("rendered HTML has the TAB_LOADERS registry");
    let tail = &html[start..];
    let end = tail.find("};").expect("TAB_LOADERS object is closed");
    let registry = &tail[..end];
    let mstart = registry.find("'memory':[").unwrap_or_else(|| {
        panic!(
            "TAB_LOADERS must register a 'memory':[...] entry so the Memory tab \
             background-prefetches/refreshes like the other tabs (#2627)"
        )
    });
    let mtail = &registry[mstart..];
    let mend = mtail.find(']').unwrap_or(mtail.len());
    assert!(
        mtail[..mend].contains("fetchMemoryGraph"),
        "the 'memory' loader entry must call fetchMemoryGraph for live refresh; \
         got: {}",
        &mtail[..mend]
    );
}

#[test]
fn memory_deeplink_alias_to_resources_removed() {
    let page = index_html_string();
    let html: &str = &page;
    assert!(
        !html.contains(r#""memory":"resources""#),
        "the retired-slug alias \"memory\":\"resources\" must be removed once \
         Memory is a canonical tab (#2627)"
    );
}

fn js_function<'h>(html: &'h str, name: &str) -> &'h str {
    let marker = format!("function {name}(");
    let start = html.find(&marker).unwrap_or_else(|| {
        panic!("expected a JS `{marker}...` declaration in the rendered dashboard")
    });
    let rest = &html[start + marker.len()..];
    let end = rest.find("function ").unwrap_or(rest.len());
    &rest[..end]
}

#[test]
fn memory_panel_has_visible_error_overlay_element() {
    let page = index_html_string();
    let html: &str = &page;
    let panel = tab_panel(html, "memory");
    assert!(
        panel.contains(r#"id="mem-graph-error""#),
        "the Memory panel must render a dedicated #mem-graph-error overlay so a \
         data-load failure is visible on the canvas (never a silent blank)"
    );
    assert!(
        panel.contains(r#"role="alert""#),
        "the #mem-graph-error overlay must carry role=\"alert\" so the failure is \
         announced to assistive tech"
    );
}

#[test]
fn memory_graph_fetch_and_render_wire_the_mg_error_overlay() {
    let page = index_html_string();
    let html: &str = &page;
    assert!(
        html.contains("mgError"),
        "the Memory-graph script must track an `mgError` state string driving the \
         error overlay"
    );

    let fetch_body = js_function(html, "fetchMemoryGraph");
    assert!(
        fetch_body.contains("mgError"),
        "fetchMemoryGraph must set/clear `mgError` (fail-loud on d.error / fetch \
         throw / discrepancy), not just write the low-visibility stats line; body: {fetch_body}"
    );

    let render_body = js_function(html, "mgRender");
    assert!(
        render_body.contains("mgError"),
        "mgRender (the single paint path) must honour `mgError`; body: {render_body}"
    );
    assert!(
        render_body.contains("mem-graph-error"),
        "mgRender must show the #mem-graph-error overlay when `mgError` is set so a \
         partial/failed load is never presented as a blank canvas; body: {render_body}"
    );
}

#[test]
fn memory_graph_error_is_not_hidden_in_the_stats_line() {
    let page = index_html_string();
    let html: &str = &page;
    assert!(
        !html.contains("Error: '+d.error"),
        "the silent stats-line error branch (`#mem-graph-stats` = 'Error: '+d.error) \
         must be replaced by the visible #mem-graph-error overlay (single error surface)"
    );
    assert!(
        !html.contains("'Load failed'"),
        "the silent stats-line 'Load failed' catch branch must be replaced by the \
         visible #mem-graph-error overlay (never a silent blank)"
    );
}

#[test]
fn memory_graph_has_neutral_empty_state_message() {
    let page = index_html_string();
    let html: &str = &page;
    assert!(
        html.contains("Memory graph is empty"),
        "the renderer must show a neutral \"Memory graph is empty\" message for a \
         genuinely-empty store (distinct from the error overlay)"
    );
}

#[test]
fn recent_memories_empty_state_branches_on_last_hour_count() {
    let page = index_html_string();
    let html: &str = &page;
    let body = js_function(html, "fetchRecentMemories");
    assert!(
        body.contains("d.last_hour_count||0"),
        "fetchRecentMemories must derive the last-hour count for its empty-state \
         branch so a positive last-hour count is never rendered as \"No new \
         memories in the last hour\" (which contradicts the #mem-recent-count \
         headline); body: {body}"
    );
    assert!(
        body.contains("recorded in the last hour"),
        "when the last-hour count is positive but per-item detail is unavailable, \
         the panel must state that memories WERE recorded in the last hour, \
         consistent with the headline count; body: {body}"
    );
    assert!(
        body.contains("No new memories in the last hour"),
        "the zero-last-hour branch must still say \"No new memories in the last \
         hour\" when nothing was recorded this hour; body: {body}"
    );
    assert!(
        body.contains("No memories stored yet"),
        "the empty-store branch must still fall back to \"No memories stored yet\" \
         when total is zero (#2358); body: {body}"
    );
}
