use simard_dashboard::index_html::index_html_string;

#[test]
fn tab_prefetch_registry_is_declared() {
    let page = index_html_string();
    assert!(
        page.contains("const TAB_LOADERS="),
        "rendered page missing the TAB_LOADERS registry — background \
         prefetch needs a slug->loaders map as its single source of truth"
    );
}

#[test]
fn tab_prefetch_registry_exposed_on_window() {
    let page = index_html_string();
    assert!(
        page.contains("window.TAB_LOADERS"),
        "TAB_LOADERS must be exposed on window so the registry coverage can \
         be verified at runtime (tab-prefetch.spec.ts reads window.TAB_LOADERS)"
    );
}

#[test]
fn tab_prefetch_scheduler_defined_and_invoked() {
    let page = index_html_string();
    assert!(
        page.contains("function startBackgroundScheduler("),
        "missing startBackgroundScheduler() definition — the scheduler that \
         enqueues a background load for every tab on init"
    );
    assert!(
        page.contains("startBackgroundScheduler()"),
        "startBackgroundScheduler() is never called from init — background \
         prefetch would never start"
    );
}

#[test]
fn tab_prefetch_bounded_concurrency_and_stagger() {
    let page = index_html_string();
    assert!(
        page.contains("MAX_CONCURRENCY=3"),
        "missing MAX_CONCURRENCY=3 — background loads must be capped at 3 \
         concurrent fetchers so the initial wave does not DoS the daemon"
    );
    assert!(
        page.contains("STAGGER_MS=150"),
        "missing STAGGER_MS=150 — initial background dispatch must be \
         staggered so the daemon never sees every endpoint at once"
    );
}

#[test]
fn tab_prefetch_apifetch_dedupes_inflight_and_preserves_auth() {
    let page = index_html_string();
    assert!(
        page.contains("inFlightFetches"),
        "apiFetch has no inFlightFetches map — concurrent duplicate GETs \
         (background + manual refresh) would not be de-duped"
    );
    assert!(
        page.contains("inFlightFetches.delete"),
        "inFlightFetches entry is never deleted — the in-flight promise must \
         be cleared on settle so a failed fetch cannot poison the de-dupe lock"
    );
    assert!(
        page.contains("window.location.href='/login'"),
        "the 401 -> /login redirect guard must be preserved through the \
         apiFetch de-dupe refactor — a backgrounded 401 must still log out"
    );
}

#[test]
fn tab_prefetch_freshness_timestamp_store() {
    let page = index_html_string();
    assert!(
        page.contains("lastOk"),
        "missing the lastOk freshness store — the dashboard must record when \
         each endpoint last succeeded to render a per-tab data-age indicator"
    );
}

#[test]
fn tab_prefetch_freshness_indicator_testid() {
    let page = index_html_string();
    assert!(
        page.contains("-updated"),
        "missing per-tab freshness indicator — each tab needs a subtle \
         data-testid=\"{{slug}}-updated\" element showing when its data was \
         last refreshed (no silent staleness)"
    );
}

#[test]
fn tab_prefetch_visibility_gate() {
    let page = index_html_string();
    assert!(
        page.contains("visibilitychange"),
        "missing a visibilitychange listener — background refresh must pause \
         when the browser tab is hidden to avoid wasted work"
    );
    assert!(
        page.contains("document.visibilityState"),
        "missing a document.visibilityState check — the scheduler must gate \
         refresh on tab visibility and resume promptly when visible again"
    );
}
