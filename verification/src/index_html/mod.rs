//! The dashboard page: its HTML assembled from fixed segments, with the
//! template markers filled from the tab catalogue.

pub mod feedback_widget;
pub mod part_00;
pub mod part_01;
pub mod part_02;
pub mod part_03;
pub mod part_04;
pub mod part_05;
pub mod tab_meta;

use vstd::prelude::*;
use crate::text::{from_chars, json_string_literal, push_str, replace_chars, replace_seq, str_replace, to_chars};
use self::feedback_widget::{FEEDBACK_WIDGET_BODY, FEEDBACK_WIDGET_BUTTON};
use self::part_00::{part_00, push_part_00};
use self::part_01::{part_01, push_part_01};
use self::part_02::{part_02, push_part_02};
use self::part_03::{part_03, push_part_03};
use self::part_04::{part_04, push_part_04};
use self::part_05::{part_05, push_part_05};
use self::tab_meta::{
    banned_jargon, banned_jargon_spec, default_title, tab_metadata, tab_metadata_spec,
    tab_nav_html, tab_nav_spec, TabMeta,
};

verus! {

// ---------------------------------------------------------------------------
// JSON payloads for the page script
// ---------------------------------------------------------------------------

/// What `serde_json::to_string` gives for a `serde_json::Map` into which,
/// for each entry in turn, its key (first component) is inserted mapped to a
/// map of its (field, string value) pairs. The map is `serde_json`'s
/// default one, which writes its keys in sorted order, not in the order
/// they were inserted.
pub uninterp spec fn json_object_of_objects(entries: Seq<(Seq<char>, Seq<(Seq<char>, Seq<char>)>)>) -> Seq<char>;

/// The parts joined with commas.
pub open spec fn comma_list(parts: Seq<Seq<char>>) -> Seq<char>
    decreases parts.len(),
{
    if parts.len() == 0 {
        Seq::empty()
    } else if parts.len() == 1 {
        parts[0]
    } else {
        comma_list(parts.drop_last()) + seq![','] + parts.last()
    }
}

/// What `serde_json::to_string` gives for a slice of strings: the string
/// literals in brackets, separated by commas, with no spaces.
pub open spec fn json_string_array(items: Seq<Seq<char>>) -> Seq<char> {
    seq!['['] + comma_list(items.map_values(|s: Seq<char>| json_string_literal(s))) + seq![']']
}

/// The view of nested entries: each key with its (field, value) pairs.
pub open spec fn entries_view(entries: Seq<(&str, Vec<(&str, &str)>)>) -> Seq<(Seq<char>, Seq<(Seq<char>, Seq<char>)>)> {
    entries.map_values(
        |e: (&str, Vec<(&str, &str)>)| (e.0@, e.1@.map_values(|kv: (&str, &str)| (kv.0@, kv.1@))),
    )
}

/// Serialises nested entries with `serde_json::to_string`: each entry is
/// converted, pair by pair, into `serde_json::Map`s of strings (which write
/// their keys sorted). The result is only named.
#[verifier::external_body]
fn json_nested_objects(entries: &[(&str, Vec<(&str, &str)>)]) -> (r: String)
    ensures
        r@ == json_object_of_objects(entries_view(entries@)),
{
    let mut map = serde_json::Map::new();
    for (key, fields) in entries {
        let mut inner = serde_json::Map::new();
        for (field, value) in fields {
            inner.insert(field.to_string(), serde_json::Value::from(*value));
        }
        map.insert(key.to_string(), serde_json::Value::Object(inner));
    }
    serde_json::to_string(&map).unwrap_or_default()
}

/// Serialises a slice of strings with `serde_json::to_string` (a compact
/// JSON array of string literals).
#[verifier::external_body]
fn json_str_array(items: &[&str]) -> (r: String)
    ensures
        r@ == json_string_array(items@.map_values(|s: &str| s@)),
{
    serde_json::to_string(items).unwrap_or_default()
}

/// The catalogue as the page script reads it: each slug mapped to its
/// `title`, `h1` and `label`.
pub open spec fn tab_meta_entries() -> Seq<(Seq<char>, Seq<(Seq<char>, Seq<char>)>)> {
    tab_metadata_spec().map_values(
        |t: TabMeta| (t.slug@, seq![("title"@, t.title@), ("h1"@, t.h1@), ("label"@, t.label@)]),
    )
}

/// `s` with every `<` written as the JSON escape `\u003c`, so that no
/// `</script>` can close the inline script early.
pub open spec fn escape_lt(s: Seq<char>) -> Seq<char> {
    replace_seq(s, "<"@, "\\u003c"@)
}

/// The inline script exporting `window.__TAB_META`, the slug-keyed map of
/// titles, headings and labels the tab handler swaps in.
pub open spec fn tab_meta_js_spec() -> Seq<char> {
    "<script>window.__TAB_META="@ + escape_lt(json_object_of_objects(tab_meta_entries())) + ";</script>"@
}

/// The banned-jargon list as a JSON array literal.
pub open spec fn banned_jargon_js_spec() -> Seq<char> {
    escape_lt(json_string_array(banned_jargon_spec().map_values(|s: &str| s@)))
}

/// Renders the inline `<script>` exporting `window.__TAB_META`.
pub fn tab_meta_js() -> (r: String)
    ensures
        r@ == tab_meta_js_spec(),
{
    let rows = tab_metadata();
    let mut entries: Vec<(&str, Vec<(&str, &str)>)> = Vec::new();
    let mut i: usize = 0;
    while i < rows.len()
        invariant
            i <= rows.len(),
            rows@ == tab_metadata_spec(),
            entries@.len() == i,
            forall|j: int|
                0 <= j < i ==> (#[trigger] entries_view(entries@)[j]) == tab_meta_entries()[j],
        decreases rows.len() - i,
    {
        let t = rows[i];
        let mut fields: Vec<(&str, &str)> = Vec::new();
        fields.push(("title", t.title));
        fields.push(("h1", t.h1));
        fields.push(("label", t.label));
        let ghost before = entries@;
        entries.push((t.slug, fields));
        proof {
            assert(entries_view(entries@)[i as int].1 =~= seq![("title"@, t.title@), ("h1"@, t.h1@), ("label"@, t.label@)]);
            assert forall|j: int| 0 <= j < i + 1 implies (#[trigger] entries_view(entries@)[j]) == tab_meta_entries()[j] by {
                if j < i {
                    assert(entries@[j] == before[j]);
                    assert(entries_view(entries@)[j] == entries_view(before)[j]);
                }
            }
        }
        i = i + 1;
    }
    let payload = json_nested_objects(entries.as_slice());
    assert(entries_view(entries@) =~= tab_meta_entries());
    let lt = to_chars("<");
    proof {
        reveal_strlit("<");
    }
    let escaped = str_replace(to_chars(payload.as_str()).as_slice(), "<", "\\u003c");
    let mut out: Vec<char> = Vec::new();
    push_str(&mut out, "<script>window.__TAB_META=");
    let ghost head = out@;
    crate::text::push_all(&mut out, escaped.as_slice());
    push_str(&mut out, ";</script>");
    from_chars(out.as_slice())
}

/// Renders the banned-jargon list as a JSON array literal for the page
/// script's summary humaniser.
pub fn banned_jargon_js() -> (r: String)
    ensures
        r@ == banned_jargon_js_spec(),
{
    let items = banned_jargon();
    let payload = json_str_array(items.as_slice());
    proof {
        reveal_strlit("<");
    }
    let escaped = str_replace(to_chars(payload.as_str()).as_slice(), "<", "\\u003c");
    from_chars(escaped.as_slice())
}

// ---------------------------------------------------------------------------
// The page
// ---------------------------------------------------------------------------

/// The six segments joined by single spaces.
pub open spec fn raw_page() -> Seq<char> {
    part_00() + " "@ + part_01() + " "@ + part_02() + " "@ + part_03() + " "@ + part_04() + " "@
        + part_05()
}

/// The page: the joined segments with, in this order, `{{TAB_NAV}}`,
/// `{{TAB_META_JS}}`, `{{BANNED_JARGON_JS}}`, `{{FEEDBACK_WIDGET_BUTTON}}`
/// and `{{DEFAULT_TITLE}}` replaced by their renderings, and the feedback
/// widget's body placed before every `</body>`.
pub open spec fn index_html_spec() -> Seq<char> {
    let a = replace_seq(raw_page(), "{{TAB_NAV}}"@, tab_nav_spec());
    let b = replace_seq(a, "{{TAB_META_JS}}"@, tab_meta_js_spec());
    let c = replace_seq(b, "{{BANNED_JARGON_JS}}"@, banned_jargon_js_spec());
    let d = replace_seq(c, "{{FEEDBACK_WIDGET_BUTTON}}"@, FEEDBACK_WIDGET_BUTTON@);
    let e = replace_seq(d, "{{DEFAULT_TITLE}}"@, tab_metadata_spec()[0].title@);
    replace_seq(e, "</body>"@, FEEDBACK_WIDGET_BODY@ + "\n</body>"@)
}

/// Renders the whole dashboard page.
pub fn index_html_string() -> (r: String)
    ensures
        r@ == index_html_spec(),
{
    let mut raw: Vec<char> = Vec::new();
    push_part_00(&mut raw);
    push_str(&mut raw, " ");
    push_part_01(&mut raw);
    push_str(&mut raw, " ");
    push_part_02(&mut raw);
    push_str(&mut raw, " ");
    push_part_03(&mut raw);
    push_str(&mut raw, " ");
    push_part_04(&mut raw);
    push_str(&mut raw, " ");
    push_part_05(&mut raw);
    proof {
        reveal_strlit("{{TAB_NAV}}");
        reveal_strlit("{{TAB_META_JS}}");
        reveal_strlit("{{BANNED_JARGON_JS}}");
        reveal_strlit("{{FEEDBACK_WIDGET_BUTTON}}");
        reveal_strlit("{{DEFAULT_TITLE}}");
        reveal_strlit("</body>");
    }
    let nav = tab_nav_html();
    let a = replace_chars(raw.as_slice(), to_chars("{{TAB_NAV}}").as_slice(), to_chars(nav.as_str()).as_slice());
    let meta = tab_meta_js();
    let b = replace_chars(a.as_slice(), to_chars("{{TAB_META_JS}}").as_slice(), to_chars(meta.as_str()).as_slice());
    let jargon = banned_jargon_js();
    let c = replace_chars(b.as_slice(), to_chars("{{BANNED_JARGON_JS}}").as_slice(), to_chars(jargon.as_str()).as_slice());
    let d = str_replace(c.as_slice(), "{{FEEDBACK_WIDGET_BUTTON}}", FEEDBACK_WIDGET_BUTTON);
    let e = str_replace(d.as_slice(), "{{DEFAULT_TITLE}}", default_title());
    let mut body: Vec<char> = Vec::new();
    push_str(&mut body, FEEDBACK_WIDGET_BODY);
    push_str(&mut body, "\n</body>");
    let f = replace_chars(e.as_slice(), to_chars("</body>").as_slice(), body.as_slice());
    from_chars(f.as_slice())
}

} // verus!
