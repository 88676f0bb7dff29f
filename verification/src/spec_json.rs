//! The JSON form of an integration spec, field names and omissions as the resource is written,
//! and the spec hash computed over its canonical text.
use crate::api::{
    placement_str, spec_without_enabled, ColumnRenderType, MenuPlacement, BuilderSpec, BuilderSpecView, ColumnRenderSpec, ColumnRenderSpecView,
    ColumnSpec, ColumnSpecView, CrdNamesSpec, CrdNamesSpecView, CrdScope, CrdTablePageSpec, CrdTablePageSpecView,
    FrontendIntegrationSpec, FrontendIntegrationSpecView, IframePageSpec, IframePageSpecView, MenuNodeType, PageSpec,
    PageSpecView, PageType, PrimaryMenuSpec, PrimaryMenuSpecView, SecondaryMenuSpec, SecondaryMenuSpecView,
};
use crate::canonical::{canonical, canonical_text, json_text};
use crate::digest::{content_hash, spec_content_hash};
use crate::json::{
    clone_entries, entries_view, finish_object, items_view, json_view, lemma_array_view, new_object, opt_entry,
    opt_str_entry, push_entry, push_opt_str, JsonValue, JsonView,
};
use crate::manifest::pages::{render_type_str, spec_render_type_str};
use crate::resource::FrontendIntegration;
use vstd::prelude::*;

verus! {

broadcast use vstd::std_specs::vec::group_vec_axioms;

pub open spec fn opt_bool_entry(key: Seq<char>, value: Option<bool>) -> Seq<(Seq<char>, JsonView)> {
    match value {
        Some(b) => seq![(key, JsonView::Bool(b))],
        None => Seq::empty(),
    }
}

fn push_opt_bool(out: &mut Vec<(String, JsonValue)>, key: &str, value: Option<bool>)
    ensures
        entries_view(final(out)@) == entries_view(old(out)@) + opt_bool_entry(key@, value),
{
    match value {
        Some(b) => push_entry(out, key, JsonValue::Bool(b)),
        None => {
            assert(entries_view(out@) =~= entries_view(out@) + Seq::<(Seq<char>, JsonView)>::empty());
        },
    }
}

/// An array entry, left out when the list is empty.
pub open spec fn nonempty_entry(key: Seq<char>, items: Seq<JsonView>) -> Seq<(Seq<char>, JsonView)> {
    if items.len() == 0 {
        Seq::empty()
    } else {
        seq![(key, JsonView::Array(items))]
    }
}

fn push_nonempty(out: &mut Vec<(String, JsonValue)>, key: &str, items: Vec<JsonValue>)
    ensures
        entries_view(final(out)@) == entries_view(old(out)@) + nonempty_entry(key@, items_view(items@)),
{
    if items.len() == 0 {
        assert(entries_view(out@) =~= entries_view(out@) + Seq::<(Seq<char>, JsonView)>::empty());
    } else {
        proof {
            lemma_array_view(items);
        }
        push_entry(out, key, JsonValue::Array(items));
    }
}

// ---------------------------------------------------------------- names of enum values
pub open spec fn menu_type_str(t: MenuNodeType) -> Seq<char> {
    match t {
        MenuNodeType::Page => "page"@,
        MenuNodeType::Organization => "organization"@,
    }
}

pub open spec fn page_type_str(t: PageType) -> Seq<char> {
    match t {
        PageType::CrdTable => "crdTable"@,
        PageType::Iframe => "iframe"@,
    }
}

pub open spec fn scope_str(s: CrdScope) -> Seq<char> {
    match s {
        CrdScope::Namespaced => "Namespaced"@,
        CrdScope::Cluster => "Cluster"@,
    }
}

fn menu_type_text(t: MenuNodeType) -> (r: &'static str)
    ensures
        r@ == menu_type_str(t),
{
    match t {
        MenuNodeType::Page => "page",
        MenuNodeType::Organization => "organization",
    }
}

fn page_type_text(t: PageType) -> (r: &'static str)
    ensures
        r@ == page_type_str(t),
{
    match t {
        PageType::CrdTable => "crdTable",
        PageType::Iframe => "iframe",
    }
}

fn scope_text(s: CrdScope) -> (r: &'static str)
    ensures
        r@ == scope_str(s),
{
    match s {
        CrdScope::Namespaced => "Namespaced",
        CrdScope::Cluster => "Cluster",
    }
}

// ---------------------------------------------------------------- the model
pub open spec fn builder_json(b: BuilderSpecView) -> JsonView {
    JsonView::Object(opt_str_entry("engineVersion"@, b.engine_version))
}

pub open spec fn secondary_menu_json(m: SecondaryMenuSpecView) -> JsonView {
    JsonView::Object(seq![("displayName"@, JsonView::Str(m.display_name)), ("key"@, JsonView::Str(m.key))])
}

pub open spec fn primary_menu_json(m: PrimaryMenuSpecView) -> JsonView {
    JsonView::Object(
        seq![
            ("displayName"@, JsonView::Str(m.display_name)),
            ("key"@, JsonView::Str(m.key)),
            ("placement"@, JsonView::Str(placement_str(m.placement))),
            ("type"@, JsonView::Str(menu_type_str(m.type_))),
        ] + nonempty_entry("children"@, m.children.map_values(|c: SecondaryMenuSpecView| secondary_menu_json(c))),
    )
}

pub open spec fn iframe_json(f: IframePageSpecView) -> JsonView {
    JsonView::Object(seq![("src"@, JsonView::Str(f.src))])
}

pub open spec fn crd_names_json(n: CrdNamesSpecView) -> JsonView {
    JsonView::Object(seq![("kind"@, JsonView::Str(n.kind)), ("plural"@, JsonView::Str(n.plural))])
}

pub open spec fn render_json(r: ColumnRenderSpecView) -> JsonView {
    JsonView::Object(
        seq![("type"@, JsonView::Str(spec_render_type_str(r.type_))), ("path"@, JsonView::Str(r.path))]
            + opt_str_entry("format"@, r.format) + opt_str_entry("pattern"@, r.pattern) + opt_str_entry(
            "link"@,
            r.link,
        ) + opt_entry(
            "payload"@,
            match r.payload {
                Some(p) => Some(JsonView::Object(p)),
                None => None,
            },
        ),
    )
}

pub open spec fn column_json(c: ColumnSpecView) -> JsonView {
    JsonView::Object(
        seq![
            ("key"@, JsonView::Str(c.key)),
            ("title"@, JsonView::Str(c.title)),
            ("render"@, render_json(c.render)),
        ] + opt_bool_entry("enableSorting"@, c.enable_sorting) + opt_bool_entry("enableHiding"@, c.enable_hiding),
    )
}

pub open spec fn crd_table_json(t: CrdTablePageSpecView) -> JsonView {
    JsonView::Object(
        seq![
            ("names"@, crd_names_json(t.names)),
            ("group"@, JsonView::Str(t.group)),
            ("version"@, JsonView::Str(t.version)),
        ] + opt_str_entry("authKey"@, t.auth_key) + seq![("scope"@, JsonView::Str(scope_str(t.scope)))]
            + nonempty_entry("columns"@, t.columns.map_values(|c: ColumnSpecView| column_json(c))),
    )
}

pub open spec fn page_json(p: PageSpecView) -> JsonView {
    JsonView::Object(
        seq![("key"@, JsonView::Str(p.key)), ("type"@, JsonView::Str(page_type_str(p.type_)))]
            + opt_entry(
            "crdTable"@,
            match p.crd_table {
                Some(t) => Some(crd_table_json(t)),
                None => None,
            },
        ) + opt_entry(
            "iframe"@,
            match p.iframe {
                Some(f) => Some(iframe_json(f)),
                None => None,
            },
        ),
    )
}

pub open spec fn locale_json(table: Seq<(Seq<char>, Seq<char>)>) -> JsonView {
    JsonView::Object(table.map_values(|e: (Seq<char>, Seq<char>)| (e.0, JsonView::Str(e.1))))
}

pub open spec fn locales_json(l: Seq<(Seq<char>, Seq<(Seq<char>, Seq<char>)>)>) -> JsonView {
    JsonView::Object(l.map_values(|e: (Seq<char>, Seq<(Seq<char>, Seq<char>)>)| (e.0, locale_json(e.1))))
}

/// The JSON form of a spec: absent options, empty lists and empty locale tables left out.
pub open spec fn spec_json(s: FrontendIntegrationSpecView) -> JsonView {
    JsonView::Object(
        opt_str_entry("displayName"@, s.display_name) + (if s.locales.len() == 0 {
            Seq::empty()
        } else {
            seq![("locales"@, locales_json(s.locales))]
        }) + opt_bool_entry("enabled"@, s.enabled) + nonempty_entry(
            "menus"@,
            s.menus.map_values(|m: PrimaryMenuSpecView| primary_menu_json(m)),
        ) + nonempty_entry("pages"@, s.pages.map_values(|p: PageSpecView| page_json(p))) + opt_entry(
            "builder"@,
            match s.builder {
                Some(b) => Some(builder_json(b)),
                None => None,
            },
        ),
    )
}

/// The hash that identifies a build of a spec: the content hash of the canonical text of
/// the spec with its `enabled` flag cleared.
pub open spec fn spec_build_hash(s: FrontendIntegrationSpecView) -> Seq<char> {
    spec_content_hash(json_text(canonical(spec_json(spec_without_enabled(s)))))
}

// ---------------------------------------------------------------- the code
fn builder_to_json(b: &BuilderSpec) -> (j: JsonValue)
    ensures
        j@ == builder_json(b.deep_view()),
{
    let mut e = new_object();
    push_opt_str(&mut e, "engineVersion", &b.engine_version);
    assert(entries_view(e@) =~= opt_str_entry("engineVersion"@, b.deep_view().engine_version));
    finish_object(e)
}

fn secondary_menu_to_json(m: &SecondaryMenuSpec) -> (j: JsonValue)
    ensures
        j@ == secondary_menu_json(m.deep_view()),
{
    let mut e = new_object();
    push_entry(&mut e, "displayName", JsonValue::Str(m.display_name.clone()));
    push_entry(&mut e, "key", JsonValue::Str(m.key.clone()));
    assert(entries_view(e@) =~= seq![("displayName"@, JsonView::Str(m.display_name@)), ("key"@, JsonView::Str(m.key@))]);
    finish_object(e)
}

fn primary_menu_to_json(m: &PrimaryMenuSpec) -> (j: JsonValue)
    ensures
        j@ == primary_menu_json(m.deep_view()),
{
    let mv = Ghost(m.deep_view());
    let mut e = new_object();
    push_entry(&mut e, "displayName", JsonValue::Str(m.display_name.clone()));
    push_entry(&mut e, "key", JsonValue::Str(m.key.clone()));
    push_entry(&mut e, "placement", JsonValue::Str(String::from_str(m.placement.as_str())));
    push_entry(&mut e, "type", JsonValue::Str(String::from_str(menu_type_text(m.type_))));
    let ghost head = entries_view(e@);
    let mut children: Vec<JsonValue> = Vec::new();
    let mut i: usize = 0;
    while i < m.children.len()
        invariant
            i <= m.children@.len(),
            mv@ == m.deep_view(),
            children@.len() == i,
            forall|k: int| 0 <= k < i ==> #[trigger] json_view(children@[k]) == secondary_menu_json(mv@.children[k]),
        decreases m.children@.len() - i,
    {
        let c = secondary_menu_to_json(&m.children[i]);
        children.push(c);
        i += 1;
    }
    let ghost cv = mv@.children.map_values(|c: SecondaryMenuSpecView| secondary_menu_json(c));
    assert(items_view(children@) =~= cv);
    push_nonempty(&mut e, "children", children);
    assert(head =~= seq![
        ("displayName"@, JsonView::Str(mv@.display_name)),
        ("key"@, JsonView::Str(mv@.key)),
        ("placement"@, JsonView::Str(placement_str(mv@.placement))),
        ("type"@, JsonView::Str(menu_type_str(mv@.type_))),
    ]);
    finish_object(e)
}

fn iframe_to_json(f: &IframePageSpec) -> (j: JsonValue)
    ensures
        j@ == iframe_json(f.deep_view()),
{
    let mut e = new_object();
    push_entry(&mut e, "src", JsonValue::Str(f.src.clone()));
    assert(entries_view(e@) =~= seq![("src"@, JsonView::Str(f.src@))]);
    finish_object(e)
}

fn crd_names_to_json(n: &CrdNamesSpec) -> (j: JsonValue)
    ensures
        j@ == crd_names_json(n.deep_view()),
{
    let mut e = new_object();
    push_entry(&mut e, "kind", JsonValue::Str(n.kind.clone()));
    push_entry(&mut e, "plural", JsonValue::Str(n.plural.clone()));
    assert(entries_view(e@) =~= seq![("kind"@, JsonView::Str(n.kind@)), ("plural"@, JsonView::Str(n.plural@))]);
    finish_object(e)
}

fn render_to_json(r: &ColumnRenderSpec) -> (j: JsonValue)
    ensures
        j@ == render_json(r.deep_view()),
{
    let rv = Ghost(r.deep_view());
    let mut e = new_object();
    push_entry(&mut e, "type", JsonValue::Str(String::from_str(render_type_str(&r.type_))));
    push_entry(&mut e, "path", JsonValue::Str(r.path.clone()));
    let ghost head = entries_view(e@);
    push_opt_str(&mut e, "format", &r.format);
    push_opt_str(&mut e, "pattern", &r.pattern);
    push_opt_str(&mut e, "link", &r.link);
    let ghost before = entries_view(e@);
    match &r.payload {
        Some(p) => {
            let c = clone_entries(p);
            proof {
                crate::json::lemma_object_view(c);
                assert(p.deep_view() =~= entries_view(p@));
            }
            push_entry(&mut e, "payload", JsonValue::Object(c));
        },
        None => {
            assert(entries_view(e@) =~= before + Seq::<(Seq<char>, JsonView)>::empty());
        },
    }
    assert(head =~= seq![("type"@, JsonView::Str(spec_render_type_str(rv@.type_))), ("path"@, JsonView::Str(rv@.path))]);
    assert(entries_view(e@) =~= seq![("type"@, JsonView::Str(spec_render_type_str(rv@.type_))), ("path"@, JsonView::Str(rv@.path))]
        + opt_str_entry("format"@, rv@.format) + opt_str_entry("pattern"@, rv@.pattern) + opt_str_entry("link"@, rv@.link)
        + opt_entry(
        "payload"@,
        match rv@.payload {
            Some(p) => Some(JsonView::Object(p)),
            None => None,
        },
    ));
    finish_object(e)
}

fn column_to_json(c: &ColumnSpec) -> (j: JsonValue)
    ensures
        j@ == column_json(c.deep_view()),
{
    let cv = Ghost(c.deep_view());
    let mut e = new_object();
    push_entry(&mut e, "key", JsonValue::Str(c.key.clone()));
    push_entry(&mut e, "title", JsonValue::Str(c.title.clone()));
    push_entry(&mut e, "render", render_to_json(&c.render));
    let ghost head = entries_view(e@);
    push_opt_bool(&mut e, "enableSorting", c.enable_sorting);
    push_opt_bool(&mut e, "enableHiding", c.enable_hiding);
    assert(head =~= seq![
        ("key"@, JsonView::Str(cv@.key)),
        ("title"@, JsonView::Str(cv@.title)),
        ("render"@, render_json(cv@.render)),
    ]);
    assert(entries_view(e@) =~= head + opt_bool_entry("enableSorting"@, cv@.enable_sorting) + opt_bool_entry(
        "enableHiding"@,
        cv@.enable_hiding,
    ));
    finish_object(e)
}

fn crd_table_to_json(t: &CrdTablePageSpec) -> (j: JsonValue)
    ensures
        j@ == crd_table_json(t.deep_view()),
{
    let tv = Ghost(t.deep_view());
    let mut e = new_object();
    push_entry(&mut e, "names", crd_names_to_json(&t.names));
    push_entry(&mut e, "group", JsonValue::Str(t.group.clone()));
    push_entry(&mut e, "version", JsonValue::Str(t.version.clone()));
    let ghost head = entries_view(e@);
    push_opt_str(&mut e, "authKey", &t.auth_key);
    let ghost with_auth = entries_view(e@);
    push_entry(&mut e, "scope", JsonValue::Str(String::from_str(scope_text(t.scope))));
    let ghost with_scope = entries_view(e@);
    let mut columns: Vec<JsonValue> = Vec::new();
    let mut i: usize = 0;
    while i < t.columns.len()
        invariant
            i <= t.columns@.len(),
            tv@ == t.deep_view(),
            columns@.len() == i,
            forall|k: int| 0 <= k < i ==> #[trigger] json_view(columns@[k]) == column_json(tv@.columns[k]),
        decreases t.columns@.len() - i,
    {
        let c = column_to_json(&t.columns[i]);
        columns.push(c);
        i += 1;
    }
    let ghost colv = tv@.columns.map_values(|c: ColumnSpecView| column_json(c));
    assert(items_view(columns@) =~= colv);
    push_nonempty(&mut e, "columns", columns);
    assert(head =~= seq![
        ("names"@, crd_names_json(tv@.names)),
        ("group"@, JsonView::Str(tv@.group)),
        ("version"@, JsonView::Str(tv@.version)),
    ]);
    assert(with_scope =~= head + opt_str_entry("authKey"@, tv@.auth_key) + seq![("scope"@, JsonView::Str(scope_str(tv@.scope)))]);
    finish_object(e)
}

fn page_to_json(p: &PageSpec) -> (j: JsonValue)
    ensures
        j@ == page_json(p.deep_view()),
{
    let pv = Ghost(p.deep_view());
    let mut e = new_object();
    push_entry(&mut e, "key", JsonValue::Str(p.key.clone()));
    push_entry(&mut e, "type", JsonValue::Str(String::from_str(page_type_text(p.type_))));
    let ghost head = entries_view(e@);
    match &p.crd_table {
        Some(t) => push_entry(&mut e, "crdTable", crd_table_to_json(t)),
        None => {},
    }
    let ghost mid = entries_view(e@);
    assert(mid =~= head + opt_entry(
        "crdTable"@,
        match pv@.crd_table {
            Some(t) => Some(crd_table_json(t)),
            None => None,
        },
    ));
    match &p.iframe {
        Some(f) => push_entry(&mut e, "iframe", iframe_to_json(f)),
        None => {},
    }
    assert(entries_view(e@) =~= mid + opt_entry(
        "iframe"@,
        match pv@.iframe {
            Some(f) => Some(iframe_json(f)),
            None => None,
        },
    ));
    assert(head =~= seq![("key"@, JsonView::Str(pv@.key)), ("type"@, JsonView::Str(page_type_str(pv@.type_)))]);
    finish_object(e)
}

fn locale_to_json(table: &Vec<(String, String)>) -> (j: JsonValue)
    ensures
        j@ == locale_json(table.deep_view()),
{
    let ghost tv = table.deep_view();
    let mut e = new_object();
    let mut i: usize = 0;
    while i < table.len()
        invariant
            i <= table@.len(),
            tv == table.deep_view(),
            entries_view(e@) =~= tv.subrange(0, i as int).map_values(
                |x: (Seq<char>, Seq<char>)| (x.0, JsonView::Str(x.1)),
            ),
        decreases table@.len() - i,
    {
        push_entry(&mut e, table[i].0.as_str(), JsonValue::Str(table[i].1.clone()));
        proof {
            assert(tv[i as int] == (table@[i as int].0@, table@[i as int].1@));
            assert(tv.subrange(0, i + 1).map_values(|x: (Seq<char>, Seq<char>)| (x.0, JsonView::Str(x.1)))
                =~= tv.subrange(0, i as int).map_values(|x: (Seq<char>, Seq<char>)| (x.0, JsonView::Str(x.1))).push(
                (tv[i as int].0, JsonView::Str(tv[i as int].1)),
            ));
        }
        i += 1;
    }
    assert(tv.subrange(0, table@.len() as int) =~= tv);
    finish_object(e)
}

fn locales_to_json(l: &Vec<(String, Vec<(String, String)>)>) -> (j: JsonValue)
    ensures
        j@ == locales_json(l.deep_view()),
{
    let ghost lv = l.deep_view();
    let mut e = new_object();
    let mut i: usize = 0;
    while i < l.len()
        invariant
            i <= l@.len(),
            lv == l.deep_view(),
            entries_view(e@) =~= lv.subrange(0, i as int).map_values(
                |x: (Seq<char>, Seq<(Seq<char>, Seq<char>)>)| (x.0, locale_json(x.1)),
            ),
        decreases l@.len() - i,
    {
        let inner = locale_to_json(&l[i].1);
        push_entry(&mut e, l[i].0.as_str(), inner);
        proof {
            assert(lv[i as int] == (l@[i as int].0@, l@[i as int].1.deep_view()));
            assert(lv.subrange(0, i + 1).map_values(
                |x: (Seq<char>, Seq<(Seq<char>, Seq<char>)>)| (x.0, locale_json(x.1)),
            ) =~= lv.subrange(0, i as int).map_values(
                |x: (Seq<char>, Seq<(Seq<char>, Seq<char>)>)| (x.0, locale_json(x.1)),
            ).push((lv[i as int].0, locale_json(lv[i as int].1))));
        }
        i += 1;
    }
    assert(lv.subrange(0, l@.len() as int) =~= lv);
    finish_object(e)
}

/// The JSON form of a spec.
pub fn spec_to_json(s: &FrontendIntegrationSpec) -> (j: JsonValue)
    ensures
        j@ == spec_json(s.deep_view()),
{
    let sv = Ghost(s.deep_view());
    let mut e = new_object();
    push_opt_str(&mut e, "displayName", &s.display_name);
    let ghost e1 = entries_view(e@);
    if s.locales.len() > 0 {
        push_entry(&mut e, "locales", locales_to_json(&s.locales));
    }
    let ghost e2 = entries_view(e@);
    assert(e2 =~= e1 + (if sv@.locales.len() == 0 {
        Seq::<(Seq<char>, JsonView)>::empty()
    } else {
        seq![("locales"@, locales_json(sv@.locales))]
    }));
    push_opt_bool(&mut e, "enabled", s.enabled);
    let mut menus: Vec<JsonValue> = Vec::new();
    let mut i: usize = 0;
    while i < s.menus.len()
        invariant
            i <= s.menus@.len(),
            sv@ == s.deep_view(),
            menus@.len() == i,
            forall|k: int| 0 <= k < i ==> #[trigger] json_view(menus@[k]) == primary_menu_json(sv@.menus[k]),
        decreases s.menus@.len() - i,
    {
        let m = primary_menu_to_json(&s.menus[i]);
        menus.push(m);
        i += 1;
    }
    assert(items_view(menus@) =~= sv@.menus.map_values(|m: PrimaryMenuSpecView| primary_menu_json(m)));
    push_nonempty(&mut e, "menus", menus);
    let mut pages: Vec<JsonValue> = Vec::new();
    let mut i: usize = 0;
    while i < s.pages.len()
        invariant
            i <= s.pages@.len(),
            sv@ == s.deep_view(),
            pages@.len() == i,
            forall|k: int| 0 <= k < i ==> #[trigger] json_view(pages@[k]) == page_json(sv@.pages[k]),
        decreases s.pages@.len() - i,
    {
        let p = page_to_json(&s.pages[i]);
        pages.push(p);
        i += 1;
    }
    assert(items_view(pages@) =~= sv@.pages.map_values(|p: PageSpecView| page_json(p)));
    push_nonempty(&mut e, "pages", pages);
    let ghost e5 = entries_view(e@);
    match &s.builder {
        Some(b) => push_entry(&mut e, "builder", builder_to_json(b)),
        None => {},
    }
    assert(entries_view(e@) =~= e5 + opt_entry(
        "builder"@,
        match sv@.builder {
            Some(b) => Some(builder_json(b)),
            None => None,
        },
    ));
    finish_object(e)
}

/// The spec hash of an integration: the content hash of the canonical JSON text of its spec
/// without the `enabled` flag.
pub fn build_spec_hash(fi: &FrontendIntegration) -> (h: String)
    ensures
        h@ == spec_build_hash(fi.spec.deep_view()),
{
    let spec = fi.spec.without_enabled();
    let j = spec_to_json(&spec);
    let text = canonical_text(&j);
    content_hash(text.as_str())
}

/// Turning an integration on or off does not change its spec hash: two specs that differ at
/// most in `enabled` hash alike.
pub proof fn law_spec_hash_ignores_enabled(a: FrontendIntegrationSpecView, b: FrontendIntegrationSpecView)
    requires
        spec_without_enabled(a) == spec_without_enabled(b),
    ensures
        spec_build_hash(a) == spec_build_hash(b),
{
}

/// The JSON that the spec hash is computed over carries no `enabled` entry.
pub proof fn law_hashed_json_has_no_enabled(s: FrontendIntegrationSpecView)
    ensures
        spec_json(spec_without_enabled(s)) matches JsonView::Object(e) && forall|i: int|
            0 <= i < e.len() ==> #[trigger] e[i].0 != "enabled"@,
{
    let w = spec_without_enabled(s);
    if let JsonView::Object(e) = spec_json(w) {
        assert forall|i: int| 0 <= i < e.len() implies #[trigger] e[i].0 != "enabled"@ by {
            let a = opt_str_entry("displayName"@, w.display_name);
            let l: Seq<(Seq<char>, JsonView)> = if w.locales.len() == 0 {
                Seq::empty()
            } else {
                seq![("locales"@, locales_json(w.locales))]
            };
            let m = nonempty_entry("menus"@, w.menus.map_values(|m: PrimaryMenuSpecView| primary_menu_json(m)));
            let p = nonempty_entry("pages"@, w.pages.map_values(|p: PageSpecView| page_json(p)));
            let bld = opt_entry(
                "builder"@,
                match w.builder {
                    Some(b) => Some(builder_json(b)),
                    None => None,
                },
            );
            assert(e =~= a + l + Seq::<(Seq<char>, JsonView)>::empty() + m + p + bld);
            reveal_strlit("enabled");
            reveal_strlit("displayName");
            reveal_strlit("locales");
            reveal_strlit("menus");
            reveal_strlit("pages");
            reveal_strlit("builder");
            assert("enabled"@[0] == 'e');
            assert("displayName"@[0] == 'd');
            assert("locales"@[0] == 'l');
            assert("menus"@[0] == 'm');
            assert("pages"@[0] == 'p');
            assert("builder"@[0] == 'b');
        }
    }
}

// ---------------------------------------------------------------- nothing but `enabled` is lost
/// The value of the first entry with key `k`.
pub open spec fn entry_value(e: Seq<(Seq<char>, JsonView)>, k: Seq<char>) -> Option<JsonView>
    decreases e.len(),
{
    if e.len() == 0 {
        None
    } else if e[0].0 == k {
        Some(e[0].1)
    } else {
        entry_value(e.drop_first(), k)
    }
}

proof fn lemma_ev_concat(x: Seq<(Seq<char>, JsonView)>, y: Seq<(Seq<char>, JsonView)>, k: Seq<char>)
    ensures
        entry_value(x + y, k) == (if entry_value(x, k) is Some {
            entry_value(x, k)
        } else {
            entry_value(y, k)
        }),
    decreases x.len(),
{
    if x.len() == 0 {
        assert(x + y =~= y);
    } else {
        assert((x + y).drop_first() =~= x.drop_first() + y);
        assert((x + y)[0] == x[0]);
        lemma_ev_concat(x.drop_first(), y, k);
    }
}

proof fn lemma_ev_piece(p: Seq<(Seq<char>, JsonView)>, k: Seq<char>)
    requires
        p.len() <= 1,
    ensures
        entry_value(p, k) == (if p.len() == 1 && p[0].0 == k {
            Some(p[0].1)
        } else {
            None::<JsonView>
        }),
{
    if p.len() == 1 {
        assert(p.drop_first().len() == 0);
        assert(entry_value(p.drop_first(), k) is None);
    }
}

proof fn lemma_differ(a: Seq<char>, b: Seq<char>, i: int)
    requires
        a.len() != b.len() || (0 <= i < a.len() && i < b.len() && a[i] != b[i]),
    ensures
        a != b,
{
}

proof fn lemma_ev_absent(e: Seq<(Seq<char>, JsonView)>, k: Seq<char>)
    requires
        forall|i: int| 0 <= i < e.len() ==> #[trigger] e[i].0 != k,
    ensures
        entry_value(e, k) is None,
    decreases e.len(),
{
    if e.len() > 0 {
        assert forall|i: int| 0 <= i < e.drop_first().len() implies #[trigger] e.drop_first()[i].0 != k by {
            assert(e.drop_first()[i] == e[i + 1]);
        }
        lemma_ev_absent(e.drop_first(), k);
    }
}

/// The value a present string option writes.
pub open spec fn str_value(o: Option<Seq<char>>) -> Option<JsonView> {
    match o {
        Some(v) => Some(JsonView::Str(v)),
        None => None,
    }
}

pub open spec fn bool_value(o: Option<bool>) -> Option<JsonView> {
    match o {
        Some(b) => Some(JsonView::Bool(b)),
        None => None,
    }
}

pub open spec fn list_value(items: Seq<JsonView>) -> Option<JsonView> {
    if items.len() == 0 {
        None
    } else {
        Some(JsonView::Array(items))
    }
}

proof fn lemma_str_value_injective(a: Option<Seq<char>>, b: Option<Seq<char>>)
    requires
        str_value(a) == str_value(b),
    ensures
        a == b,
{
}

proof fn lemma_bool_value_injective(a: Option<bool>, b: Option<bool>)
    requires
        bool_value(a) == bool_value(b),
    ensures
        a == b,
{
}

proof fn lemma_enum_names_distinct()
    ensures
        menu_type_str(MenuNodeType::Page) != menu_type_str(MenuNodeType::Organization),
        page_type_str(PageType::CrdTable) != page_type_str(PageType::Iframe),
        scope_str(CrdScope::Namespaced) != scope_str(CrdScope::Cluster),
        spec_render_type_str(ColumnRenderType::Text) != spec_render_type_str(ColumnRenderType::Time),
        spec_render_type_str(ColumnRenderType::Text) != spec_render_type_str(ColumnRenderType::Link),
        spec_render_type_str(ColumnRenderType::Time) != spec_render_type_str(ColumnRenderType::Link),
        placement_str(MenuPlacement::Global) != placement_str(MenuPlacement::Workspace),
        placement_str(MenuPlacement::Global) != placement_str(MenuPlacement::Cluster),
        placement_str(MenuPlacement::Workspace) != placement_str(MenuPlacement::Cluster),
{
    reveal_strlit("page");
    reveal_strlit("organization");
    reveal_strlit("crdTable");
    reveal_strlit("iframe");
    reveal_strlit("Namespaced");
    reveal_strlit("Cluster");
    reveal_strlit("text");
    reveal_strlit("time");
    reveal_strlit("link");
    reveal_strlit("global");
    reveal_strlit("workspace");
    reveal_strlit("cluster");
    lemma_differ("page"@, "organization"@, 0);
    lemma_differ("crdTable"@, "iframe"@, 0);
    lemma_differ("Namespaced"@, "Cluster"@, 0);
    lemma_differ("text"@, "time"@, 1);
    lemma_differ("text"@, "link"@, 0);
    lemma_differ("time"@, "link"@, 0);
    lemma_differ("global"@, "workspace"@, 0);
    lemma_differ("global"@, "cluster"@, 0);
    lemma_differ("workspace"@, "cluster"@, 0);
}

proof fn lemma_secondary_menu_json_injective(a: SecondaryMenuSpecView, b: SecondaryMenuSpecView)
    requires
        secondary_menu_json(a) == secondary_menu_json(b),
    ensures
        a == b,
{
    if let (JsonView::Object(ea), JsonView::Object(eb)) = (secondary_menu_json(a), secondary_menu_json(b)) {
        assert(ea[0] == eb[0] && ea[1] == eb[1]);
    }
}

proof fn lemma_seq_map_injective<A, B>(a: Seq<A>, b: Seq<A>, f: spec_fn(A) -> B)
    requires
        a.map_values(f) == b.map_values(f),
        forall|x: A, y: A| #[trigger] f(x) == #[trigger] f(y) ==> x == y,
    ensures
        a == b,
{
    assert(a.len() == a.map_values(f).len());
    assert forall|i: int| 0 <= i < a.len() implies a[i] == b[i] by {
        assert(a.map_values(f)[i] == f(a[i]));
        assert(b.map_values(f)[i] == f(b[i]));
    }
    assert(a =~= b);
}

proof fn lemma_primary_menu_json_injective(a: PrimaryMenuSpecView, b: PrimaryMenuSpecView)
    requires
        primary_menu_json(a) == primary_menu_json(b),
    ensures
        a == b,
{
    lemma_enum_names_distinct();
    let f = |c: SecondaryMenuSpecView| secondary_menu_json(c);
    let ca = a.children.map_values(f);
    let cb = b.children.map_values(f);
    if let (JsonView::Object(ea), JsonView::Object(eb)) = (primary_menu_json(a), primary_menu_json(b)) {
        assert(ea[0] == eb[0] && ea[1] == eb[1] && ea[2] == eb[2] && ea[3] == eb[3]);
        assert(a.placement == b.placement);
        assert(a.type_ == b.type_);
        assert(ea.len() == eb.len());
        if ca.len() != 0 {
            assert(ea[4] == eb[4]);
        }
        assert(ca.len() == a.children.len() && cb.len() == b.children.len());
        assert(ca == cb);
        assert forall|x: SecondaryMenuSpecView, y: SecondaryMenuSpecView| #[trigger] f(x) == #[trigger] f(y) implies x == y by {
            lemma_secondary_menu_json_injective(x, y);
        }
        lemma_seq_map_injective(a.children, b.children, f);
    }
}

/// The entries of an object, none for any other value.
pub open spec fn obj_entries(j: JsonView) -> Seq<(Seq<char>, JsonView)> {
    match j {
        JsonView::Object(e) => e,
        _ => Seq::empty(),
    }
}

pub open spec fn payload_value(p: Option<Seq<(Seq<char>, JsonView)>>) -> Option<JsonView> {
    match p {
        Some(e) => Some(JsonView::Object(e)),
        None => None,
    }
}

proof fn lemma_render_keys_distinct()
    ensures
        "type"@ != "format"@, "type"@ != "pattern"@, "type"@ != "link"@, "type"@ != "payload"@,
        "path"@ != "format"@, "path"@ != "pattern"@, "path"@ != "link"@, "path"@ != "payload"@,
        "format"@ != "pattern"@, "format"@ != "link"@, "format"@ != "payload"@,
        "pattern"@ != "link"@, "pattern"@ != "payload"@, "link"@ != "payload"@,
{
    reveal_strlit("type");
    reveal_strlit("path");
    reveal_strlit("format");
    reveal_strlit("pattern");
    reveal_strlit("link");
    reveal_strlit("payload");
    assert("type"@.len() == 4 && "path"@.len() == 4 && "format"@.len() == 6 && "pattern"@.len() == 7);
    assert("link"@.len() == 4 && "payload"@.len() == 7);
    lemma_differ("type"@, "format"@, 0);
    lemma_differ("type"@, "pattern"@, 0);
    lemma_differ("type"@, "link"@, 0);
    lemma_differ("type"@, "payload"@, 0);
    lemma_differ("path"@, "format"@, 0);
    lemma_differ("path"@, "pattern"@, 2);
    lemma_differ("path"@, "link"@, 0);
    lemma_differ("path"@, "payload"@, 2);
    lemma_differ("format"@, "pattern"@, 0);
    lemma_differ("format"@, "link"@, 0);
    lemma_differ("format"@, "payload"@, 0);
    lemma_differ("pattern"@, "link"@, 0);
    lemma_differ("pattern"@, "payload"@, 2);
    lemma_differ("link"@, "payload"@, 0);
}

proof fn lemma_render_lookup(r: ColumnRenderSpecView, q: Seq<char>)
    requires
        q == "format"@ || q == "pattern"@ || q == "link"@ || q == "payload"@,
    ensures
        entry_value(obj_entries(render_json(r)), q) == (if q == "format"@ {
            str_value(r.format)
        } else if q == "pattern"@ {
            str_value(r.pattern)
        } else if q == "link"@ {
            str_value(r.link)
        } else {
            payload_value(r.payload)
        }),
{
    lemma_render_keys_distinct();
    let head = seq![("type"@, JsonView::Str(spec_render_type_str(r.type_))), ("path"@, JsonView::Str(r.path))];
    let f = opt_str_entry("format"@, r.format);
    let pt = opt_str_entry("pattern"@, r.pattern);
    let l = opt_str_entry("link"@, r.link);
    let py = opt_entry("payload"@, payload_value(r.payload));
    assert(obj_entries(render_json(r)) == head + f + pt + l + py);
    lemma_ev_concat(head + f + pt + l, py, q);
    lemma_ev_concat(head + f + pt, l, q);
    lemma_ev_concat(head + f, pt, q);
    lemma_ev_concat(head, f, q);
    lemma_ev_absent(head, q);
    lemma_ev_piece(f, q);
    lemma_ev_piece(pt, q);
    lemma_ev_piece(l, q);
    lemma_ev_piece(py, q);
}

proof fn lemma_render_json_injective(a: ColumnRenderSpecView, b: ColumnRenderSpecView)
    requires
        render_json(a) == render_json(b),
    ensures
        a == b,
{
    lemma_enum_names_distinct();
    let ea = obj_entries(render_json(a));
    let eb = obj_entries(render_json(b));
    assert(ea[0] == eb[0] && ea[1] == eb[1]);
    assert(a.type_ == b.type_);
    lemma_render_lookup(a, "format"@);
    lemma_render_lookup(b, "format"@);
    lemma_render_lookup(a, "pattern"@);
    lemma_render_lookup(b, "pattern"@);
    lemma_render_lookup(a, "link"@);
    lemma_render_lookup(b, "link"@);
    lemma_render_lookup(a, "payload"@);
    lemma_render_lookup(b, "payload"@);
    lemma_render_keys_distinct();
    lemma_str_value_injective(a.format, b.format);
    lemma_str_value_injective(a.pattern, b.pattern);
    lemma_str_value_injective(a.link, b.link);
}

proof fn lemma_builder_json_injective(a: BuilderSpecView, b: BuilderSpecView)
    requires
        builder_json(a) == builder_json(b),
    ensures
        a == b,
{
    let ea = obj_entries(builder_json(a));
    let eb = obj_entries(builder_json(b));
    assert(ea.len() == eb.len());
    assert(ea.len() == (if a.engine_version is Some { 1int } else { 0int }));
    assert(eb.len() == (if b.engine_version is Some { 1int } else { 0int }));
    if a.engine_version is Some {
        assert(ea[0] == eb[0]);
    }
}

proof fn lemma_iframe_json_injective(a: IframePageSpecView, b: IframePageSpecView)
    requires
        iframe_json(a) == iframe_json(b),
    ensures
        a == b,
{
    assert(obj_entries(iframe_json(a))[0] == obj_entries(iframe_json(b))[0]);
}

proof fn lemma_crd_names_json_injective(a: CrdNamesSpecView, b: CrdNamesSpecView)
    requires
        crd_names_json(a) == crd_names_json(b),
    ensures
        a == b,
{
    let ea = obj_entries(crd_names_json(a));
    let eb = obj_entries(crd_names_json(b));
    assert(ea[0] == eb[0] && ea[1] == eb[1]);
}

proof fn lemma_column_keys_distinct()
    ensures
        "key"@ != "enableSorting"@, "title"@ != "enableSorting"@, "render"@ != "enableSorting"@,
        "key"@ != "enableHiding"@, "title"@ != "enableHiding"@, "render"@ != "enableHiding"@,
        "enableSorting"@ != "enableHiding"@,
{
    reveal_strlit("key");
    reveal_strlit("title");
    reveal_strlit("render");
    reveal_strlit("enableSorting");
    reveal_strlit("enableHiding");
    assert("key"@.len() == 3 && "title"@.len() == 5 && "render"@.len() == 6);
    assert("enableSorting"@.len() == 13 && "enableHiding"@.len() == 12);
}

proof fn lemma_column_lookup(c: ColumnSpecView, q: Seq<char>)
    requires
        q == "enableSorting"@ || q == "enableHiding"@,
    ensures
        entry_value(obj_entries(column_json(c)), q) == (if q == "enableSorting"@ {
            bool_value(c.enable_sorting)
        } else {
            bool_value(c.enable_hiding)
        }),
{
    lemma_column_keys_distinct();
    let head = seq![
        ("key"@, JsonView::Str(c.key)),
        ("title"@, JsonView::Str(c.title)),
        ("render"@, render_json(c.render)),
    ];
    let so = opt_bool_entry("enableSorting"@, c.enable_sorting);
    let hi = opt_bool_entry("enableHiding"@, c.enable_hiding);
    assert(obj_entries(column_json(c)) == head + so + hi);
    lemma_ev_concat(head + so, hi, q);
    lemma_ev_concat(head, so, q);
    lemma_ev_absent(head, q);
    lemma_ev_piece(so, q);
    lemma_ev_piece(hi, q);
}

proof fn lemma_column_json_injective(a: ColumnSpecView, b: ColumnSpecView)
    requires
        column_json(a) == column_json(b),
    ensures
        a == b,
{
    let ea = obj_entries(column_json(a));
    let eb = obj_entries(column_json(b));
    assert(ea[0] == eb[0] && ea[1] == eb[1] && ea[2] == eb[2]);
    lemma_render_json_injective(a.render, b.render);
    lemma_column_keys_distinct();
    lemma_column_lookup(a, "enableSorting"@);
    lemma_column_lookup(b, "enableSorting"@);
    lemma_column_lookup(a, "enableHiding"@);
    lemma_column_lookup(b, "enableHiding"@);
    lemma_bool_value_injective(a.enable_sorting, b.enable_sorting);
    lemma_bool_value_injective(a.enable_hiding, b.enable_hiding);
}

proof fn lemma_list_value_map_injective<A>(a: Seq<A>, b: Seq<A>, f: spec_fn(A) -> JsonView)
    requires
        list_value(a.map_values(f)) == list_value(b.map_values(f)),
        forall|x: A, y: A| #[trigger] f(x) == #[trigger] f(y) ==> x == y,
    ensures
        a == b,
{
    if a.len() == 0 && b.len() == 0 {
        assert(a =~= b);
    } else {
        assert(a.map_values(f).len() == a.len() && b.map_values(f).len() == b.len());
        lemma_seq_map_injective(a, b, f);
    }
}

proof fn lemma_crd_table_keys_distinct()
    ensures
        "names"@ != "authKey"@, "group"@ != "authKey"@, "version"@ != "authKey"@,
        "names"@ != "scope"@, "group"@ != "scope"@, "version"@ != "scope"@, "authKey"@ != "scope"@,
        "names"@ != "columns"@, "group"@ != "columns"@, "version"@ != "columns"@, "authKey"@ != "columns"@,
        "scope"@ != "columns"@,
{
    reveal_strlit("names");
    reveal_strlit("group");
    reveal_strlit("version");
    reveal_strlit("authKey");
    reveal_strlit("scope");
    reveal_strlit("columns");
    assert("names"@.len() == 5 && "group"@.len() == 5 && "scope"@.len() == 5);
    assert("version"@.len() == 7 && "authKey"@.len() == 7 && "columns"@.len() == 7);
    lemma_differ("names"@, "scope"@, 0);
    lemma_differ("group"@, "scope"@, 0);
    lemma_differ("version"@, "authKey"@, 0);
    lemma_differ("version"@, "columns"@, 0);
    lemma_differ("authKey"@, "columns"@, 0);
}

proof fn lemma_crd_table_lookup(t: CrdTablePageSpecView, q: Seq<char>)
    requires
        q == "authKey"@ || q == "scope"@ || q == "columns"@,
    ensures
        entry_value(obj_entries(crd_table_json(t)), q) == (if q == "authKey"@ {
            str_value(t.auth_key)
        } else if q == "scope"@ {
            Some(JsonView::Str(scope_str(t.scope)))
        } else {
            list_value(t.columns.map_values(|c: ColumnSpecView| column_json(c)))
        }),
{
    lemma_crd_table_keys_distinct();
    let head = seq![
        ("names"@, crd_names_json(t.names)),
        ("group"@, JsonView::Str(t.group)),
        ("version"@, JsonView::Str(t.version)),
    ];
    let au = opt_str_entry("authKey"@, t.auth_key);
    let sc = seq![("scope"@, JsonView::Str(scope_str(t.scope)))];
    let co = nonempty_entry("columns"@, t.columns.map_values(|c: ColumnSpecView| column_json(c)));
    assert(obj_entries(crd_table_json(t)) == head + au + sc + co);
    lemma_ev_concat(head + au + sc, co, q);
    lemma_ev_concat(head + au, sc, q);
    lemma_ev_concat(head, au, q);
    lemma_ev_absent(head, q);
    lemma_ev_piece(au, q);
    lemma_ev_piece(sc, q);
    lemma_ev_piece(co, q);
}

proof fn lemma_crd_table_json_injective(a: CrdTablePageSpecView, b: CrdTablePageSpecView)
    requires
        crd_table_json(a) == crd_table_json(b),
    ensures
        a == b,
{
    let ea = obj_entries(crd_table_json(a));
    let eb = obj_entries(crd_table_json(b));
    assert(ea[0] == eb[0] && ea[1] == eb[1] && ea[2] == eb[2]);
    lemma_crd_names_json_injective(a.names, b.names);
    lemma_crd_table_keys_distinct();
    lemma_enum_names_distinct();
    lemma_crd_table_lookup(a, "authKey"@);
    lemma_crd_table_lookup(b, "authKey"@);
    lemma_crd_table_lookup(a, "scope"@);
    lemma_crd_table_lookup(b, "scope"@);
    lemma_crd_table_lookup(a, "columns"@);
    lemma_crd_table_lookup(b, "columns"@);
    lemma_str_value_injective(a.auth_key, b.auth_key);
    let f = |c: ColumnSpecView| column_json(c);
    assert forall|x: ColumnSpecView, y: ColumnSpecView| #[trigger] f(x) == #[trigger] f(y) implies x == y by {
        lemma_column_json_injective(x, y);
    }
    lemma_list_value_map_injective(a.columns, b.columns, f);
}

proof fn lemma_page_keys_distinct()
    ensures
        "key"@ != "crdTable"@, "type"@ != "crdTable"@, "key"@ != "iframe"@, "type"@ != "iframe"@,
        "crdTable"@ != "iframe"@,
{
    reveal_strlit("key");
    reveal_strlit("type");
    reveal_strlit("crdTable");
    reveal_strlit("iframe");
    assert("key"@.len() == 3 && "type"@.len() == 4 && "crdTable"@.len() == 8 && "iframe"@.len() == 6);
}

pub open spec fn crd_table_value(t: Option<CrdTablePageSpecView>) -> Option<JsonView> {
    match t {
        Some(x) => Some(crd_table_json(x)),
        None => None,
    }
}

pub open spec fn iframe_value(f: Option<IframePageSpecView>) -> Option<JsonView> {
    match f {
        Some(x) => Some(iframe_json(x)),
        None => None,
    }
}

proof fn lemma_page_lookup(p: PageSpecView, q: Seq<char>)
    requires
        q == "crdTable"@ || q == "iframe"@,
    ensures
        entry_value(obj_entries(page_json(p)), q) == (if q == "crdTable"@ {
            crd_table_value(p.crd_table)
        } else {
            iframe_value(p.iframe)
        }),
{
    lemma_page_keys_distinct();
    let head = seq![("key"@, JsonView::Str(p.key)), ("type"@, JsonView::Str(page_type_str(p.type_)))];
    let ct = opt_entry("crdTable"@, crd_table_value(p.crd_table));
    let fr = opt_entry("iframe"@, iframe_value(p.iframe));
    assert(obj_entries(page_json(p)) == head + ct + fr);
    lemma_ev_concat(head + ct, fr, q);
    lemma_ev_concat(head, ct, q);
    lemma_ev_absent(head, q);
    lemma_ev_piece(ct, q);
    lemma_ev_piece(fr, q);
}

proof fn lemma_page_json_injective(a: PageSpecView, b: PageSpecView)
    requires
        page_json(a) == page_json(b),
    ensures
        a == b,
{
    let ea = obj_entries(page_json(a));
    let eb = obj_entries(page_json(b));
    assert(ea[0] == eb[0] && ea[1] == eb[1]);
    lemma_enum_names_distinct();
    assert(a.type_ == b.type_);
    lemma_page_keys_distinct();
    lemma_page_lookup(a, "crdTable"@);
    lemma_page_lookup(b, "crdTable"@);
    lemma_page_lookup(a, "iframe"@);
    lemma_page_lookup(b, "iframe"@);
    if a.crd_table is Some && b.crd_table is Some {
        lemma_crd_table_json_injective(a.crd_table.unwrap(), b.crd_table.unwrap());
    }
    if a.iframe is Some && b.iframe is Some {
        lemma_iframe_json_injective(a.iframe.unwrap(), b.iframe.unwrap());
    }
}

proof fn lemma_locales_json_injective(
    a: Seq<(Seq<char>, Seq<(Seq<char>, Seq<char>)>)>,
    b: Seq<(Seq<char>, Seq<(Seq<char>, Seq<char>)>)>,
)
    requires
        locales_json(a) == locales_json(b),
    ensures
        a == b,
{
    let g = |e: (Seq<char>, Seq<char>)| (e.0, JsonView::Str(e.1));
    let f = |e: (Seq<char>, Seq<(Seq<char>, Seq<char>)>)| (e.0, locale_json(e.1));
    assert forall|x: (Seq<char>, Seq<char>), y: (Seq<char>, Seq<char>)| #[trigger] g(x) == #[trigger] g(y) implies x == y by {
    }
    assert forall|x: (Seq<char>, Seq<(Seq<char>, Seq<char>)>), y: (Seq<char>, Seq<(Seq<char>, Seq<char>)>)|
        #[trigger] f(x) == #[trigger] f(y) implies x == y by {
        lemma_seq_map_injective(x.1, y.1, g);
    }
    lemma_seq_map_injective(a, b, f);
}

proof fn lemma_spec_keys_distinct()
    ensures
        "displayName"@ != "locales"@, "displayName"@ != "enabled"@, "displayName"@ != "menus"@,
        "displayName"@ != "pages"@, "displayName"@ != "builder"@, "locales"@ != "enabled"@,
        "locales"@ != "menus"@, "locales"@ != "pages"@, "locales"@ != "builder"@, "enabled"@ != "menus"@,
        "enabled"@ != "pages"@, "enabled"@ != "builder"@, "menus"@ != "pages"@, "menus"@ != "builder"@,
        "pages"@ != "builder"@,
{
    reveal_strlit("displayName");
    reveal_strlit("locales");
    reveal_strlit("enabled");
    reveal_strlit("menus");
    reveal_strlit("pages");
    reveal_strlit("builder");
    assert("displayName"@.len() == 11 && "locales"@.len() == 7 && "enabled"@.len() == 7);
    assert("menus"@.len() == 5 && "pages"@.len() == 5 && "builder"@.len() == 7);
    lemma_differ("locales"@, "enabled"@, 0);
    lemma_differ("locales"@, "builder"@, 0);
    lemma_differ("enabled"@, "builder"@, 0);
    lemma_differ("menus"@, "pages"@, 0);
}

pub open spec fn locales_value(l: Seq<(Seq<char>, Seq<(Seq<char>, Seq<char>)>)>) -> Option<JsonView> {
    if l.len() == 0 {
        None
    } else {
        Some(locales_json(l))
    }
}

pub open spec fn builder_value(b: Option<BuilderSpecView>) -> Option<JsonView> {
    match b {
        Some(x) => Some(builder_json(x)),
        None => None,
    }
}

proof fn lemma_spec_lookup(s: FrontendIntegrationSpecView, q: Seq<char>)
    requires
        q == "displayName"@ || q == "locales"@ || q == "enabled"@ || q == "menus"@ || q == "pages"@ || q
            == "builder"@,
    ensures
        entry_value(obj_entries(spec_json(s)), q) == (if q == "displayName"@ {
            str_value(s.display_name)
        } else if q == "locales"@ {
            locales_value(s.locales)
        } else if q == "enabled"@ {
            bool_value(s.enabled)
        } else if q == "menus"@ {
            list_value(s.menus.map_values(|m: PrimaryMenuSpecView| primary_menu_json(m)))
        } else if q == "pages"@ {
            list_value(s.pages.map_values(|p: PageSpecView| page_json(p)))
        } else {
            builder_value(s.builder)
        }),
{
    lemma_spec_keys_distinct();
    let d = opt_str_entry("displayName"@, s.display_name);
    let l: Seq<(Seq<char>, JsonView)> = if s.locales.len() == 0 {
        Seq::empty()
    } else {
        seq![("locales"@, locales_json(s.locales))]
    };
    let e = opt_bool_entry("enabled"@, s.enabled);
    let m = nonempty_entry("menus"@, s.menus.map_values(|m: PrimaryMenuSpecView| primary_menu_json(m)));
    let p = nonempty_entry("pages"@, s.pages.map_values(|p: PageSpecView| page_json(p)));
    let b = opt_entry("builder"@, builder_value(s.builder));
    assert(obj_entries(spec_json(s)) == d + l + e + m + p + b);
    lemma_ev_concat(d + l + e + m + p, b, q);
    lemma_ev_concat(d + l + e + m, p, q);
    lemma_ev_concat(d + l + e, m, q);
    lemma_ev_concat(d + l, e, q);
    lemma_ev_concat(d, l, q);
    lemma_ev_piece(d, q);
    lemma_ev_piece(l, q);
    lemma_ev_piece(e, q);
    lemma_ev_piece(m, q);
    lemma_ev_piece(p, q);
    lemma_ev_piece(b, q);
}

/// Distinct specs have distinct JSON forms: every field of a spec, down to an iframe's
/// `src`, a column's render options and each locale message, is written into the JSON that
/// is hashed, so no change to a spec goes unseen.
pub proof fn law_spec_json_injective(a: FrontendIntegrationSpecView, b: FrontendIntegrationSpecView)
    requires
        spec_json(a) == spec_json(b),
    ensures
        a == b,
{
    lemma_spec_keys_distinct();
    lemma_spec_lookup(a, "displayName"@);
    lemma_spec_lookup(b, "displayName"@);
    lemma_spec_lookup(a, "locales"@);
    lemma_spec_lookup(b, "locales"@);
    lemma_spec_lookup(a, "enabled"@);
    lemma_spec_lookup(b, "enabled"@);
    lemma_spec_lookup(a, "menus"@);
    lemma_spec_lookup(b, "menus"@);
    lemma_spec_lookup(a, "pages"@);
    lemma_spec_lookup(b, "pages"@);
    lemma_spec_lookup(a, "builder"@);
    lemma_spec_lookup(b, "builder"@);
    lemma_str_value_injective(a.display_name, b.display_name);
    lemma_bool_value_injective(a.enabled, b.enabled);
    if a.locales.len() == 0 && b.locales.len() == 0 {
        assert(a.locales =~= b.locales);
    } else {
        lemma_locales_json_injective(a.locales, b.locales);
    }
    let fm = |m: PrimaryMenuSpecView| primary_menu_json(m);
    assert forall|x: PrimaryMenuSpecView, y: PrimaryMenuSpecView| #[trigger] fm(x) == #[trigger] fm(y) implies x == y by {
        lemma_primary_menu_json_injective(x, y);
    }
    lemma_list_value_map_injective(a.menus, b.menus, fm);
    let fp = |p: PageSpecView| page_json(p);
    assert forall|x: PageSpecView, y: PageSpecView| #[trigger] fp(x) == #[trigger] fp(y) implies x == y by {
        lemma_page_json_injective(x, y);
    }
    lemma_list_value_map_injective(a.pages, b.pages, fp);
    if a.builder is Some && b.builder is Some {
        lemma_builder_json_injective(a.builder.unwrap(), b.builder.unwrap());
    }
}

/// Two specs that differ in anything but `enabled` give the spec hash different JSON to
/// hash: editing a menu, a page, an iframe `src`, a locale or the builder is seen.
pub proof fn law_hashed_json_tells_specs_apart(a: FrontendIntegrationSpecView, b: FrontendIntegrationSpecView)
    requires
        spec_without_enabled(a) != spec_without_enabled(b),
    ensures
        spec_json(spec_without_enabled(a)) != spec_json(spec_without_enabled(b)),
{
    if spec_json(spec_without_enabled(a)) == spec_json(spec_without_enabled(b)) {
        law_spec_json_injective(spec_without_enabled(a), spec_without_enabled(b));
    }
}

} // verus!
