//! Page documents of the manifest: iframe pages and CRD table pages.
use crate::api::{
    ColumnRenderType, ColumnSpec, ColumnSpecView, CrdScope, CrdTablePageSpec, CrdTablePageSpecView,
    MenuPlacement,
};
use crate::duplicate::Duplicate;
use crate::json::{
    entries_insert, entries_view, entry, items_view, jarray, jnum, jobject, jstr, object_insert,
    JsonValue, JsonView,
};
use crate::text::{concat3, concat_str};
use vstd::prelude::*;

verus! {

/// A JSON string value from its characters.
pub open spec fn s(v: Seq<char>) -> JsonView {
    JsonView::Str(v)
}

/// `{"type": "binding", "source": <source>, "bind": <bind>}`.
pub open spec fn spec_binding(source: Seq<char>, bind: Seq<char>) -> JsonView {
    JsonView::Object(seq![("type"@, s("binding"@)), ("source"@, s(source)), ("bind"@, s(bind))])
}

pub fn binding(source: &str, bind: &str) -> (j: JsonValue)
    ensures
        j@ == spec_binding(source@, bind@),
{
    let e = vec![entry("type", jstr("binding")), entry("source", jstr(source)), entry("bind", jstr(bind))];
    assert(entries_view(e@) =~= seq![("type"@, s("binding"@)), ("source"@, s(source@)), ("bind"@, s(bind@))]);
    jobject(e)
}

/// The `meta` block of a page.
pub open spec fn spec_page_meta(page_id: Seq<char>, title: Seq<char>) -> JsonView {
    JsonView::Object(
        seq![
            ("id"@, s(page_id)),
            ("name"@, s(page_id)),
            ("title"@, s(title)),
            ("path"@, s("/"@ + page_id)),
        ],
    )
}

pub fn page_meta(page_id: &str, title: &str) -> (j: JsonValue)
    ensures
        j@ == spec_page_meta(page_id@, title@),
{
    let path = concat_str("/", page_id);
    let ghost pv = path@;
    let e = vec![
        entry("id", jstr(page_id)),
        entry("name", jstr(page_id)),
        entry("title", jstr(title)),
        entry("path", JsonValue::Str(path)),
    ];
    assert(entries_view(e@) =~= seq![
        ("id"@, s(page_id@)),
        ("name"@, s(page_id@)),
        ("title"@, s(title@)),
        ("path"@, s(pv)),
    ]);
    jobject(e)
}

/// The document of an iframe page.
pub open spec fn spec_iframe_page(page_id: Seq<char>, display_name: Seq<char>, frame_src: Seq<char>) -> JsonView {
    JsonView::Object(
        seq![
            ("id"@, s(page_id)),
            ("entryComponent"@, s(page_id)),
            (
                "componentsTree"@,
                JsonView::Object(
                    seq![
                        ("meta"@, spec_page_meta(page_id, display_name)),
                        ("context"@, JsonView::Object(seq![])),
                        (
                            "root"@,
                            JsonView::Object(
                                seq![
                                    ("id"@, s(page_id + "-root"@)),
                                    ("type"@, s("Iframe"@)),
                                    ("props"@, JsonView::Object(seq![("FRAME_URL"@, s(frame_src))])),
                                    (
                                        "meta"@,
                                        JsonView::Object(
                                            seq![
                                                ("title"@, s("Iframe"@)),
                                                ("scope"@, JsonView::Bool(true)),
                                            ],
                                        ),
                                    ),
                                ],
                            ),
                        ),
                    ],
                ),
            ),
        ],
    )
}

pub fn iframe_page(page_id: &str, display_name: &str, frame_src: &str) -> (j: JsonValue)
    ensures
        j@ == spec_iframe_page(page_id@, display_name@, frame_src@),
{
    let props_e = vec![entry("FRAME_URL", jstr(frame_src))];
    assert(entries_view(props_e@) =~= seq![("FRAME_URL"@, s(frame_src@))]);
    let props = jobject(props_e);
    let root_meta_e = vec![entry("title", jstr("Iframe")), entry("scope", JsonValue::Bool(true))];
    assert(entries_view(root_meta_e@) =~= seq![("title"@, s("Iframe"@)), ("scope"@, JsonView::Bool(true))]);
    let root_meta = jobject(root_meta_e);
    let root_id = concat_str(page_id, "-root");
    let ghost rid = root_id@;
    let ghost pv = props@;
    let ghost rmv = root_meta@;
    let root_e = vec![
        entry("id", JsonValue::Str(root_id)),
        entry("type", jstr("Iframe")),
        entry("props", props),
        entry("meta", root_meta),
    ];
    assert(entries_view(root_e@) =~= seq![
        ("id"@, s(rid)),
        ("type"@, s("Iframe"@)),
        ("props"@, pv),
        ("meta"@, rmv),
    ]);
    let root = jobject(root_e);
    let ctx_e: Vec<(String, JsonValue)> = Vec::new();
    assert(entries_view(ctx_e@) =~= seq![]);
    let ctx = jobject(ctx_e);
    let meta = page_meta(page_id, display_name);
    let ghost mv = meta@;
    let ghost cv = ctx@;
    let ghost rv = root@;
    let tree_e = vec![entry("meta", meta), entry("context", ctx), entry("root", root)];
    assert(entries_view(tree_e@) =~= seq![("meta"@, mv), ("context"@, cv), ("root"@, rv)]);
    let tree = jobject(tree_e);
    let ghost tv = tree@;
    let e = vec![entry("id", jstr(page_id)), entry("entryComponent", jstr(page_id)), entry("componentsTree", tree)];
    assert(entries_view(e@) =~= seq![("id"@, s(page_id@)), ("entryComponent"@, s(page_id@)), ("componentsTree"@, tv)]);
    jobject(e)
}

/// Name of a column render type in the manifest.
pub open spec fn spec_render_type_str(t: ColumnRenderType) -> Seq<char> {
    match t {
        ColumnRenderType::Text => "text"@,
        ColumnRenderType::Time => "time"@,
        ColumnRenderType::Link => "link"@,
    }
}

pub fn render_type_str(t: &ColumnRenderType) -> (r: &'static str)
    ensures
        r@ == spec_render_type_str(*t),
{
    match t {
        ColumnRenderType::Text => "text",
        ColumnRenderType::Time => "time",
        ColumnRenderType::Link => "link",
    }
}

/// The entries of an optional payload object, empty when absent.
pub open spec fn spec_payload_object(payload: Option<Seq<(Seq<char>, JsonView)>>) -> Seq<(Seq<char>, JsonView)> {
    match payload {
        Some(p) => p,
        None => seq![],
    }
}

pub fn payload_object(payload: Option<&Vec<(String, JsonValue)>>) -> (r: Vec<(String, JsonValue)>)
    ensures
        entries_view(r@) == spec_payload_object(
            match payload {
                Some(p) => Some(entries_view(p@)),
                None => None,
            },
        ),
{
    match payload {
        Some(p) => {
            let r = p.duplicate();
            assert(r.deep_view() =~= entries_view(r@));
            assert(p.deep_view() =~= entries_view(p@));
            r
        },
        None => {
            let r: Vec<(String, JsonValue)> = Vec::new();
            assert(entries_view(r@) =~= seq![]);
            r
        },
    }
}

/// The payload of a rendered column: the user payload with `format`, `pattern` and `link`
/// set from the render options that are present.
pub open spec fn spec_column_payload(col: ColumnSpecView) -> Seq<(Seq<char>, JsonView)> {
    let p0 = spec_payload_object(col.render.payload);
    let p1 = match col.render.format {
        Some(f) => entries_insert(p0, "format"@, s(f)),
        None => p0,
    };
    let p2 = match col.render.pattern {
        Some(pt) => entries_insert(p1, "pattern"@, s(pt)),
        None => p1,
    };
    match col.render.link {
        Some(l) => entries_insert(p2, "link"@, s(l)),
        None => p2,
    }
}

/// One column of the column configuration.
pub open spec fn spec_transform_column(col: ColumnSpecView) -> JsonView {
    let base = seq![
        ("key"@, s(col.key)),
        ("title"@, s(col.title)),
        (
            "render"@,
            JsonView::Object(
                seq![
                    ("type"@, s(spec_render_type_str(col.render.type_))),
                    ("path"@, s(col.render.path)),
                    ("payload"@, JsonView::Object(spec_column_payload(col))),
                ],
            ),
        ),
    ];
    let with_sorting = match col.enable_sorting {
        Some(v) => base.push(("enableSorting"@, JsonView::Bool(v))),
        None => base,
    };
    JsonView::Object(
        match col.enable_hiding {
            Some(v) => with_sorting.push(("enableHiding"@, JsonView::Bool(v))),
            None => with_sorting,
        },
    )
}

pub fn transform_column(col: &ColumnSpec) -> (j: JsonValue)
    ensures
        j@ == spec_transform_column(col.deep_view()),
{
    let ghost cv = col.deep_view();
    let mut payload = payload_object(
        match &col.render.payload {
            Some(p) => Some(p),
            None => None,
        },
    );
    assert(col.render.payload.deep_view() == match col.render.payload {
        Some(p) => Some(entries_view(p@)),
        None => None,
    }) by {
        if let Some(p) = col.render.payload {
            assert(p.deep_view() =~= entries_view(p@));
        }
    }
    if let Some(format) = &col.render.format {
        object_insert(&mut payload, "format", jstr(format.as_str()));
    }
    if let Some(pattern) = &col.render.pattern {
        object_insert(&mut payload, "pattern", jstr(pattern.as_str()));
    }
    if let Some(link) = &col.render.link {
        object_insert(&mut payload, "link", jstr(link.as_str()));
    }
    assert(entries_view(payload@) == spec_column_payload(cv));
    let ghost payv = entries_view(payload@);
    let render_e = vec![
        entry("type", jstr(render_type_str(&col.render.type_))),
        entry("path", jstr(col.render.path.as_str())),
        entry("payload", jobject(payload)),
    ];
    assert(entries_view(render_e@) =~= seq![
        ("type"@, s(spec_render_type_str(cv.render.type_))),
        ("path"@, s(cv.render.path)),
        ("payload"@, JsonView::Object(payv)),
    ]);
    let render = jobject(render_e);
    let ghost renv = render@;
    let mut out = vec![
        entry("key", jstr(col.key.as_str())),
        entry("title", jstr(col.title.as_str())),
        entry("render", render),
    ];
    let ghost base = seq![("key"@, s(cv.key)), ("title"@, s(cv.title)), ("render"@, renv)];
    assert(entries_view(out@) =~= base);
    if let Some(v) = col.enable_sorting {
        out.push(entry("enableSorting", JsonValue::Bool(v)));
    }
    let ghost with_sorting = match cv.enable_sorting {
        Some(v) => base.push(("enableSorting"@, JsonView::Bool(v))),
        None => base,
    };
    assert(entries_view(out@) =~= with_sorting);
    if let Some(v) = col.enable_hiding {
        out.push(entry("enableHiding", JsonValue::Bool(v)));
    }
    assert(entries_view(out@) =~= match cv.enable_hiding {
        Some(v) => with_sorting.push(("enableHiding"@, JsonView::Bool(v))),
        None => with_sorting,
    });
    jobject(out)
}

/// The column configuration: one entry per column, in order.
pub open spec fn spec_transform_columns(columns: Seq<ColumnSpecView>) -> Seq<JsonView> {
    Seq::new(columns.len(), |i: int| spec_transform_column(columns[i]))
}

pub fn transform_columns(columns: &Vec<ColumnSpec>) -> (r: Vec<JsonValue>)
    ensures
        items_view(r@) == spec_transform_columns(columns.deep_view()),
{
    let mut out: Vec<JsonValue> = Vec::new();
    let mut i: usize = 0;
    while i < columns.len()
        invariant
            0 <= i <= columns@.len(),
            out@.len() == i,
            forall|k: int|
                0 <= k < i ==> #[trigger] crate::json::json_view(out@[k]) == spec_transform_column(
                    columns@[k].deep_view(),
                ),
        decreases columns@.len() - i,
    {
        out.push(transform_column(&columns[i]));
        i += 1;
    }
    assert(items_view(out@) =~= spec_transform_columns(columns.deep_view()));
    out
}

/// The page-state data source kind of a placement.
pub open spec fn spec_crd_page_state_type(placement: MenuPlacement) -> Seq<char> {
    match placement {
        MenuPlacement::Workspace => "workspace-crd-page-state"@,
        _ => "crd-page-state"@,
    }
}

pub fn crd_page_state_type(placement: MenuPlacement) -> (r: &'static str)
    ensures
        r@ == spec_crd_page_state_type(placement),
{
    match placement {
        MenuPlacement::Workspace => "workspace-crd-page-state",
        _ => "crd-page-state",
    }
}

/// The scope keyword of a CRD scope.
pub open spec fn spec_crd_page_scope(scope: CrdScope) -> Seq<char> {
    match scope {
        CrdScope::Namespaced => "namespace"@,
        CrdScope::Cluster => "cluster"@,
    }
}

pub fn crd_page_scope(crd: &CrdTablePageSpec) -> (r: &'static str)
    ensures
        r@ == spec_crd_page_scope(crd.scope),
{
    match crd.scope {
        CrdScope::Namespaced => "namespace",
        CrdScope::Cluster => "cluster",
    }
}

/// The `CRD_CONFIG` block.
pub open spec fn spec_crd_config(crd: CrdTablePageSpecView) -> JsonView {
    JsonView::Object(
        seq![
            ("apiVersion"@, s(crd.version)),
            ("kind"@, s(crd.names.kind)),
            ("plural"@, s(crd.names.plural)),
            ("group"@, s(crd.group)),
            ("kapi"@, JsonView::Bool(true)),
        ],
    )
}

/// The config of the page-state data source; only non-workspace placements carry `SCOPE`.
pub open spec fn spec_crd_page_state_config(
    page_id: Seq<char>,
    placement: MenuPlacement,
    crd: CrdTablePageSpecView,
) -> JsonView {
    let head = seq![("PAGE_ID"@, s(page_id)), ("CRD_CONFIG"@, spec_crd_config(crd))];
    let scoped = if placement != MenuPlacement::Workspace {
        head.push(("SCOPE"@, s(spec_crd_page_scope(crd.scope))))
    } else {
        head
    };
    JsonView::Object(scoped.push(("HOOK_NAME"@, s("useCrdPageState"@))))
}

pub fn crd_page_state_config(page_id: &str, placement: MenuPlacement, crd: &CrdTablePageSpec) -> (j: JsonValue)
    ensures
        j@ == spec_crd_page_state_config(page_id@, placement, crd.deep_view()),
{
    let ghost cv = crd.deep_view();
    let cfg_e = vec![
        entry("apiVersion", jstr(crd.version.as_str())),
        entry("kind", jstr(crd.names.kind.as_str())),
        entry("plural", jstr(crd.names.plural.as_str())),
        entry("group", jstr(crd.group.as_str())),
        entry("kapi", JsonValue::Bool(true)),
    ];
    assert(entries_view(cfg_e@) =~= seq![
        ("apiVersion"@, s(cv.version)),
        ("kind"@, s(cv.names.kind)),
        ("plural"@, s(cv.names.plural)),
        ("group"@, s(cv.group)),
        ("kapi"@, JsonView::Bool(true)),
    ]);
    let crd_config = jobject(cfg_e);
    let mut config = vec![entry("PAGE_ID", jstr(page_id)), entry("CRD_CONFIG", crd_config)];
    let ghost head = seq![("PAGE_ID"@, s(page_id@)), ("CRD_CONFIG"@, spec_crd_config(cv))];
    assert(entries_view(config@) =~= head);
    if placement != MenuPlacement::Workspace {
        config.push(entry("SCOPE", jstr(crd_page_scope(crd))));
    }
    let ghost scoped = if placement != MenuPlacement::Workspace {
        head.push(("SCOPE"@, s(spec_crd_page_scope(cv.scope))))
    } else {
        head
    };
    assert(entries_view(config@) =~= scoped);
    config.push(entry("HOOK_NAME", jstr("useCrdPageState")));
    assert(entries_view(config@) =~= scoped.push(("HOOK_NAME"@, s("useCrdPageState"@))));
    jobject(config)
}

/// The props of the CRD table root component.
pub open spec fn spec_crd_table_props(page_id: Seq<char>, display_name: Seq<char>, crd: CrdTablePageSpecView) -> JsonView {
    JsonView::Object(
        seq![
            ("TABLE_KEY"@, s(page_id)),
            ("TITLE"@, s(display_name)),
            ("PARAMS"@, spec_binding("pageState"@, "params"@)),
            ("REFETCH"@, spec_binding("pageState"@, "refetch"@)),
            ("TOOLBAR_LEFT"@, spec_binding("pageState"@, "toolbarLeft"@)),
            ("PAGE_CONTEXT"@, spec_binding("pageState"@, "pageContext"@)),
            ("COLUMNS"@, spec_binding("columns"@, "columns"@)),
            ("DATA"@, spec_binding("pageState"@, "data"@)),
            (
                "IS_LOADING"@,
                JsonView::Object(
                    seq![
                        ("type"@, s("binding"@)),
                        ("source"@, s("pageState"@)),
                        ("bind"@, s("loading"@)),
                        ("defaultValue"@, JsonView::Bool(false)),
                    ],
                ),
            ),
            ("UPDATE"@, spec_binding("pageState"@, "update"@)),
            ("DEL"@, spec_binding("pageState"@, "del"@)),
            ("CREATE"@, spec_binding("pageState"@, "create"@)),
            (
                "CREATE_INITIAL_VALUE"@,
                JsonView::Object(
                    seq![
                        ("apiVersion"@, s(crd.group + "/"@ + crd.version)),
                        ("kind"@, s(crd.names.kind)),
                    ],
                ),
            ),
        ],
    )
}

fn crd_table_props(page_id: &str, display_name: &str, crd: &CrdTablePageSpec) -> (j: JsonValue)
    ensures
        j@ == spec_crd_table_props(page_id@, display_name@, crd.deep_view()),
{
    let ghost cv = crd.deep_view();
    let loading_e = vec![
        entry("type", jstr("binding")),
        entry("source", jstr("pageState")),
        entry("bind", jstr("loading")),
        entry("defaultValue", JsonValue::Bool(false)),
    ];
    assert(entries_view(loading_e@) =~= seq![
        ("type"@, s("binding"@)),
        ("source"@, s("pageState"@)),
        ("bind"@, s("loading"@)),
        ("defaultValue"@, JsonView::Bool(false)),
    ]);
    let loading = jobject(loading_e);
    let ghost lv = loading@;
    let api_version = concat3(crd.group.as_str(), "/", crd.version.as_str());
    let ghost av = api_version@;
    let init_e = vec![entry("apiVersion", JsonValue::Str(api_version)), entry("kind", jstr(crd.names.kind.as_str()))];
    assert(entries_view(init_e@) =~= seq![("apiVersion"@, s(av)), ("kind"@, s(cv.names.kind))]);
    let init = jobject(init_e);
    let ghost iv = init@;
    let e = vec![
        entry("TABLE_KEY", jstr(page_id)),
        entry("TITLE", jstr(display_name)),
        entry("PARAMS", binding("pageState", "params")),
        entry("REFETCH", binding("pageState", "refetch")),
        entry("TOOLBAR_LEFT", binding("pageState", "toolbarLeft")),
        entry("PAGE_CONTEXT", binding("pageState", "pageContext")),
        entry("COLUMNS", binding("columns", "columns")),
        entry("DATA", binding("pageState", "data")),
        entry("IS_LOADING", loading),
        entry("UPDATE", binding("pageState", "update")),
        entry("DEL", binding("pageState", "del")),
        entry("CREATE", binding("pageState", "create")),
        entry("CREATE_INITIAL_VALUE", init),
    ];
    assert(entries_view(e@) =~= seq![
        ("TABLE_KEY"@, s(page_id@)),
        ("TITLE"@, s(display_name@)),
        ("PARAMS"@, spec_binding("pageState"@, "params"@)),
        ("REFETCH"@, spec_binding("pageState"@, "refetch"@)),
        ("TOOLBAR_LEFT"@, spec_binding("pageState"@, "toolbarLeft"@)),
        ("PAGE_CONTEXT"@, spec_binding("pageState"@, "pageContext"@)),
        ("COLUMNS"@, spec_binding("columns"@, "columns"@)),
        ("DATA"@, spec_binding("pageState"@, "data"@)),
        ("IS_LOADING"@, lv),
        ("UPDATE"@, spec_binding("pageState"@, "update"@)),
        ("DEL"@, spec_binding("pageState"@, "del"@)),
        ("CREATE"@, spec_binding("pageState"@, "create"@)),
        ("CREATE_INITIAL_VALUE"@, iv),
    ]);
    jobject(e)
}

/// The document of a CRD table page.
pub open spec fn spec_crd_page(
    page_id: Seq<char>,
    display_name: Seq<char>,
    placement: MenuPlacement,
    crd: CrdTablePageSpecView,
    columns: Seq<ColumnSpecView>,
) -> JsonView {
    JsonView::Object(
        seq![
            ("id"@, s(page_id)),
            ("entryComponent"@, s(page_id)),
            (
                "componentsTree"@,
                JsonView::Object(
                    seq![
                        ("meta"@, spec_page_meta(page_id, display_name)),
                        ("context"@, JsonView::Object(seq![])),
                        (
                            "dataSources"@,
                            JsonView::Array(
                                seq![
                                    JsonView::Object(
                                        seq![
                                            ("id"@, s("columns"@)),
                                            ("type"@, s("crd-columns"@)),
                                            (
                                                "config"@,
                                                JsonView::Object(
                                                    seq![
                                                        (
                                                            "COLUMNS_CONFIG"@,
                                                            JsonView::Array(spec_transform_columns(columns)),
                                                        ),
                                                        ("HOOK_NAME"@, s("useCrdColumns"@)),
                                                    ],
                                                ),
                                            ),
                                        ],
                                    ),
                                    JsonView::Object(
                                        seq![
                                            ("id"@, s("pageState"@)),
                                            ("type"@, s(spec_crd_page_state_type(placement))),
                                            (
                                                "args"@,
                                                JsonView::Array(seq![spec_binding("columns"@, "columns"@)]),
                                            ),
                                            (
                                                "config"@,
                                                spec_crd_page_state_config(page_id, placement, crd),
                                            ),
                                        ],
                                    ),
                                ],
                            ),
                        ),
                        (
                            "root"@,
                            JsonView::Object(
                                seq![
                                    ("id"@, s(page_id + "-root"@)),
                                    ("type"@, s("CrdTable"@)),
                                    ("props"@, spec_crd_table_props(page_id, display_name, crd)),
                                    (
                                        "meta"@,
                                        JsonView::Object(
                                            seq![
                                                ("title"@, s("CrdTable"@)),
                                                ("scope"@, JsonView::Bool(true)),
                                            ],
                                        ),
                                    ),
                                ],
                            ),
                        ),
                    ],
                ),
            ),
        ],
    )
}

pub fn crd_page(
    page_id: &str,
    display_name: &str,
    placement: MenuPlacement,
    crd: &CrdTablePageSpec,
    columns: &Vec<ColumnSpec>,
) -> (j: JsonValue)
    ensures
        j@ == spec_crd_page(page_id@, display_name@, placement, crd.deep_view(), columns.deep_view()),
{
    let columns_config = transform_columns(columns);
    let ghost ccv = items_view(columns_config@);
    let cols_cfg_e = vec![entry("COLUMNS_CONFIG", jarray(columns_config)), entry("HOOK_NAME", jstr("useCrdColumns"))];
    assert(entries_view(cols_cfg_e@) =~= seq![
        ("COLUMNS_CONFIG"@, JsonView::Array(ccv)),
        ("HOOK_NAME"@, s("useCrdColumns"@)),
    ]);
    let cols_cfg = jobject(cols_cfg_e);
    let ghost colcfgv = cols_cfg@;
    let columns_ds_e = vec![entry("id", jstr("columns")), entry("type", jstr("crd-columns")), entry("config", cols_cfg)];
    assert(entries_view(columns_ds_e@) =~= seq![
        ("id"@, s("columns"@)),
        ("type"@, s("crd-columns"@)),
        ("config"@, colcfgv),
    ]);
    let columns_ds = jobject(columns_ds_e);
    let args_items = vec![binding("columns", "columns")];
    assert(items_view(args_items@) =~= seq![spec_binding("columns"@, "columns"@)]);
    let args = jarray(args_items);
    let ghost argsv = args@;
    let state_cfg = crd_page_state_config(page_id, placement, crd);
    let ghost scv = state_cfg@;
    let state_ds_e = vec![
        entry("id", jstr("pageState")),
        entry("type", jstr(crd_page_state_type(placement))),
        entry("args", args),
        entry("config", state_cfg),
    ];
    assert(entries_view(state_ds_e@) =~= seq![
        ("id"@, s("pageState"@)),
        ("type"@, s(spec_crd_page_state_type(placement))),
        ("args"@, argsv),
        ("config"@, scv),
    ]);
    let state_ds = jobject(state_ds_e);
    let ghost cdv = columns_ds@;
    let ghost sdv = state_ds@;
    let ds_items = vec![columns_ds, state_ds];
    assert(items_view(ds_items@) =~= seq![cdv, sdv]);
    let data_sources = jarray(ds_items);
    let ghost dsv = data_sources@;
    let props = crd_table_props(page_id, display_name, crd);
    let ghost pv = props@;
    let root_meta_e = vec![entry("title", jstr("CrdTable")), entry("scope", JsonValue::Bool(true))];
    assert(entries_view(root_meta_e@) =~= seq![("title"@, s("CrdTable"@)), ("scope"@, JsonView::Bool(true))]);
    let root_meta = jobject(root_meta_e);
    let ghost rmv = root_meta@;
    let root_id = concat_str(page_id, "-root");
    let ghost rid = root_id@;
    let root_e = vec![
        entry("id", JsonValue::Str(root_id)),
        entry("type", jstr("CrdTable")),
        entry("props", props),
        entry("meta", root_meta),
    ];
    assert(entries_view(root_e@) =~= seq![
        ("id"@, s(rid)),
        ("type"@, s("CrdTable"@)),
        ("props"@, pv),
        ("meta"@, rmv),
    ]);
    let root = jobject(root_e);
    let ghost rv = root@;
    let ctx_e: Vec<(String, JsonValue)> = Vec::new();
    assert(entries_view(ctx_e@) =~= seq![]);
    let ctx = jobject(ctx_e);
    let ghost cv = ctx@;
    let meta = page_meta(page_id, display_name);
    let ghost mv = meta@;
    let tree_e = vec![
        entry("meta", meta),
        entry("context", ctx),
        entry("dataSources", data_sources),
        entry("root", root),
    ];
    assert(entries_view(tree_e@) =~= seq![
        ("meta"@, mv),
        ("context"@, cv),
        ("dataSources"@, dsv),
        ("root"@, rv),
    ]);
    let tree = jobject(tree_e);
    let ghost tv = tree@;
    let e = vec![entry("id", jstr(page_id)), entry("entryComponent", jstr(page_id)), entry("componentsTree", tree)];
    assert(entries_view(e@) =~= seq![("id"@, s(page_id@)), ("entryComponent"@, s(page_id@)), ("componentsTree"@, tv)]);
    jobject(e)
}

} // verus!
