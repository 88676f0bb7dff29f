//! The v1 manifest renderer and the engine-version dispatch in front of it.
use crate::api::{
    placement_str, spec_engine_version, ManifestRenderError, ManifestRenderErrorView, PageType,
};
use crate::json::{entries_view, entry, items_view, jarray, jnum, jobject, jstr, JsonValue, JsonView};
use crate::manifest::naming::{
    page_id_for_suffix, route_path, spec_page_id_for_suffix, spec_route_path,
};
use crate::manifest::pages::{crd_page, iframe_page, s, spec_crd_page, spec_iframe_page};
use crate::manifest::resolve::{
    resolve_spec, spec_resolve_spec, ResolvedOrganizationMenu, ResolvedOrganizationMenuView,
    ResolvedPageBinding, ResolvedPageBindingView, ResolvedTopMenu, ResolvedTopMenuView,
};
use crate::resource::{
    name_any, opt_map_get, opt_string_map_get, spec_name_any, FrontendIntegration,
    FrontendIntegrationView,
};
use crate::text::{
    ascii_lower_code, ascii_lower_eq, eq_ascii_lowercase, is_unicode_whitespace, spec_trim, spec_trim_end, spec_trim_start,
    trim,
};
use vstd::prelude::*;

verus! {

/// The route entry of a page: its full path and its page id.
pub open spec fn spec_render_route(fi_name: Seq<char>, page: ResolvedPageBindingView) -> JsonView {
    JsonView::Object(
        seq![
            ("path"@, s(spec_route_path(fi_name, page.placement, page.route_suffix))),
            ("pageId"@, s(spec_page_id_for_suffix(fi_name, page.placement, page.route_suffix))),
        ],
    )
}

pub fn render_route(fi_name: &str, page: &ResolvedPageBinding) -> (j: JsonValue)
    ensures
        j@ == spec_render_route(fi_name@, page.deep_view()),
{
    let page_id = page_id_for_suffix(fi_name, page.placement, page.route_suffix.as_str());
    let path = route_path(fi_name, page.placement, page.route_suffix.as_str());
    let ghost pathv = path@;
    let ghost idv = page_id@;
    let e = vec![entry("path", JsonValue::Str(path)), entry("pageId", JsonValue::Str(page_id))];
    assert(entries_view(e@) =~= seq![("path"@, s(pathv)), ("pageId"@, s(idv))]);
    jobject(e)
}

/// A menu entry.
pub open spec fn spec_menu_entry(parent: Seq<char>, name: Seq<char>, title: Seq<char>) -> JsonView {
    JsonView::Object(
        seq![
            ("parent"@, s(parent)),
            ("name"@, s(name)),
            ("title"@, s(title)),
            ("icon"@, s("GridDuotone"@)),
            ("order"@, JsonView::Number("999"@)),
        ],
    )
}

fn menu_entry(parent: &str, name: &str, title: &str) -> (j: JsonValue)
    ensures
        j@ == spec_menu_entry(parent@, name@, title@),
{
    let e = vec![
        entry("parent", jstr(parent)),
        entry("name", jstr(name)),
        entry("title", jstr(title)),
        entry("icon", jstr("GridDuotone")),
        entry("order", jnum("999")),
    ];
    assert(entries_view(e@) =~= seq![
        ("parent"@, s(parent@)),
        ("name"@, s(name@)),
        ("title"@, s(title@)),
        ("icon"@, s("GridDuotone"@)),
        ("order"@, JsonView::Number("999"@)),
    ]);
    jobject(e)
}

/// The menu entry of a page-type menu node.
pub open spec fn spec_render_leaf_menu(page: ResolvedPageBindingView) -> JsonView {
    spec_menu_entry(page.parent, page.menu_name, page.title)
}

pub fn render_leaf_menu(page: &ResolvedPageBinding) -> (j: JsonValue)
    ensures
        j@ == spec_render_leaf_menu(page.deep_view()),
{
    menu_entry(page.parent.as_str(), page.menu_name.as_str(), page.title.as_str())
}

/// The menu entry of an organization menu node: a group under its placement.
pub open spec fn spec_render_organization_menu(menu: ResolvedOrganizationMenuView) -> JsonView {
    spec_menu_entry(placement_str(menu.placement), menu.name, menu.title)
}

pub fn render_organization_menu(menu: &ResolvedOrganizationMenu) -> (j: JsonValue)
    ensures
        j@ == spec_render_organization_menu(menu.deep_view()),
{
    menu_entry(menu.placement.as_str(), menu.name.as_str(), menu.title.as_str())
}

/// The page document of a bound page, by page type.
pub open spec fn spec_render_page(fi_name: Seq<char>, page: ResolvedPageBindingView) -> Result<
    JsonView,
    ManifestRenderErrorView,
> {
    let page_id = spec_page_id_for_suffix(fi_name, page.placement, page.route_suffix);
    match page.page.type_ {
        PageType::Iframe => match page.page.iframe {
            None => Err(
                ManifestRenderErrorView::InvalidPageShape {
                    fi_name,
                    key: page.page.key,
                    message: "type=iframe requires iframe config"@,
                },
            ),
            Some(iframe) => Ok(spec_iframe_page(page_id, page.title, iframe.src)),
        },
        PageType::CrdTable => match page.page.crd_table {
            None => Err(
                ManifestRenderErrorView::InvalidPageShape {
                    fi_name,
                    key: page.page.key,
                    message: "type=crdTable requires crdTable config"@,
                },
            ),
            Some(crd) => Ok(spec_crd_page(page_id, page.title, page.placement, crd, crd.columns)),
        },
    }
}

pub fn render_page(fi_name: &str, page: &ResolvedPageBinding) -> (r: Result<JsonValue, ManifestRenderError>)
    ensures
        match spec_render_page(fi_name@, page.deep_view()) {
            Ok(j) => r matches Ok(x) && x@ == j,
            Err(e) => r matches Err(x) && x.deep_view() == e,
        },
{
    let page_id = page_id_for_suffix(fi_name, page.placement, page.route_suffix.as_str());
    match page.page.type_ {
        PageType::Iframe => match &page.page.iframe {
            None => Err(
                ManifestRenderError::InvalidPageShape {
                    fi_name: String::from_str(fi_name),
                    key: page.page.key.clone(),
                    message: String::from_str("type=iframe requires iframe config"),
                },
            ),
            Some(iframe) => Ok(iframe_page(page_id.as_str(), page.title.as_str(), iframe.src.as_str())),
        },
        PageType::CrdTable => match &page.page.crd_table {
            None => Err(
                ManifestRenderError::InvalidPageShape {
                    fi_name: String::from_str(fi_name),
                    key: page.page.key.clone(),
                    message: String::from_str("type=crdTable requires crdTable config"),
                },
            ),
            Some(crd) => Ok(
                crd_page(page_id.as_str(), page.title.as_str(), page.placement, crd, &crd.columns),
            ),
        },
    }
}

/// The route, menu and page lists being built.
pub struct Rendered {
    pub routes: Seq<JsonView>,
    pub menus: Seq<JsonView>,
    pub pages: Seq<JsonView>,
}

/// Adds one page-type menu node: its menu entry, its route and its page document.
pub open spec fn spec_render_binding(fi_name: Seq<char>, b: ResolvedPageBindingView, acc: Rendered) -> Result<
    Rendered,
    ManifestRenderErrorView,
> {
    match spec_render_page(fi_name, b) {
        Err(e) => Err(e),
        Ok(p) => Ok(
            Rendered {
                routes: acc.routes.push(spec_render_route(fi_name, b)),
                menus: acc.menus.push(spec_render_leaf_menu(b)),
                pages: acc.pages.push(p),
            },
        ),
    }
}

/// Adds the children of an organization menu from child `j` on.
pub open spec fn spec_render_children(
    fi_name: Seq<char>,
    children: Seq<ResolvedPageBindingView>,
    j: int,
    acc: Rendered,
) -> Result<Rendered, ManifestRenderErrorView>
    decreases children.len() - j,
{
    if j < 0 || j >= children.len() {
        Ok(acc)
    } else {
        match spec_render_binding(fi_name, children[j], acc) {
            Err(e) => Err(e),
            Ok(next) => spec_render_children(fi_name, children, j + 1, next),
        }
    }
}

/// Adds the resolved top-level menus from menu `i` on.
pub open spec fn spec_render_menus(
    fi_name: Seq<char>,
    resolved: Seq<ResolvedTopMenuView>,
    i: int,
    acc: Rendered,
) -> Result<Rendered, ManifestRenderErrorView>
    decreases resolved.len() - i,
{
    if i < 0 || i >= resolved.len() {
        Ok(acc)
    } else {
        let step = match resolved[i] {
            ResolvedTopMenuView::Page(b) => spec_render_binding(fi_name, b, acc),
            ResolvedTopMenuView::Organization { menu, children } => spec_render_children(
                fi_name,
                children,
                0,
                Rendered {
                    routes: acc.routes,
                    menus: acc.menus.push(spec_render_organization_menu(menu)),
                    pages: acc.pages,
                },
            ),
        };
        match step {
            Err(e) => Err(e),
            Ok(next) => spec_render_menus(fi_name, resolved, i + 1, next),
        }
    }
}

/// The rendered lists of a resolved menu tree.
pub open spec fn spec_render_all(fi_name: Seq<char>, resolved: Seq<ResolvedTopMenuView>) -> Result<
    Rendered,
    ManifestRenderErrorView,
> {
    spec_render_menus(fi_name, resolved, 0, Rendered { routes: seq![], menus: seq![], pages: seq![] })
}

/// The manifest document.
pub open spec fn spec_manifest_document(
    fi_name: Seq<char>,
    display_name: Seq<char>,
    description: Option<Seq<char>>,
    lists: Rendered,
) -> JsonView {
    let head = seq![
        ("version"@, s("1.0"@)),
        ("name"@, s(fi_name)),
        ("displayName"@, s(display_name)),
    ];
    let with_description = match description {
        Some(d) => head.push(("description"@, s(d))),
        None => head,
    };
    JsonView::Object(
        with_description + seq![
            ("routes"@, JsonView::Array(lists.routes)),
            ("menus"@, JsonView::Array(lists.menus)),
            ("locales"@, JsonView::Array(seq![])),
            ("pages"@, JsonView::Array(lists.pages)),
            (
                "build"@,
                JsonView::Object(
                    seq![
                        ("target"@, s("kubesphere-extension"@)),
                        ("moduleName"@, s(fi_name)),
                        ("systemjs"@, JsonView::Bool(true)),
                    ],
                ),
            ),
        ],
    )
}

/// The v1 manifest of an integration: name, display name (the spec's or else the object
/// name), the `kubesphere.io/description` annotation when present, and the routes, menus
/// and pages of the resolved menu tree.
pub open spec fn spec_render_v1_manifest(fi: FrontendIntegrationView) -> Result<JsonView, ManifestRenderErrorView> {
    let fi_name = spec_name_any(fi.metadata);
    let display_name = match fi.spec.display_name {
        Some(d) => d,
        None => fi_name,
    };
    let description = opt_map_get(fi.metadata.annotations, "kubesphere.io/description"@);
    match spec_resolve_spec(fi.spec.menus, fi.spec.pages, fi_name) {
        Err(e) => Err(e),
        Ok(resolved) => match spec_render_all(fi_name, resolved) {
            Err(e) => Err(e),
            Ok(lists) => Ok(spec_manifest_document(fi_name, display_name, description, lists)),
        },
    }
}

fn render_binding(
    fi_name: &str,
    b: &ResolvedPageBinding,
    routes: &mut Vec<JsonValue>,
    menus: &mut Vec<JsonValue>,
    pages: &mut Vec<JsonValue>,
) -> (r: Result<(), ManifestRenderError>)
    ensures
        match spec_render_binding(
            fi_name@,
            b.deep_view(),
            Rendered {
                routes: items_view(old(routes)@),
                menus: items_view(old(menus)@),
                pages: items_view(old(pages)@),
            },
        ) {
            Ok(next) => r is Ok && items_view(final(routes)@) == next.routes && items_view(
                final(menus)@,
            ) == next.menus && items_view(final(pages)@) == next.pages,
            Err(e) => r matches Err(x) && x.deep_view() == e,
        },
{
    let ghost r0 = items_view(routes@);
    let ghost m0 = items_view(menus@);
    let ghost p0 = items_view(pages@);
    let leaf = render_leaf_menu(b);
    let ghost lv = leaf@;
    menus.push(leaf);
    assert(items_view(menus@) =~= m0.push(lv));
    let route = render_route(fi_name, b);
    let ghost rv = route@;
    routes.push(route);
    assert(items_view(routes@) =~= r0.push(rv));
    let page = render_page(fi_name, b)?;
    let ghost pv = page@;
    pages.push(page);
    assert(items_view(pages@) =~= p0.push(pv));
    Ok(())
}

fn render_children(
    fi_name: &str,
    children: &Vec<ResolvedPageBinding>,
    routes: &mut Vec<JsonValue>,
    menus: &mut Vec<JsonValue>,
    pages: &mut Vec<JsonValue>,
) -> (r: Result<(), ManifestRenderError>)
    ensures
        match spec_render_children(
            fi_name@,
            children.deep_view(),
            0,
            Rendered {
                routes: items_view(old(routes)@),
                menus: items_view(old(menus)@),
                pages: items_view(old(pages)@),
            },
        ) {
            Ok(next) => r is Ok && items_view(final(routes)@) == next.routes && items_view(
                final(menus)@,
            ) == next.menus && items_view(final(pages)@) == next.pages,
            Err(e) => r matches Err(x) && x.deep_view() == e,
        },
{
    let ghost cv = children.deep_view();
    let ghost start = Rendered {
        routes: items_view(routes@),
        menus: items_view(menus@),
        pages: items_view(pages@),
    };
    let mut j: usize = 0;
    while j < children.len()
        invariant
            cv == children.deep_view(),
            0 <= j <= children@.len(),
            start == (Rendered {
                routes: items_view(old(routes)@),
                menus: items_view(old(menus)@),
                pages: items_view(old(pages)@),
            }),
            spec_render_children(fi_name@, cv, 0, start) == spec_render_children(
                fi_name@,
                cv,
                j as int,
                Rendered {
                    routes: items_view(routes@),
                    menus: items_view(menus@),
                    pages: items_view(pages@),
                },
            ),
        decreases children@.len() - j,
    {
        assert(children@[j as int].deep_view() == cv[j as int]);
        render_binding(fi_name, &children[j], routes, menus, pages)?;
        j += 1;
    }
    Ok(())
}

/// Renders the routes, menus and pages of a resolved menu tree, in menu order.
fn render_all(fi_name: &str, resolved_menus: &Vec<ResolvedTopMenu>) -> (r: Result<
    (Vec<JsonValue>, Vec<JsonValue>, Vec<JsonValue>),
    ManifestRenderError,
>)
    ensures
        match spec_render_all(fi_name@, resolved_menus.deep_view()) {
            Ok(lists) => r matches Ok(x) && items_view(x.0@) == lists.routes && items_view(x.1@)
                == lists.menus && items_view(x.2@) == lists.pages,
            Err(e) => r matches Err(x) && x.deep_view() == e,
        },
{
    let ghost resv = resolved_menus.deep_view();
    let mut routes: Vec<JsonValue> = Vec::new();
    let mut menus: Vec<JsonValue> = Vec::new();
    let mut pages: Vec<JsonValue> = Vec::new();
    let ghost empty = Rendered { routes: seq![], menus: seq![], pages: seq![] };
    assert(items_view(routes@) =~= seq![]);
    assert(items_view(menus@) =~= seq![]);
    assert(items_view(pages@) =~= seq![]);
    let mut i: usize = 0;
    while i < resolved_menus.len()
        invariant
            resv == resolved_menus.deep_view(),
            0 <= i <= resolved_menus@.len(),
            spec_render_all(fi_name@, resv) == spec_render_menus(
                fi_name@,
                resv,
                i as int,
                Rendered {
                    routes: items_view(routes@),
                    menus: items_view(menus@),
                    pages: items_view(pages@),
                },
            ),
        decreases resolved_menus@.len() - i,
    {
        assert(resolved_menus@[i as int].deep_view() == resv[i as int]);
        match &resolved_menus[i] {
            ResolvedTopMenu::Page(page) => {
                render_binding(fi_name, page, &mut routes, &mut menus, &mut pages)?;
            },
            ResolvedTopMenu::Organization { menu, children } => {
                let ghost m0 = items_view(menus@);
                let org = render_organization_menu(menu);
                let ghost ov = org@;
                menus.push(org);
                assert(items_view(menus@) =~= m0.push(ov));
                render_children(fi_name, children, &mut routes, &mut menus, &mut pages)?;
            },
        }
        i += 1;
    }
    Ok((routes, menus, pages))
}

pub fn render_v1_manifest(fi: &FrontendIntegration) -> (r: Result<JsonValue, ManifestRenderError>)
    ensures
        match spec_render_v1_manifest(fi.deep_view()) {
            Ok(j) => r matches Ok(x) && x@ == j,
            Err(e) => r matches Err(x) && x.deep_view() == e,
        },
{
    let fi_name = name_any(&fi.metadata);
    let display_name = match &fi.spec.display_name {
        Some(d) => d.clone(),
        None => fi_name.clone(),
    };
    let description = match opt_string_map_get(&fi.metadata.annotations, "kubesphere.io/description") {
        Some(d) => Some(d.clone()),
        None => None,
    };
    let resolved_menus = resolve_spec(&fi.spec.menus, &fi.spec.pages, fi_name.as_str())?;
    let (routes, menus, pages) = render_all(fi_name.as_str(), &resolved_menus)?;
    let ghost lists = Rendered {
        routes: items_view(routes@),
        menus: items_view(menus@),
        pages: items_view(pages@),
    };
    let mut manifest = vec![
        entry("version", jstr("1.0")),
        entry("name", jstr(fi_name.as_str())),
        entry("displayName", JsonValue::Str(display_name)),
    ];
    let ghost dn = match fi.spec.deep_view().display_name {
        Some(d) => d,
        None => fi_name@,
    };
    let ghost head = seq![("version"@, s("1.0"@)), ("name"@, s(fi_name@)), ("displayName"@, s(dn))];
    assert(entries_view(manifest@) =~= head);
    let ghost descv = opt_map_get(fi.metadata.deep_view().annotations, "kubesphere.io/description"@);
    if let Some(d) = description {
        manifest.push(entry("description", JsonValue::Str(d)));
    }
    let ghost with_description = match descv {
        Some(d) => head.push(("description"@, s(d))),
        None => head,
    };
    assert(entries_view(manifest@) =~= with_description);
    let ghost m1 = entries_view(manifest@);
    manifest.push(entry("routes", jarray(routes)));
    manifest.push(entry("menus", jarray(menus)));
    let locales: Vec<JsonValue> = Vec::new();
    assert(items_view(locales@) =~= seq![]);
    manifest.push(entry("locales", jarray(locales)));
    manifest.push(entry("pages", jarray(pages)));
    let build_e = vec![
        entry("target", jstr("kubesphere-extension")),
        entry("moduleName", jstr(fi_name.as_str())),
        entry("systemjs", JsonValue::Bool(true)),
    ];
    assert(entries_view(build_e@) =~= seq![
        ("target"@, s("kubesphere-extension"@)),
        ("moduleName"@, s(fi_name@)),
        ("systemjs"@, JsonView::Bool(true)),
    ]);
    manifest.push(entry("build", jobject(build_e)));
    assert(entries_view(manifest@) =~= with_description + seq![
        ("routes"@, JsonView::Array(lists.routes)),
        ("menus"@, JsonView::Array(lists.menus)),
        ("locales"@, JsonView::Array(seq![])),
        ("pages"@, JsonView::Array(lists.pages)),
        (
            "build"@,
            JsonView::Object(
                seq![
                    ("target"@, s("kubesphere-extension"@)),
                    ("moduleName"@, s(fi_name@)),
                    ("systemjs"@, JsonView::Bool(true)),
                ],
            ),
        ),
    ]);
    Ok(jobject(manifest))
}

/// Whether a normalized engine version selects the v1 renderer: `v1`, `v1alpha1`, `1` or
/// `1.0`, compared after ASCII lowercasing.
pub open spec fn spec_is_v1_engine(v: Seq<char>) -> bool {
    ascii_lower_eq(v, "v1"@) || ascii_lower_eq(v, "v1alpha1"@) || ascii_lower_eq(v, "1"@)
        || ascii_lower_eq(v, "1.0"@)
}

/// The engine version as requested: `builder.engineVersion` (default `v1`) with surrounding
/// whitespace removed.
pub open spec fn spec_requested_engine(fi: FrontendIntegrationView) -> Seq<char> {
    spec_trim(
        match spec_engine_version(fi.spec) {
            Some(v) => v,
            None => "v1"@,
        },
    )
}

/// Rendering dispatched on the engine version: an empty request means `v1`; any other
/// version than the v1 aliases is refused.
pub open spec fn spec_render_extension_manifest(fi: FrontendIntegrationView) -> Result<
    JsonView,
    ManifestRenderErrorView,
> {
    let requested = spec_requested_engine(fi);
    if requested.len() == 0 || spec_is_v1_engine(requested) {
        spec_render_v1_manifest(fi)
    } else {
        Err(
            ManifestRenderErrorView::UnsupportedEngineVersion {
                fi_name: spec_name_any(fi.metadata),
                engine_version: requested,
            },
        )
    }
}

pub fn render_extension_manifest(fi: &FrontendIntegration) -> (r: Result<JsonValue, ManifestRenderError>)
    ensures
        match spec_render_extension_manifest(fi.deep_view()) {
            Ok(j) => r matches Ok(x) && x@ == j,
            Err(e) => r matches Err(x) && x.deep_view() == e,
        },
{
    let requested = match fi.spec.engine_version() {
        Some(v) => trim(v),
        None => trim("v1"),
    };
    let is_v1 = requested.as_str().unicode_len() == 0 || eq_ascii_lowercase(requested.as_str(), "v1")
        || eq_ascii_lowercase(requested.as_str(), "v1alpha1") || eq_ascii_lowercase(
        requested.as_str(),
        "1",
    ) || eq_ascii_lowercase(requested.as_str(), "1.0");
    if is_v1 {
        render_v1_manifest(fi)
    } else {
        Err(
            ManifestRenderError::UnsupportedEngineVersion {
                fi_name: name_any(&fi.metadata),
                engine_version: requested,
            },
        )
    }
}

/// An integration that names no engine version is rendered by the v1 renderer.
pub proof fn law_default_engine_is_v1(fi: FrontendIntegrationView)
    requires
        spec_engine_version(fi.spec) is None,
    ensures
        spec_render_extension_manifest(fi) == spec_render_v1_manifest(fi),
{
    reveal_strlit("v1");
    assert(!is_unicode_whitespace('v'));
    assert(!is_unicode_whitespace('1'));
    assert(spec_trim_start("v1"@) == "v1"@);
    assert(spec_trim_end("v1"@) == "v1"@);
    assert(ascii_lower_code('v') == 'v' as u32);
    assert(ascii_lower_code('1') == '1' as u32);
    assert(ascii_lower_eq("v1"@, "v1"@));
}

} // verus!
