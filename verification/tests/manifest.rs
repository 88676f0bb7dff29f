use frontend_forge::api::{
    BuilderSpec, ColumnRenderSpec, ColumnRenderType, ColumnSpec, CrdNamesSpec, CrdScope, CrdTablePageSpec,
    FrontendIntegrationSpec, IframePageSpec, ManifestRenderError, MenuNodeType, MenuPlacement, PageSpec, PageType,
    PrimaryMenuSpec, SecondaryMenuSpec,
};
use frontend_forge::json::JsonValue;
use frontend_forge::manifest::render::{render_extension_manifest, render_v1_manifest};
use frontend_forge::resource::{FrontendIntegration, ObjectMeta};

fn integration(name: &str, menus: Vec<PrimaryMenuSpec>, pages: Vec<PageSpec>) -> FrontendIntegration {
    let mut metadata = ObjectMeta::empty();
    metadata.name = Some(name.to_string());
    FrontendIntegration {
        metadata,
        spec: FrontendIntegrationSpec {
            display_name: None,
            locales: vec![],
            enabled: None,
            menus,
            pages,
            builder: None,
        },
        status: None,
    }
}

fn page_menu(display_name: &str, key: &str, placement: MenuPlacement) -> PrimaryMenuSpec {
    PrimaryMenuSpec {
        display_name: display_name.to_string(),
        key: key.to_string(),
        placement,
        type_: MenuNodeType::Page,
        children: vec![],
    }
}

fn org_menu(display_name: &str, key: &str, placement: MenuPlacement, children: &[(&str, &str)]) -> PrimaryMenuSpec {
    PrimaryMenuSpec {
        display_name: display_name.to_string(),
        key: key.to_string(),
        placement,
        type_: MenuNodeType::Organization,
        children: children
            .iter()
            .map(|(d, k)| SecondaryMenuSpec { display_name: d.to_string(), key: k.to_string() })
            .collect(),
    }
}

fn iframe(key: &str, src: &str) -> PageSpec {
    PageSpec {
        key: key.to_string(),
        type_: PageType::Iframe,
        crd_table: None,
        iframe: Some(IframePageSpec { src: src.to_string() }),
    }
}

fn name_column() -> ColumnSpec {
    ColumnSpec {
        key: "name".to_string(),
        title: "NAME".to_string(),
        render: ColumnRenderSpec {
            type_: ColumnRenderType::Text,
            path: "metadata.name".to_string(),
            format: None,
            pattern: None,
            link: None,
            payload: None,
        },
        enable_sorting: Some(true),
        enable_hiding: None,
    }
}

fn crd_table(key: &str, plural: &str, kind: &str, group: &str, version: &str, scope: CrdScope, columns: Vec<ColumnSpec>) -> PageSpec {
    PageSpec {
        key: key.to_string(),
        type_: PageType::CrdTable,
        crd_table: Some(CrdTablePageSpec {
            names: CrdNamesSpec { kind: kind.to_string(), plural: plural.to_string() },
            group: group.to_string(),
            version: version.to_string(),
            auth_key: None,
            scope,
            columns,
        }),
        iframe: None,
    }
}

fn get<'a>(j: &'a JsonValue, key: &str) -> &'a JsonValue {
    match j {
        JsonValue::Object(entries) => entries
            .iter()
            .find(|(k, _)| k == key)
            .map(|(_, v)| v)
            .unwrap_or_else(|| panic!("missing key {key}")),
        _ => panic!("not an object at {key}"),
    }
}

fn has(j: &JsonValue, key: &str) -> bool {
    match j {
        JsonValue::Object(entries) => entries.iter().any(|(k, _)| k == key),
        _ => false,
    }
}

fn at(j: &JsonValue, i: usize) -> &JsonValue {
    match j {
        JsonValue::Array(items) => &items[i],
        _ => panic!("not an array"),
    }
}

fn len(j: &JsonValue) -> usize {
    match j {
        JsonValue::Array(items) => items.len(),
        _ => panic!("not an array"),
    }
}

fn text(j: &JsonValue) -> &str {
    match j {
        JsonValue::Str(s) => s.as_str(),
        _ => panic!("not a string"),
    }
}

fn demo_integration() -> FrontendIntegration {
    integration(
        "demo",
        vec![page_menu("Demo", "demo", MenuPlacement::Global)],
        vec![iframe("demo", "http://example.test")],
    )
}

#[test]
fn defaults_to_v1_renderer() {
    let fi = demo_integration();

    let manifest = render_extension_manifest(&fi).ok().unwrap();
    assert_eq!(text(get(&manifest, "version")), "1.0");
}

#[test]
fn rejects_unknown_engine_version() {
    let mut fi = demo_integration();
    fi.spec.builder = Some(BuilderSpec { engine_version: Some("v99".to_string()) });

    assert!(matches!(
        render_extension_manifest(&fi),
        Err(ManifestRenderError::UnsupportedEngineVersion { .. })
    ));
}

#[test]
fn accepts_v1_aliases_in_any_case_with_spaces() {
    for v in [" V1 ", "v1alpha1", "1", "1.0", "", "  "] {
        let mut fi = demo_integration();
        fi.spec.builder = Some(BuilderSpec { engine_version: Some(v.to_string()) });
        assert!(render_extension_manifest(&fi).is_ok(), "engine version {v:?}");
    }
    let mut fi = demo_integration();
    fi.spec.builder = Some(BuilderSpec { engine_version: Some(" v2 ".to_string()) });
    match render_extension_manifest(&fi) {
        Err(ManifestRenderError::UnsupportedEngineVersion { fi_name, engine_version }) => {
            assert_eq!(fi_name, "demo");
            assert_eq!(engine_version, "v2");
        },
        _ => panic!("expected an unsupported engine version"),
    }
}

#[test]
fn renders_workspace_crd_pages_with_workspace_page_state() {
    let fi = integration(
        "test",
        vec![
            page_menu("Cluster Tasks", "cluster-tasks", MenuPlacement::Cluster),
            page_menu("Workspace Tasks", "workspace-tasks", MenuPlacement::Workspace),
        ],
        vec![
            crd_table(
                "cluster-tasks",
                "serviceaccounts",
                "ServiceAccount",
                "kubesphere.io",
                "v1alpha1",
                CrdScope::Namespaced,
                vec![name_column()],
            ),
            crd_table(
                "workspace-tasks",
                "serviceaccounts",
                "ServiceAccount",
                "kubesphere.io",
                "v1alpha1",
                CrdScope::Namespaced,
                vec![name_column()],
            ),
        ],
    );

    let manifest = render_v1_manifest(&fi).ok().unwrap();
    let pages = get(&manifest, "pages");

    let cluster_page_state = at(get(get(at(pages, 0), "componentsTree"), "dataSources"), 1);
    assert_eq!(text(get(cluster_page_state, "type")), "crd-page-state");
    assert_eq!(text(get(get(cluster_page_state, "config"), "PAGE_ID")), "test-cluster-cluster-tasks");
    assert_eq!(text(get(get(cluster_page_state, "config"), "SCOPE")), "namespace");

    let workspace_page_state = at(get(get(at(pages, 1), "componentsTree"), "dataSources"), 1);
    assert_eq!(text(get(workspace_page_state, "type")), "workspace-crd-page-state");
    assert_eq!(text(get(get(workspace_page_state, "config"), "PAGE_ID")), "test-workspace-workspace-tasks");
    assert!(!has(get(workspace_page_state, "config"), "SCOPE"));
}

#[test]
fn renders_nested_org_menu_bindings() {
    let mut fi = integration(
        "demo-fi",
        vec![org_menu(
            "Ops",
            "ops",
            MenuPlacement::Workspace,
            &[("Inspect Tasks", "inspecttasks"), ("Ops Guide", "ops-guide")],
        )],
        vec![
            crd_table(
                "inspecttasks",
                "inspecttasks",
                "InspectTask",
                "kubeeye.kubesphere.io",
                "v1alpha2",
                CrdScope::Cluster,
                vec![name_column()],
            ),
            iframe("ops-guide", "http://example.test/ops-guide"),
        ],
    );
    fi.spec.display_name = Some("Demo".to_string());

    let manifest = render_v1_manifest(&fi).ok().unwrap();
    let menus = get(&manifest, "menus");
    let routes = get(&manifest, "routes");
    let pages = get(&manifest, "pages");

    assert_eq!(len(menus), 3);
    assert_eq!(len(routes), 2);
    assert_eq!(len(pages), 2);
    assert_eq!(text(get(at(menus, 0), "name")), "frontendintegrations/demo-fi/ops");
    assert_eq!(text(get(at(menus, 0), "parent")), "workspace");
    assert_eq!(text(get(at(menus, 1), "parent")), "workspace.frontendintegrations/demo-fi/ops");
    assert_eq!(text(get(at(menus, 1), "name")), "frontendintegrations/demo-fi/ops/inspecttasks");
    assert_eq!(text(get(at(menus, 2), "parent")), "workspace.frontendintegrations/demo-fi/ops");
    assert_eq!(text(get(at(menus, 2), "name")), "frontendintegrations/demo-fi/ops/ops-guide");
    assert_eq!(
        text(get(at(routes, 0), "path")),
        "/workspaces/:workspace/frontendintegrations/demo-fi/ops/inspecttasks"
    );
    assert_eq!(text(get(at(routes, 0), "pageId")), "demo-fi-workspace-ops_inspecttasks");
    assert_eq!(
        text(get(at(routes, 1), "path")),
        "/workspaces/:workspace/frontendintegrations/demo-fi/ops/ops-guide"
    );
    assert_eq!(text(get(at(routes, 1), "pageId")), "demo-fi-workspace-ops_ops-guide");
    assert_eq!(text(get(get(get(at(pages, 0), "componentsTree"), "meta"), "title")), "Inspect Tasks");
    assert_eq!(
        text(get(at(get(get(at(pages, 0), "componentsTree"), "dataSources"), 1), "type")),
        "workspace-crd-page-state"
    );
    assert_eq!(text(get(get(get(at(pages, 1), "componentsTree"), "meta"), "title")), "Ops Guide");
}

#[test]
fn keeps_distinct_page_ids_for_top_level_and_nested_suffixes() {
    let fi = integration(
        "demo-fi",
        vec![
            page_menu("Ops Guide", "ops-guide", MenuPlacement::Workspace),
            org_menu("Ops", "ops", MenuPlacement::Workspace, &[("Guide", "guide")]),
        ],
        vec![iframe("ops-guide", "http://example.test/top-level"), iframe("guide", "http://example.test/nested")],
    );

    let manifest = render_v1_manifest(&fi).ok().unwrap();
    let routes = get(&manifest, "routes");
    let pages = get(&manifest, "pages");

    assert_eq!(text(get(at(routes, 0), "pageId")), "demo-fi-workspace-ops-guide");
    assert_eq!(text(get(at(routes, 1), "pageId")), "demo-fi-workspace-ops_guide");
    assert_ne!(text(get(at(routes, 0), "pageId")), text(get(at(routes, 1), "pageId")));
    assert_eq!(text(get(at(pages, 0), "id")), "demo-fi-workspace-ops-guide");
    assert_eq!(text(get(at(pages, 1), "id")), "demo-fi-workspace-ops_guide");
}

#[test]
fn rejects_page_menu_with_children() {
    let mut menu = page_menu("Overview", "overview", MenuPlacement::Cluster);
    menu.children = vec![SecondaryMenuSpec { display_name: "Child".to_string(), key: "child".to_string() }];
    let fi = integration("demo", vec![menu], vec![iframe("overview", "http://example.test")]);

    assert!(matches!(render_v1_manifest(&fi), Err(ManifestRenderError::InvalidMenuShape { .. })));
}

#[test]
fn rejects_org_menu_without_children() {
    let fi = integration("demo", vec![org_menu("Ops", "ops", MenuPlacement::Cluster, &[])], vec![]);

    assert!(matches!(render_v1_manifest(&fi), Err(ManifestRenderError::InvalidMenuShape { .. })));
}

#[test]
fn rejects_missing_page_for_menu_key() {
    let fi = integration("demo", vec![page_menu("Overview", "overview", MenuPlacement::Cluster)], vec![]);

    assert!(matches!(render_v1_manifest(&fi), Err(ManifestRenderError::MissingPageForMenuKey { .. })));
}

#[test]
fn rejects_orphan_page_config() {
    let fi = integration(
        "demo",
        vec![page_menu("Overview", "overview", MenuPlacement::Cluster)],
        vec![iframe("overview", "http://example.test"), iframe("orphan", "http://example.test/orphan")],
    );

    match render_v1_manifest(&fi) {
        Err(ManifestRenderError::OrphanPageConfig { fi_name, key }) => {
            assert_eq!(fi_name, "demo");
            assert_eq!(key, "orphan");
        },
        _ => panic!("expected an orphan page"),
    }
}

#[test]
fn rejects_invalid_page_shapes_and_keys() {
    let invalid_menu_key = integration(
        "demo",
        vec![page_menu("Overview", "invalid_key", MenuPlacement::Cluster)],
        vec![iframe("overview", "http://example.test")],
    );
    assert!(matches!(render_v1_manifest(&invalid_menu_key), Err(ManifestRenderError::InvalidMenuKey { .. })));

    let invalid_page_key = integration(
        "demo",
        vec![page_menu("Overview", "overview", MenuPlacement::Cluster)],
        vec![iframe("invalid_key", "http://example.test")],
    );
    assert!(matches!(render_v1_manifest(&invalid_page_key), Err(ManifestRenderError::InvalidPageShape { .. })));

    let mut missing = iframe("overview", "http://example.test");
    missing.iframe = None;
    let missing_iframe =
        integration("demo", vec![page_menu("Overview", "overview", MenuPlacement::Cluster)], vec![missing]);
    assert!(matches!(render_v1_manifest(&missing_iframe), Err(ManifestRenderError::InvalidPageShape { .. })));

    let missing_columns = integration(
        "demo",
        vec![page_menu("Overview", "overview", MenuPlacement::Cluster)],
        vec![crd_table(
            "overview",
            "serviceaccounts",
            "ServiceAccount",
            "kubesphere.io",
            "v1alpha1",
            CrdScope::Namespaced,
            vec![],
        )],
    );
    assert!(matches!(render_v1_manifest(&missing_columns), Err(ManifestRenderError::MissingCrdColumns { .. })));
}

#[test]
fn rejects_duplicate_keys() {
    let dup_top = integration(
        "demo",
        vec![
            page_menu("A", "overview", MenuPlacement::Cluster),
            page_menu("B", "overview", MenuPlacement::Global),
        ],
        vec![iframe("overview", "http://example.test")],
    );
    assert!(matches!(
        render_v1_manifest(&dup_top),
        Err(ManifestRenderError::DuplicateTopLevelMenuKey { .. })
    ));
    let dup_page = integration(
        "demo",
        vec![page_menu("A", "overview", MenuPlacement::Cluster)],
        vec![iframe("overview", "http://a.test"), iframe("overview", "http://b.test")],
    );
    match render_v1_manifest(&dup_page) {
        Err(e) => assert_eq!(e.message(), "FrontendIntegration demo has duplicate page key 'overview'"),
        Ok(_) => panic!("expected a duplicate page key"),
    }
}

#[test]
fn routes_follow_placement() {
    let fi = integration(
        "demo",
        vec![
            page_menu("C", "c", MenuPlacement::Cluster),
            page_menu("W", "w", MenuPlacement::Workspace),
            page_menu("G", "g", MenuPlacement::Global),
        ],
        vec![iframe("c", "http://c.test"), iframe("w", "http://w.test"), iframe("g", "http://g.test")],
    );
    let manifest = render_v1_manifest(&fi).ok().unwrap();
    let routes = get(&manifest, "routes");
    assert_eq!(text(get(at(routes, 0), "path")), "/clusters/:cluster/frontendintegrations/demo/c");
    assert_eq!(text(get(at(routes, 1), "path")), "/workspaces/:workspace/frontendintegrations/demo/w");
    assert_eq!(text(get(at(routes, 2), "path")), "/frontendintegrations/demo/g");
    assert_eq!(text(get(at(routes, 2), "pageId")), "demo-global-g");
    assert_eq!(text(get(&manifest, "displayName")), "demo");
}

#[test]
fn placement_names_and_prefixes() {
    assert_eq!(MenuPlacement::Global.as_str(), "global");
    assert_eq!(MenuPlacement::Workspace.as_str(), "workspace");
    assert_eq!(MenuPlacement::Cluster.as_str(), "cluster");
    assert_eq!(MenuPlacement::Cluster.route_prefix(), "/clusters/:cluster");
    assert_eq!(MenuPlacement::Workspace.route_prefix(), "/workspaces/:workspace");
    assert_eq!(MenuPlacement::Global.route_prefix(), "");
}

#[test]
fn without_enabled_clears_only_the_enabled_flag() {
    let mut enabled_fi = demo_integration();
    enabled_fi.spec.enabled = Some(true);
    let mut disabled_fi = demo_integration();
    disabled_fi.spec.enabled = Some(false);

    let a = enabled_fi.spec.without_enabled();
    let b = disabled_fi.spec.without_enabled();
    assert_eq!(a.enabled, None);
    assert_eq!(b.enabled, None);
    assert_eq!(a.menus.len(), b.menus.len());
    assert_eq!(a.pages[0].key, b.pages[0].key);
    assert!(enabled_fi.spec.enabled());
    assert!(!disabled_fi.spec.enabled());
    assert!(demo_integration().spec.enabled());
}
