//! The `FrontendIntegration` and `JSBundle` resource model: spec, status and render errors.
use crate::duplicate::Duplicate;
use crate::json::{JsonValue, JsonView};
use crate::time::Timestamp;
use vstd::prelude::*;

verus! {

pub const API_GROUP: &'static str = "frontend-forge.kubesphere.io";

pub const API_VERSION: &'static str = "v1alpha1";

pub const JSBUNDLE_PLURAL: &'static str = "jsbundles";

pub const JSBUNDLE_API_GROUP: &'static str = "extensions.kubesphere.io";

pub const JSBUNDLE_API_VERSION: &'static str = "v1alpha1";

pub const RESOURCE_SERVED_LABEL_KEY: &'static str = "kubesphere.io/resource-served";

pub const RESOURCE_SERVED_LABEL_VALUE: &'static str = "true";

// ---------------------------------------------------------------- enums
/// Where a top-level menu is mounted.
#[derive(Clone, Copy, Debug, PartialEq, Eq, Structural)]
pub enum MenuPlacement {
    Global,
    Workspace,
    Cluster,
}

/// Kind of a top-level menu node.
#[derive(Clone, Copy, Debug, PartialEq, Eq, Structural)]
pub enum MenuNodeType {
    Page,
    Organization,
}

/// Kind of a page configuration.
#[derive(Clone, Copy, Debug, PartialEq, Eq, Structural)]
pub enum PageType {
    CrdTable,
    Iframe,
}

/// Scope of the custom resource shown by a CRD table page.
#[derive(Clone, Copy, Debug, PartialEq, Eq, Structural)]
pub enum CrdScope {
    Namespaced,
    Cluster,
}

/// How a table column renders its cell.
#[derive(Clone, Copy, Debug, PartialEq, Eq, Structural)]
pub enum ColumnRenderType {
    Text,
    Time,
    Link,
}

/// Build phase recorded in the integration status.
#[derive(Clone, Copy, Debug, PartialEq, Eq, Structural)]
pub enum FrontendIntegrationPhase {
    Pending,
    Building,
    Succeeded,
    Failed,
}

impl Default for FrontendIntegrationPhase {
    fn default() -> (r: Self)
        ensures
            r == FrontendIntegrationPhase::Pending,
    {
        FrontendIntegrationPhase::Pending
    }
}

impl DeepView for MenuPlacement {
    type V = MenuPlacement;

    open spec fn deep_view(&self) -> MenuPlacement {
        *self
    }
}

impl DeepView for MenuNodeType {
    type V = MenuNodeType;

    open spec fn deep_view(&self) -> MenuNodeType {
        *self
    }
}

impl DeepView for PageType {
    type V = PageType;

    open spec fn deep_view(&self) -> PageType {
        *self
    }
}

impl DeepView for CrdScope {
    type V = CrdScope;

    open spec fn deep_view(&self) -> CrdScope {
        *self
    }
}

impl DeepView for ColumnRenderType {
    type V = ColumnRenderType;

    open spec fn deep_view(&self) -> ColumnRenderType {
        *self
    }
}

impl DeepView for FrontendIntegrationPhase {
    type V = FrontendIntegrationPhase;

    open spec fn deep_view(&self) -> FrontendIntegrationPhase {
        *self
    }
}

impl Duplicate for MenuPlacement {
    fn duplicate(&self) -> (r: Self) {
        *self
    }
}

impl Duplicate for MenuNodeType {
    fn duplicate(&self) -> (r: Self) {
        *self
    }
}

impl Duplicate for PageType {
    fn duplicate(&self) -> (r: Self) {
        *self
    }
}

impl Duplicate for CrdScope {
    fn duplicate(&self) -> (r: Self) {
        *self
    }
}

impl Duplicate for ColumnRenderType {
    fn duplicate(&self) -> (r: Self) {
        *self
    }
}

impl Duplicate for FrontendIntegrationPhase {
    fn duplicate(&self) -> (r: Self) {
        *self
    }
}

/// The name of a placement as it appears in menu parents and page ids.
pub open spec fn placement_str(p: MenuPlacement) -> Seq<char> {
    match p {
        MenuPlacement::Global => "global"@,
        MenuPlacement::Workspace => "workspace"@,
        MenuPlacement::Cluster => "cluster"@,
    }
}

/// The route prefix of a placement.
pub open spec fn placement_route_prefix(p: MenuPlacement) -> Seq<char> {
    match p {
        MenuPlacement::Cluster => "/clusters/:cluster"@,
        MenuPlacement::Workspace => "/workspaces/:workspace"@,
        MenuPlacement::Global => ""@,
    }
}

impl MenuPlacement {
    pub fn as_str(self) -> (s: &'static str)
        ensures
            s@ == placement_str(self),
    {
        match self {
            MenuPlacement::Global => "global",
            MenuPlacement::Workspace => "workspace",
            MenuPlacement::Cluster => "cluster",
        }
    }

    pub fn route_prefix(self) -> (s: &'static str)
        ensures
            s@ == placement_route_prefix(self),
    {
        match self {
            MenuPlacement::Cluster => "/clusters/:cluster",
            MenuPlacement::Workspace => "/workspaces/:workspace",
            MenuPlacement::Global => "",
        }
    }
}

// ---------------------------------------------------------------- spec types
pub struct BuilderSpec {
    pub engine_version: Option<String>,
}

pub struct BuilderSpecView {
    pub engine_version: Option<Seq<char>>,
}

impl DeepView for BuilderSpec {
    type V = BuilderSpecView;

    open spec fn deep_view(&self) -> BuilderSpecView {
        BuilderSpecView { engine_version: self.engine_version.deep_view() }
    }
}

impl Duplicate for BuilderSpec {
    fn duplicate(&self) -> (r: Self) {
        BuilderSpec { engine_version: self.engine_version.duplicate() }
    }
}

pub struct SecondaryMenuSpec {
    pub display_name: String,
    pub key: String,
}

pub struct SecondaryMenuSpecView {
    pub display_name: Seq<char>,
    pub key: Seq<char>,
}

impl DeepView for SecondaryMenuSpec {
    type V = SecondaryMenuSpecView;

    open spec fn deep_view(&self) -> SecondaryMenuSpecView {
        SecondaryMenuSpecView { display_name: self.display_name@, key: self.key@ }
    }
}

impl Duplicate for SecondaryMenuSpec {
    fn duplicate(&self) -> (r: Self) {
        SecondaryMenuSpec { display_name: self.display_name.clone(), key: self.key.clone() }
    }
}

pub struct PrimaryMenuSpec {
    pub display_name: String,
    pub key: String,
    pub placement: MenuPlacement,
    pub type_: MenuNodeType,
    pub children: Vec<SecondaryMenuSpec>,
}

pub struct PrimaryMenuSpecView {
    pub display_name: Seq<char>,
    pub key: Seq<char>,
    pub placement: MenuPlacement,
    pub type_: MenuNodeType,
    pub children: Seq<SecondaryMenuSpecView>,
}

impl DeepView for PrimaryMenuSpec {
    type V = PrimaryMenuSpecView;

    open spec fn deep_view(&self) -> PrimaryMenuSpecView {
        PrimaryMenuSpecView {
            display_name: self.display_name@,
            key: self.key@,
            placement: self.placement,
            type_: self.type_,
            children: self.children.deep_view(),
        }
    }
}

impl Duplicate for PrimaryMenuSpec {
    fn duplicate(&self) -> (r: Self) {
        PrimaryMenuSpec {
            display_name: self.display_name.clone(),
            key: self.key.clone(),
            placement: self.placement,
            type_: self.type_,
            children: self.children.duplicate(),
        }
    }
}

pub struct IframePageSpec {
    pub src: String,
}

pub struct IframePageSpecView {
    pub src: Seq<char>,
}

impl DeepView for IframePageSpec {
    type V = IframePageSpecView;

    open spec fn deep_view(&self) -> IframePageSpecView {
        IframePageSpecView { src: self.src@ }
    }
}

impl Duplicate for IframePageSpec {
    fn duplicate(&self) -> (r: Self) {
        IframePageSpec { src: self.src.clone() }
    }
}

pub struct CrdNamesSpec {
    pub kind: String,
    pub plural: String,
}

pub struct CrdNamesSpecView {
    pub kind: Seq<char>,
    pub plural: Seq<char>,
}

impl DeepView for CrdNamesSpec {
    type V = CrdNamesSpecView;

    open spec fn deep_view(&self) -> CrdNamesSpecView {
        CrdNamesSpecView { kind: self.kind@, plural: self.plural@ }
    }
}

impl Duplicate for CrdNamesSpec {
    fn duplicate(&self) -> (r: Self) {
        CrdNamesSpec { kind: self.kind.clone(), plural: self.plural.clone() }
    }
}

pub struct ColumnRenderSpec {
    pub type_: ColumnRenderType,
    pub path: String,
    pub format: Option<String>,
    pub pattern: Option<String>,
    pub link: Option<String>,
    /// Extra render options: the entries of a JSON object.
    pub payload: Option<Vec<(String, JsonValue)>>,
}

pub struct ColumnRenderSpecView {
    pub type_: ColumnRenderType,
    pub path: Seq<char>,
    pub format: Option<Seq<char>>,
    pub pattern: Option<Seq<char>>,
    pub link: Option<Seq<char>>,
    pub payload: Option<Seq<(Seq<char>, JsonView)>>,
}

impl DeepView for ColumnRenderSpec {
    type V = ColumnRenderSpecView;

    open spec fn deep_view(&self) -> ColumnRenderSpecView {
        ColumnRenderSpecView {
            type_: self.type_,
            path: self.path@,
            format: self.format.deep_view(),
            pattern: self.pattern.deep_view(),
            link: self.link.deep_view(),
            payload: self.payload.deep_view(),
        }
    }
}

impl Duplicate for ColumnRenderSpec {
    fn duplicate(&self) -> (r: Self) {
        ColumnRenderSpec {
            type_: self.type_,
            path: self.path.clone(),
            format: self.format.duplicate(),
            pattern: self.pattern.duplicate(),
            link: self.link.duplicate(),
            payload: self.payload.duplicate(),
        }
    }
}

pub struct ColumnSpec {
    pub key: String,
    pub title: String,
    pub render: ColumnRenderSpec,
    pub enable_sorting: Option<bool>,
    pub enable_hiding: Option<bool>,
}

pub struct ColumnSpecView {
    pub key: Seq<char>,
    pub title: Seq<char>,
    pub render: ColumnRenderSpecView,
    pub enable_sorting: Option<bool>,
    pub enable_hiding: Option<bool>,
}

impl DeepView for ColumnSpec {
    type V = ColumnSpecView;

    open spec fn deep_view(&self) -> ColumnSpecView {
        ColumnSpecView {
            key: self.key@,
            title: self.title@,
            render: self.render.deep_view(),
            enable_sorting: self.enable_sorting,
            enable_hiding: self.enable_hiding,
        }
    }
}

impl Duplicate for ColumnSpec {
    fn duplicate(&self) -> (r: Self) {
        ColumnSpec {
            key: self.key.clone(),
            title: self.title.clone(),
            render: self.render.duplicate(),
            enable_sorting: self.enable_sorting,
            enable_hiding: self.enable_hiding,
        }
    }
}

pub struct CrdTablePageSpec {
    pub names: CrdNamesSpec,
    pub group: String,
    pub version: String,
    pub auth_key: Option<String>,
    pub scope: CrdScope,
    pub columns: Vec<ColumnSpec>,
}

pub struct CrdTablePageSpecView {
    pub names: CrdNamesSpecView,
    pub group: Seq<char>,
    pub version: Seq<char>,
    pub auth_key: Option<Seq<char>>,
    pub scope: CrdScope,
    pub columns: Seq<ColumnSpecView>,
}

impl DeepView for CrdTablePageSpec {
    type V = CrdTablePageSpecView;

    open spec fn deep_view(&self) -> CrdTablePageSpecView {
        CrdTablePageSpecView {
            names: self.names.deep_view(),
            group: self.group@,
            version: self.version@,
            auth_key: self.auth_key.deep_view(),
            scope: self.scope,
            columns: self.columns.deep_view(),
        }
    }
}

impl Duplicate for CrdTablePageSpec {
    fn duplicate(&self) -> (r: Self) {
        CrdTablePageSpec {
            names: self.names.duplicate(),
            group: self.group.clone(),
            version: self.version.clone(),
            auth_key: self.auth_key.duplicate(),
            scope: self.scope,
            columns: self.columns.duplicate(),
        }
    }
}

pub struct PageSpec {
    pub key: String,
    pub type_: PageType,
    pub crd_table: Option<CrdTablePageSpec>,
    pub iframe: Option<IframePageSpec>,
}

pub struct PageSpecView {
    pub key: Seq<char>,
    pub type_: PageType,
    pub crd_table: Option<CrdTablePageSpecView>,
    pub iframe: Option<IframePageSpecView>,
}

impl DeepView for PageSpec {
    type V = PageSpecView;

    open spec fn deep_view(&self) -> PageSpecView {
        PageSpecView {
            key: self.key@,
            type_: self.type_,
            crd_table: self.crd_table.deep_view(),
            iframe: self.iframe.deep_view(),
        }
    }
}

impl Duplicate for PageSpec {
    fn duplicate(&self) -> (r: Self) {
        PageSpec {
            key: self.key.clone(),
            type_: self.type_,
            crd_table: self.crd_table.duplicate(),
            iframe: self.iframe.duplicate(),
        }
    }
}

/// What a user asks for: a two-level menu tree, its page configurations and build options.
pub struct FrontendIntegrationSpec {
    pub display_name: Option<String>,
    /// Locale name to message key to text, in key order.
    pub locales: Vec<(String, Vec<(String, String)>)>,
    pub enabled: Option<bool>,
    pub menus: Vec<PrimaryMenuSpec>,
    pub pages: Vec<PageSpec>,
    pub builder: Option<BuilderSpec>,
}

pub struct FrontendIntegrationSpecView {
    pub display_name: Option<Seq<char>>,
    pub locales: Seq<(Seq<char>, Seq<(Seq<char>, Seq<char>)>)>,
    pub enabled: Option<bool>,
    pub menus: Seq<PrimaryMenuSpecView>,
    pub pages: Seq<PageSpecView>,
    pub builder: Option<BuilderSpecView>,
}

impl DeepView for FrontendIntegrationSpec {
    type V = FrontendIntegrationSpecView;

    open spec fn deep_view(&self) -> FrontendIntegrationSpecView {
        FrontendIntegrationSpecView {
            display_name: self.display_name.deep_view(),
            locales: self.locales.deep_view(),
            enabled: self.enabled,
            menus: self.menus.deep_view(),
            pages: self.pages.deep_view(),
            builder: self.builder.deep_view(),
        }
    }
}

impl Duplicate for FrontendIntegrationSpec {
    fn duplicate(&self) -> (r: Self) {
        FrontendIntegrationSpec {
            display_name: self.display_name.duplicate(),
            locales: self.locales.duplicate(),
            enabled: self.enabled,
            menus: self.menus.duplicate(),
            pages: self.pages.duplicate(),
            builder: self.builder.duplicate(),
        }
    }
}

/// Whether the integration is enabled: an absent flag means enabled.
pub open spec fn spec_enabled(s: FrontendIntegrationSpecView) -> bool {
    match s.enabled {
        Some(b) => b,
        None => true,
    }
}

/// The engine version asked for in `builder.engineVersion`, if any.
pub open spec fn spec_engine_version(s: FrontendIntegrationSpecView) -> Option<Seq<char>> {
    match s.builder {
        Some(b) => b.engine_version,
        None => None,
    }
}

/// The spec with the `enabled` flag cleared: the part of a spec that identifies a build.
pub open spec fn spec_without_enabled(s: FrontendIntegrationSpecView) -> FrontendIntegrationSpecView {
    FrontendIntegrationSpecView { enabled: None, ..s }
}

impl FrontendIntegrationSpec {
    pub fn enabled(&self) -> (b: bool)
        ensures
            b == spec_enabled(self.deep_view()),
    {
        match self.enabled {
            Some(b) => b,
            None => true,
        }
    }

    pub fn without_enabled(&self) -> (r: Self)
        ensures
            r.deep_view() == spec_without_enabled(self.deep_view()),
    {
        let mut spec = self.duplicate();
        spec.enabled = None;
        spec
    }

    pub fn engine_version(&self) -> (r: Option<&str>)
        ensures
            match r {
                Some(v) => spec_engine_version(self.deep_view()) == Some(v@),
                None => spec_engine_version(self.deep_view()) is None,
            },
    {
        match &self.builder {
            Some(builder) => match &builder.engine_version {
                Some(v) => Some(v.as_str()),
                None => None,
            },
            None => None,
        }
    }
}

// ---------------------------------------------------------------- render errors
/// Why a spec cannot be rendered into a manifest.
pub enum ManifestRenderError {
    DuplicateTopLevelMenuKey { fi_name: String, key: String },
    DuplicatePageKey { fi_name: String, key: String },
    MissingPageForMenuKey { fi_name: String, key: String },
    OrphanPageConfig { fi_name: String, key: String },
    InvalidMenuShape { fi_name: String, key: String, message: String },
    InvalidPageShape { fi_name: String, key: String, message: String },
    InvalidMenuKey { fi_name: String, key: String },
    MissingCrdColumns { fi_name: String, key: String },
    UnsupportedEngineVersion { fi_name: String, engine_version: String },
}

pub enum ManifestRenderErrorView {
    DuplicateTopLevelMenuKey { fi_name: Seq<char>, key: Seq<char> },
    DuplicatePageKey { fi_name: Seq<char>, key: Seq<char> },
    MissingPageForMenuKey { fi_name: Seq<char>, key: Seq<char> },
    OrphanPageConfig { fi_name: Seq<char>, key: Seq<char> },
    InvalidMenuShape { fi_name: Seq<char>, key: Seq<char>, message: Seq<char> },
    InvalidPageShape { fi_name: Seq<char>, key: Seq<char>, message: Seq<char> },
    InvalidMenuKey { fi_name: Seq<char>, key: Seq<char> },
    MissingCrdColumns { fi_name: Seq<char>, key: Seq<char> },
    UnsupportedEngineVersion { fi_name: Seq<char>, engine_version: Seq<char> },
}

impl DeepView for ManifestRenderError {
    type V = ManifestRenderErrorView;

    open spec fn deep_view(&self) -> ManifestRenderErrorView {
        match self {
            ManifestRenderError::DuplicateTopLevelMenuKey { fi_name, key } =>
                ManifestRenderErrorView::DuplicateTopLevelMenuKey { fi_name: fi_name@, key: key@ },
            ManifestRenderError::DuplicatePageKey { fi_name, key } =>
                ManifestRenderErrorView::DuplicatePageKey { fi_name: fi_name@, key: key@ },
            ManifestRenderError::MissingPageForMenuKey { fi_name, key } =>
                ManifestRenderErrorView::MissingPageForMenuKey { fi_name: fi_name@, key: key@ },
            ManifestRenderError::OrphanPageConfig { fi_name, key } =>
                ManifestRenderErrorView::OrphanPageConfig { fi_name: fi_name@, key: key@ },
            ManifestRenderError::InvalidMenuShape { fi_name, key, message } =>
                ManifestRenderErrorView::InvalidMenuShape {
                    fi_name: fi_name@,
                    key: key@,
                    message: message@,
                },
            ManifestRenderError::InvalidPageShape { fi_name, key, message } =>
                ManifestRenderErrorView::InvalidPageShape {
                    fi_name: fi_name@,
                    key: key@,
                    message: message@,
                },
            ManifestRenderError::InvalidMenuKey { fi_name, key } =>
                ManifestRenderErrorView::InvalidMenuKey { fi_name: fi_name@, key: key@ },
            ManifestRenderError::MissingCrdColumns { fi_name, key } =>
                ManifestRenderErrorView::MissingCrdColumns { fi_name: fi_name@, key: key@ },
            ManifestRenderError::UnsupportedEngineVersion { fi_name, engine_version } =>
                ManifestRenderErrorView::UnsupportedEngineVersion {
                    fi_name: fi_name@,
                    engine_version: engine_version@,
                },
        }
    }
}

/// The message of a render error, as displayed to users.
pub open spec fn spec_render_error_message(e: ManifestRenderErrorView) -> Seq<char> {
    match e {
        ManifestRenderErrorView::DuplicateTopLevelMenuKey { fi_name, key } => "FrontendIntegration "@
            + fi_name + " has duplicate top-level menu key '"@ + key + "'"@,
        ManifestRenderErrorView::DuplicatePageKey { fi_name, key } => "FrontendIntegration "@
            + fi_name + " has duplicate page key '"@ + key + "'"@,
        ManifestRenderErrorView::MissingPageForMenuKey { fi_name, key } => "FrontendIntegration "@
            + fi_name + " is missing page config for menu key '"@ + key + "'"@,
        ManifestRenderErrorView::OrphanPageConfig { fi_name, key } => "FrontendIntegration "@
            + fi_name + " has page config '"@ + key + "' without a menu binding"@,
        ManifestRenderErrorView::InvalidMenuShape { fi_name, key, message } =>
            "FrontendIntegration "@ + fi_name + " has invalid menu shape for key '"@ + key + "': "@
                + message,
        ManifestRenderErrorView::InvalidPageShape { fi_name, key, message } =>
            "FrontendIntegration "@ + fi_name + " has invalid page shape for key '"@ + key + "': "@
                + message,
        ManifestRenderErrorView::InvalidMenuKey { fi_name, key } => "FrontendIntegration "@
            + fi_name + " has invalid menu key '"@ + key + "'"@,
        ManifestRenderErrorView::MissingCrdColumns { fi_name, key } => "FrontendIntegration "@
            + fi_name + " requires columns for CRD page '"@ + key + "'"@,
        ManifestRenderErrorView::UnsupportedEngineVersion { fi_name, engine_version } =>
            "FrontendIntegration "@ + fi_name + " requested unsupported builder.engineVersion '"@
                + engine_version + "'"@,
    }
}

fn message3(a: &str, b: &str, c: &str, d: &str, e: &str) -> (r: String)
    ensures
        r@ == a@ + b@ + c@ + d@ + e@,
{
    let mut out = String::from_str(a);
    out.append(b);
    out.append(c);
    out.append(d);
    out.append(e);
    out
}

impl ManifestRenderError {
    /// The message of the error (its display text).
    pub fn message(&self) -> (m: String)
        ensures
            m@ == spec_render_error_message(self.deep_view()),
    {
        match self {
            ManifestRenderError::DuplicateTopLevelMenuKey { fi_name, key } => message3(
                "FrontendIntegration ",
                fi_name.as_str(),
                " has duplicate top-level menu key '",
                key.as_str(),
                "'",
            ),
            ManifestRenderError::DuplicatePageKey { fi_name, key } => message3(
                "FrontendIntegration ",
                fi_name.as_str(),
                " has duplicate page key '",
                key.as_str(),
                "'",
            ),
            ManifestRenderError::MissingPageForMenuKey { fi_name, key } => message3(
                "FrontendIntegration ",
                fi_name.as_str(),
                " is missing page config for menu key '",
                key.as_str(),
                "'",
            ),
            ManifestRenderError::OrphanPageConfig { fi_name, key } => message3(
                "FrontendIntegration ",
                fi_name.as_str(),
                " has page config '",
                key.as_str(),
                "' without a menu binding",
            ),
            ManifestRenderError::InvalidMenuShape { fi_name, key, message } => {
                let mut m = message3(
                    "FrontendIntegration ",
                    fi_name.as_str(),
                    " has invalid menu shape for key '",
                    key.as_str(),
                    "': ",
                );
                m.append(message.as_str());
                m
            },
            ManifestRenderError::InvalidPageShape { fi_name, key, message } => {
                let mut m = message3(
                    "FrontendIntegration ",
                    fi_name.as_str(),
                    " has invalid page shape for key '",
                    key.as_str(),
                    "': ",
                );
                m.append(message.as_str());
                m
            },
            ManifestRenderError::InvalidMenuKey { fi_name, key } => message3(
                "FrontendIntegration ",
                fi_name.as_str(),
                " has invalid menu key '",
                key.as_str(),
                "'",
            ),
            ManifestRenderError::MissingCrdColumns { fi_name, key } => message3(
                "FrontendIntegration ",
                fi_name.as_str(),
                " requires columns for CRD page '",
                key.as_str(),
                "'",
            ),
            ManifestRenderError::UnsupportedEngineVersion { fi_name, engine_version } => message3(
                "FrontendIntegration ",
                fi_name.as_str(),
                " requested unsupported builder.engineVersion '",
                engine_version.as_str(),
                "'",
            ),
        }
    }
}

// ---------------------------------------------------------------- status types
/// A reference to a Kubernetes object.
pub struct ResourceRef {
    pub name: String,
    pub namespace: Option<String>,
    pub uid: Option<String>,
}

pub struct ResourceRefView {
    pub name: Seq<char>,
    pub namespace: Option<Seq<char>>,
    pub uid: Option<Seq<char>>,
}

impl DeepView for ResourceRef {
    type V = ResourceRefView;

    open spec fn deep_view(&self) -> ResourceRefView {
        ResourceRefView {
            name: self.name@,
            namespace: self.namespace.deep_view(),
            uid: self.uid.deep_view(),
        }
    }
}

impl Duplicate for ResourceRef {
    fn duplicate(&self) -> (r: Self) {
        ResourceRef {
            name: self.name.clone(),
            namespace: self.namespace.duplicate(),
            uid: self.uid.duplicate(),
        }
    }
}

pub struct LastBuildStatus {
    pub job_ref: Option<ResourceRef>,
    pub started_at: Option<Timestamp>,
}

pub struct LastBuildStatusView {
    pub job_ref: Option<ResourceRefView>,
    pub started_at: Option<Timestamp>,
}

impl DeepView for LastBuildStatus {
    type V = LastBuildStatusView;

    open spec fn deep_view(&self) -> LastBuildStatusView {
        LastBuildStatusView { job_ref: self.job_ref.deep_view(), started_at: self.started_at }
    }
}

impl Duplicate for LastBuildStatus {
    fn duplicate(&self) -> (r: Self) {
        LastBuildStatus { job_ref: self.job_ref.duplicate(), started_at: self.started_at }
    }
}

pub struct SimpleCondition {
    pub type_: String,
    pub status: String,
    pub reason: Option<String>,
    pub message: Option<String>,
    pub observed_generation: Option<i64>,
    pub last_transition_time: Option<Timestamp>,
}

pub struct SimpleConditionView {
    pub type_: Seq<char>,
    pub status: Seq<char>,
    pub reason: Option<Seq<char>>,
    pub message: Option<Seq<char>>,
    pub observed_generation: Option<i64>,
    pub last_transition_time: Option<Timestamp>,
}

impl DeepView for SimpleCondition {
    type V = SimpleConditionView;

    open spec fn deep_view(&self) -> SimpleConditionView {
        SimpleConditionView {
            type_: self.type_@,
            status: self.status@,
            reason: self.reason.deep_view(),
            message: self.message.deep_view(),
            observed_generation: self.observed_generation,
            last_transition_time: self.last_transition_time,
        }
    }
}

/// What the controller records about the latest build of an integration.
pub struct FrontendIntegrationStatus {
    pub phase: FrontendIntegrationPhase,
    pub observed_spec_hash: Option<String>,
    /// Kept for objects written by earlier releases.
    pub observed_manifest_hash: Option<String>,
    pub observed_generation: Option<i64>,
    pub last_build: Option<LastBuildStatus>,
    pub bundle_ref: Option<ResourceRef>,
    pub message: Option<String>,
    /// The error of the latest build, as its runner wrote it.
    pub last_error: Option<String>,
    pub conditions: Vec<SimpleCondition>,
}

pub struct FrontendIntegrationStatusView {
    pub phase: FrontendIntegrationPhase,
    pub observed_spec_hash: Option<Seq<char>>,
    pub observed_manifest_hash: Option<Seq<char>>,
    pub observed_generation: Option<i64>,
    pub last_build: Option<LastBuildStatusView>,
    pub bundle_ref: Option<ResourceRefView>,
    pub message: Option<Seq<char>>,
    pub last_error: Option<Seq<char>>,
    pub conditions: Seq<SimpleConditionView>,
}

impl DeepView for FrontendIntegrationStatus {
    type V = FrontendIntegrationStatusView;

    open spec fn deep_view(&self) -> FrontendIntegrationStatusView {
        FrontendIntegrationStatusView {
            phase: self.phase,
            observed_spec_hash: self.observed_spec_hash.deep_view(),
            observed_manifest_hash: self.observed_manifest_hash.deep_view(),
            observed_generation: self.observed_generation,
            last_build: self.last_build.deep_view(),
            bundle_ref: self.bundle_ref.deep_view(),
            message: self.message.deep_view(),
            last_error: self.last_error.deep_view(),
            conditions: self.conditions.deep_view(),
        }
    }
}

impl Default for FrontendIntegrationStatus {
    fn default() -> (r: Self)
        ensures
            r.phase == FrontendIntegrationPhase::Pending,
            r.observed_spec_hash is None,
            r.observed_manifest_hash is None,
            r.observed_generation is None,
            r.last_build is None,
            r.bundle_ref is None,
            r.message is None,
            r.last_error is None,
            r.conditions@.len() == 0,
    {
        FrontendIntegrationStatus {
            phase: FrontendIntegrationPhase::Pending,
            observed_spec_hash: None,
            observed_manifest_hash: None,
            observed_generation: None,
            last_build: None,
            bundle_ref: None,
            message: None,
            last_error: None,
            conditions: Vec::new(),
        }
    }
}

// ---------------------------------------------------------------- JSBundle
pub struct JsBundleNamespacedKeyRef {
    pub key: String,
    pub name: String,
    pub namespace: String,
    pub optional: Option<bool>,
}

pub struct JsBundleNamespacedKeyRefView {
    pub key: Seq<char>,
    pub name: Seq<char>,
    pub namespace: Seq<char>,
    pub optional: Option<bool>,
}

impl DeepView for JsBundleNamespacedKeyRef {
    type V = JsBundleNamespacedKeyRefView;

    open spec fn deep_view(&self) -> JsBundleNamespacedKeyRefView {
        JsBundleNamespacedKeyRefView {
            key: self.key@,
            name: self.name@,
            namespace: self.namespace@,
            optional: self.optional,
        }
    }
}

pub struct JsBundleRawFromSpec {
    pub config_map_key_ref: Option<JsBundleNamespacedKeyRef>,
    pub secret_key_ref: Option<JsBundleNamespacedKeyRef>,
    pub url: Option<String>,
}

pub struct JsBundleRawFromSpecView {
    pub config_map_key_ref: Option<JsBundleNamespacedKeyRefView>,
    pub secret_key_ref: Option<JsBundleNamespacedKeyRefView>,
    pub url: Option<Seq<char>>,
}

impl DeepView for JsBundleRawFromSpec {
    type V = JsBundleRawFromSpecView;

    open spec fn deep_view(&self) -> JsBundleRawFromSpecView {
        JsBundleRawFromSpecView {
            config_map_key_ref: self.config_map_key_ref.deep_view(),
            secret_key_ref: self.secret_key_ref.deep_view(),
            url: self.url.deep_view(),
        }
    }
}

pub struct JsBundleSpec {
    pub raw: Option<String>,
    pub raw_from: Option<JsBundleRawFromSpec>,
}

pub struct JsBundleSpecView {
    pub raw: Option<Seq<char>>,
    pub raw_from: Option<JsBundleRawFromSpecView>,
}

impl DeepView for JsBundleSpec {
    type V = JsBundleSpecView;

    open spec fn deep_view(&self) -> JsBundleSpecView {
        JsBundleSpecView { raw: self.raw.deep_view(), raw_from: self.raw_from.deep_view() }
    }
}

pub struct JsBundleStatus {
    pub state: Option<String>,
    pub link: Option<String>,
    pub conditions: Vec<JsonValue>,
}

pub struct JsBundleStatusView {
    pub state: Option<Seq<char>>,
    pub link: Option<Seq<char>>,
    pub conditions: Seq<JsonView>,
}

impl DeepView for JsBundleStatus {
    type V = JsBundleStatusView;

    open spec fn deep_view(&self) -> JsBundleStatusView {
        JsBundleStatusView {
            state: self.state.deep_view(),
            link: self.link.deep_view(),
            conditions: self.conditions.deep_view(),
        }
    }
}

} // verus!
