//! Kubernetes objects as the controller and the runner read and write them: metadata,
//! the `FrontendIntegration` and `JSBundle` resources and build `Job`s.
use crate::api::{
    FrontendIntegrationSpec, FrontendIntegrationSpecView, FrontendIntegrationStatus,
    FrontendIntegrationStatusView, JsBundleSpec, JsBundleSpecView, JsBundleStatus, JsBundleStatusView,
};
use crate::duplicate::Duplicate;
use crate::time::Timestamp;
use vstd::prelude::*;

verus! {

/// A string-to-string map (labels, annotations) as its list of entries.
pub type StringMap = Vec<(String, String)>;

/// The value under key `k`, taking the first entry with that key.
pub open spec fn map_get(m: Seq<(Seq<char>, Seq<char>)>, k: Seq<char>) -> Option<Seq<char>>
    decreases m.len(),
{
    if m.len() == 0 {
        None
    } else if m[0].0 == k {
        Some(m[0].1)
    } else {
        map_get(m.drop_first(), k)
    }
}

/// The value under key `k` of an optional map.
pub open spec fn opt_map_get(m: Option<Seq<(Seq<char>, Seq<char>)>>, k: Seq<char>) -> Option<
    Seq<char>,
> {
    match m {
        Some(m) => map_get(m, k),
        None => None,
    }
}

proof fn lemma_map_get_prefix(m: Seq<(Seq<char>, Seq<char>)>, i: int, k: Seq<char>)
    requires
        0 <= i <= m.len(),
        forall|j: int| 0 <= j < i ==> m[j].0 != k,
    ensures
        map_get(m, k) == map_get(m.subrange(i, m.len() as int), k),
    decreases i,
{
    if i == 0 {
        assert(m.subrange(0, m.len() as int) =~= m);
    } else {
        let t = m.drop_first();
        assert forall|j: int| 0 <= j < i - 1 implies t[j].0 != k by {
            assert(t[j] == m[j + 1]);
        }
        lemma_map_get_prefix(t, i - 1, k);
        assert(t.subrange(i - 1, t.len() as int) =~= m.subrange(i, m.len() as int));
    }
}

/// Looks up `key` in a string map.
pub fn string_map_get<'a>(m: &'a StringMap, key: &str) -> (r: Option<&'a String>)
    ensures
        match r {
            Some(v) => map_get(m.deep_view(), key@) == Some(v@),
            None => map_get(m.deep_view(), key@) is None,
        },
{
    let n = m.len();
    let mut i: usize = 0;
    let ghost mv = m.deep_view();
    while i < n
        invariant
            n == m@.len(),
            mv == m.deep_view(),
            0 <= i <= n,
            forall|j: int| 0 <= j < i ==> #[trigger] mv[j].0 != key@,
        decreases n - i,
    {
        if m[i].0 == String::from_str(key) {
            proof {
                lemma_map_get_prefix(mv, i as int, key@);
            }
            return Some(&m[i].1);
        }
        i += 1;
    }
    proof {
        lemma_map_get_prefix(mv, n as int, key@);
    }
    None
}

/// Looks up `key` in an optional string map.
pub fn opt_string_map_get<'a>(m: &'a Option<StringMap>, key: &str) -> (r: Option<&'a String>)
    ensures
        match r {
            Some(v) => opt_map_get(m.deep_view(), key@) == Some(v@),
            None => opt_map_get(m.deep_view(), key@) is None,
        },
{
    match m {
        Some(m) => string_map_get(m, key),
        None => None,
    }
}

/// A reference from an object to its owner.
pub struct OwnerReference {
    pub api_version: String,
    pub kind: String,
    pub name: String,
    pub uid: String,
    pub controller: Option<bool>,
    pub block_owner_deletion: Option<bool>,
}

pub struct OwnerReferenceView {
    pub api_version: Seq<char>,
    pub kind: Seq<char>,
    pub name: Seq<char>,
    pub uid: Seq<char>,
    pub controller: Option<bool>,
    pub block_owner_deletion: Option<bool>,
}

impl DeepView for OwnerReference {
    type V = OwnerReferenceView;

    open spec fn deep_view(&self) -> OwnerReferenceView {
        OwnerReferenceView {
            api_version: self.api_version@,
            kind: self.kind@,
            name: self.name@,
            uid: self.uid@,
            controller: self.controller,
            block_owner_deletion: self.block_owner_deletion,
        }
    }
}

impl Duplicate for OwnerReference {
    fn duplicate(&self) -> (r: Self) {
        OwnerReference {
            api_version: self.api_version.clone(),
            kind: self.kind.clone(),
            name: self.name.clone(),
            uid: self.uid.clone(),
            controller: self.controller,
            block_owner_deletion: self.block_owner_deletion,
        }
    }
}

/// Object metadata.
pub struct ObjectMeta {
    pub name: Option<String>,
    pub generate_name: Option<String>,
    pub namespace: Option<String>,
    pub uid: Option<String>,
    pub generation: Option<i64>,
    pub labels: Option<StringMap>,
    pub annotations: Option<StringMap>,
    pub owner_references: Option<Vec<OwnerReference>>,
    pub creation_timestamp: Option<Timestamp>,
    pub deletion_timestamp: Option<Timestamp>,
}

pub struct ObjectMetaView {
    pub name: Option<Seq<char>>,
    pub generate_name: Option<Seq<char>>,
    pub namespace: Option<Seq<char>>,
    pub uid: Option<Seq<char>>,
    pub generation: Option<i64>,
    pub labels: Option<Seq<(Seq<char>, Seq<char>)>>,
    pub annotations: Option<Seq<(Seq<char>, Seq<char>)>>,
    pub owner_references: Option<Seq<OwnerReferenceView>>,
    pub creation_timestamp: Option<Timestamp>,
    pub deletion_timestamp: Option<Timestamp>,
}

impl DeepView for ObjectMeta {
    type V = ObjectMetaView;

    open spec fn deep_view(&self) -> ObjectMetaView {
        ObjectMetaView {
            name: self.name.deep_view(),
            generate_name: self.generate_name.deep_view(),
            namespace: self.namespace.deep_view(),
            uid: self.uid.deep_view(),
            generation: self.generation,
            labels: self.labels.deep_view(),
            annotations: self.annotations.deep_view(),
            owner_references: self.owner_references.deep_view(),
            creation_timestamp: self.creation_timestamp,
            deletion_timestamp: self.deletion_timestamp,
        }
    }
}

impl ObjectMeta {
    /// Metadata with every field unset.
    pub fn empty() -> (m: Self)
        ensures
            m.deep_view() == spec_empty_meta(),
    {
        ObjectMeta {
            name: None,
            generate_name: None,
            namespace: None,
            uid: None,
            generation: None,
            labels: None,
            annotations: None,
            owner_references: None,
            creation_timestamp: None,
            deletion_timestamp: None,
        }
    }
}

pub open spec fn spec_empty_meta() -> ObjectMetaView {
    ObjectMetaView {
        name: None,
        generate_name: None,
        namespace: None,
        uid: None,
        generation: None,
        labels: None,
        annotations: None,
        owner_references: None,
        creation_timestamp: None,
        deletion_timestamp: None,
    }
}

/// The most useful name of an object: its name, else its generate-name, else empty
/// (what `kube::ResourceExt::name_any` returns).
pub open spec fn spec_name_any(m: ObjectMetaView) -> Seq<char> {
    match m.name {
        Some(n) => n,
        None => match m.generate_name {
            Some(g) => g,
            None => Seq::empty(),
        },
    }
}

pub fn name_any(m: &ObjectMeta) -> (r: String)
    ensures
        r@ == spec_name_any(m.deep_view()),
{
    match &m.name {
        Some(n) => n.clone(),
        None => match &m.generate_name {
            Some(g) => g.clone(),
            None => String::new(),
        },
    }
}

/// A `FrontendIntegration` object.
pub struct FrontendIntegration {
    pub metadata: ObjectMeta,
    pub spec: FrontendIntegrationSpec,
    pub status: Option<FrontendIntegrationStatus>,
}

pub struct FrontendIntegrationView {
    pub metadata: ObjectMetaView,
    pub spec: FrontendIntegrationSpecView,
    pub status: Option<FrontendIntegrationStatusView>,
}

impl DeepView for FrontendIntegration {
    type V = FrontendIntegrationView;

    open spec fn deep_view(&self) -> FrontendIntegrationView {
        FrontendIntegrationView {
            metadata: self.metadata.deep_view(),
            spec: self.spec.deep_view(),
            status: self.status.deep_view(),
        }
    }
}

/// The controller owner reference that points at an integration, present when the object
/// has both a name and a uid (what kube's derived `Resource::controller_owner_ref` gives).
pub open spec fn spec_fi_controller_owner_ref(m: ObjectMetaView) -> Option<OwnerReferenceView> {
    match (m.name, m.uid) {
        (Some(name), Some(uid)) => Some(
            OwnerReferenceView {
                api_version: "frontend-forge.kubesphere.io/v1alpha1"@,
                kind: "FrontendIntegration"@,
                name,
                uid,
                controller: Some(true),
                block_owner_deletion: None,
            },
        ),
        _ => None,
    }
}

impl FrontendIntegration {
    pub fn controller_owner_ref(&self) -> (r: Option<OwnerReference>)
        ensures
            r.deep_view() == spec_fi_controller_owner_ref(self.metadata.deep_view()),
    {
        match (&self.metadata.name, &self.metadata.uid) {
            (Some(name), Some(uid)) => Some(
                OwnerReference {
                    api_version: String::from_str("frontend-forge.kubesphere.io/v1alpha1"),
                    kind: String::from_str("FrontendIntegration"),
                    name: name.clone(),
                    uid: uid.clone(),
                    controller: Some(true),
                    block_owner_deletion: None,
                },
            ),
            _ => None,
        }
    }
}

/// A `JSBundle` object.
pub struct JSBundle {
    pub metadata: ObjectMeta,
    pub spec: JsBundleSpec,
    pub status: Option<JsBundleStatus>,
}

pub struct JSBundleView {
    pub metadata: ObjectMetaView,
    pub spec: JsBundleSpecView,
    pub status: Option<JsBundleStatusView>,
}

impl DeepView for JSBundle {
    type V = JSBundleView;

    open spec fn deep_view(&self) -> JSBundleView {
        JSBundleView {
            metadata: self.metadata.deep_view(),
            spec: self.spec.deep_view(),
            status: self.status.deep_view(),
        }
    }
}

/// A condition of a Job.
pub struct JobCondition {
    pub type_: String,
    pub status: String,
    pub reason: Option<String>,
    pub message: Option<String>,
}

pub struct JobConditionView {
    pub type_: Seq<char>,
    pub status: Seq<char>,
    pub reason: Option<Seq<char>>,
    pub message: Option<Seq<char>>,
}

impl DeepView for JobCondition {
    type V = JobConditionView;

    open spec fn deep_view(&self) -> JobConditionView {
        JobConditionView {
            type_: self.type_@,
            status: self.status@,
            reason: self.reason.deep_view(),
            message: self.message.deep_view(),
        }
    }
}

/// The observed state of a Job.
pub struct JobStatus {
    pub active: Option<i32>,
    pub succeeded: Option<i32>,
    pub failed: Option<i32>,
    pub conditions: Option<Vec<JobCondition>>,
}

pub struct JobStatusView {
    pub active: Option<i32>,
    pub succeeded: Option<i32>,
    pub failed: Option<i32>,
    pub conditions: Option<Seq<JobConditionView>>,
}

impl DeepView for JobStatus {
    type V = JobStatusView;

    open spec fn deep_view(&self) -> JobStatusView {
        JobStatusView {
            active: self.active,
            succeeded: self.succeeded,
            failed: self.failed,
            conditions: self.conditions.deep_view(),
        }
    }
}

pub struct EnvVar {
    pub name: String,
    pub value: Option<String>,
}

pub struct EnvVarView {
    pub name: Seq<char>,
    pub value: Option<Seq<char>>,
}

impl DeepView for EnvVar {
    type V = EnvVarView;

    open spec fn deep_view(&self) -> EnvVarView {
        EnvVarView { name: self.name@, value: self.value.deep_view() }
    }
}

pub struct Container {
    pub name: String,
    pub image: Option<String>,
    pub env: Option<Vec<EnvVar>>,
}

pub struct ContainerView {
    pub name: Seq<char>,
    pub image: Option<Seq<char>>,
    pub env: Option<Seq<EnvVarView>>,
}

impl DeepView for Container {
    type V = ContainerView;

    open spec fn deep_view(&self) -> ContainerView {
        ContainerView { name: self.name@, image: self.image.deep_view(), env: self.env.deep_view() }
    }
}

pub struct PodSpec {
    pub restart_policy: Option<String>,
    pub service_account_name: Option<String>,
    pub containers: Vec<Container>,
}

pub struct PodSpecView {
    pub restart_policy: Option<Seq<char>>,
    pub service_account_name: Option<Seq<char>>,
    pub containers: Seq<ContainerView>,
}

impl DeepView for PodSpec {
    type V = PodSpecView;

    open spec fn deep_view(&self) -> PodSpecView {
        PodSpecView {
            restart_policy: self.restart_policy.deep_view(),
            service_account_name: self.service_account_name.deep_view(),
            containers: self.containers.deep_view(),
        }
    }
}

pub struct PodTemplateSpec {
    pub metadata: Option<ObjectMeta>,
    pub spec: Option<PodSpec>,
}

pub struct PodTemplateSpecView {
    pub metadata: Option<ObjectMetaView>,
    pub spec: Option<PodSpecView>,
}

impl DeepView for PodTemplateSpec {
    type V = PodTemplateSpecView;

    open spec fn deep_view(&self) -> PodTemplateSpecView {
        PodTemplateSpecView { metadata: self.metadata.deep_view(), spec: self.spec.deep_view() }
    }
}

pub struct JobSpec {
    pub active_deadline_seconds: Option<i64>,
    pub ttl_seconds_after_finished: Option<i32>,
    pub backoff_limit: Option<i32>,
    pub template: PodTemplateSpec,
}

pub struct JobSpecView {
    pub active_deadline_seconds: Option<i64>,
    pub ttl_seconds_after_finished: Option<i32>,
    pub backoff_limit: Option<i32>,
    pub template: PodTemplateSpecView,
}

impl DeepView for JobSpec {
    type V = JobSpecView;

    open spec fn deep_view(&self) -> JobSpecView {
        JobSpecView {
            active_deadline_seconds: self.active_deadline_seconds,
            ttl_seconds_after_finished: self.ttl_seconds_after_finished,
            backoff_limit: self.backoff_limit,
            template: self.template.deep_view(),
        }
    }
}

/// A batch Job.
pub struct Job {
    pub metadata: ObjectMeta,
    pub spec: Option<JobSpec>,
    pub status: Option<JobStatus>,
}

pub struct JobView {
    pub metadata: ObjectMetaView,
    pub spec: Option<JobSpecView>,
    pub status: Option<JobStatusView>,
}

impl DeepView for Job {
    type V = JobView;

    open spec fn deep_view(&self) -> JobView {
        JobView {
            metadata: self.metadata.deep_view(),
            spec: self.spec.deep_view(),
            status: self.status.deep_view(),
        }
    }
}

/// A `ConfigMap`: metadata and string data.
pub struct ConfigMap {
    pub metadata: ObjectMeta,
    pub data: Option<StringMap>,
}

pub struct ConfigMapView {
    pub metadata: ObjectMetaView,
    pub data: Option<Seq<(Seq<char>, Seq<char>)>>,
}

impl DeepView for ConfigMap {
    type V = ConfigMapView;

    open spec fn deep_view(&self) -> ConfigMapView {
        ConfigMapView { metadata: self.metadata.deep_view(), data: self.data.deep_view() }
    }
}

} // verus!
