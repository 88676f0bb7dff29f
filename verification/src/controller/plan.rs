//! The reconcile decisions: which branch a reconcile takes, which Job a build uses, and what
//! the Job and bundle of the current hash say about the integration.
use crate::api::{spec_enabled, FrontendIntegrationStatus, FrontendIntegrationStatusView};
use crate::controller::job::{
    extract_job_message, observed_job_phase, spec_extract_job_message, spec_observed_job_phase,
    ObservedJobPhase,
};
use crate::controller::status::{
    building_status_at, bundle_matches_spec_hash, bundle_ready_status, disabled_status, failed_status,
    needs_new_build, opt_bundle_view, prev_last_error, prev_last_error_of, spec_disabled_status,
    spec_opt_bundle_matches, should_reuse_build_job, spec_building_status, spec_bundle_matches_spec_hash,
    spec_bundle_ready_status, spec_failed_status, spec_needs_new_build, spec_should_reuse_build_job,
    spec_succeeded_status, succeeded_status,
};
use crate::resource::{FrontendIntegration, FrontendIntegrationView, JSBundle, JSBundleView, Job, JobView};
use crate::time::{timestamp_in_range, utc_now, Timestamp};
use vstd::prelude::*;

verus! {

/// What the controller runtime does after a reconcile.
#[derive(Clone, Copy, Debug, PartialEq, Eq, Structural)]
pub enum ReconcileAction {
    /// Wait for the next change of the integration or of its Jobs.
    AwaitChange,
    /// Reconcile again after this many seconds.
    Requeue { seconds: u64 },
}

/// The branch a reconcile takes once the integration's bundle has been looked up.
#[derive(Clone, Copy, Debug, PartialEq, Eq, Structural)]
pub enum ReconcileStep {
    /// The integration is disabled: mark the bundle disabled and record the disabled status.
    Disabled,
    /// A build is needed for the current spec hash.
    Build,
    /// Follow the Job and bundle of the current spec hash.
    SyncChildren,
}

/// A reconcile of an object being deleted does nothing.
pub fn reconcile_skips(fi: &FrontendIntegration) -> (b: bool)
    ensures
        b == fi.deep_view().metadata.deletion_timestamp is Some,
{
    fi.metadata.deletion_timestamp.is_some()
}

pub open spec fn spec_plan_reconcile(fi: FrontendIntegrationView, spec_hash: Seq<char>, bundle: Option<JSBundleView>) -> ReconcileStep {
    if !spec_enabled(fi.spec) {
        ReconcileStep::Disabled
    } else if spec_needs_new_build(fi.status, spec_hash, bundle) {
        ReconcileStep::Build
    } else {
        ReconcileStep::SyncChildren
    }
}

pub fn plan_reconcile(fi: &FrontendIntegration, spec_hash: &str, bundle: Option<&JSBundle>) -> (step: ReconcileStep)
    ensures
        step == spec_plan_reconcile(fi.deep_view(), spec_hash@, opt_bundle_view(bundle)),
{
    if !fi.spec.enabled() {
        ReconcileStep::Disabled
    } else if needs_new_build(fi, spec_hash, bundle) {
        ReconcileStep::Build
    } else {
        ReconcileStep::SyncChildren
    }
}

/// The Job a build goes on with: the existing Job of the hash when it may be reused,
/// otherwise none (a new Job is to be created).
pub fn choose_build_job(
    fi: &FrontendIntegration,
    existing: Option<Job>,
    bundle: Option<&JSBundle>,
    spec_hash: &str,
) -> (r: Option<Job>)
    ensures
        match existing {
            Some(j) => if spec_should_reuse_build_job(fi.deep_view(), j.deep_view(), opt_bundle_view(bundle), spec_hash@) {
                r == Some(j)
            } else {
                r is None
            },
            None => r is None,
        },
{
    match existing {
        Some(job) => if should_reuse_build_job(fi, &job, bundle, spec_hash) {
            Some(job)
        } else {
            None
        },
        None => None,
    }
}

/// What a reconcile ends with.
pub struct ReconcileOutcome {
    /// The status to record, if any.
    pub status: Option<FrontendIntegrationStatus>,
    /// The enabled state to bring the bundle to (its `enabled` label and state), if any.
    pub bundle_enabled: Option<bool>,
    pub action: ReconcileAction,
}

pub struct ReconcileOutcomeView {
    pub status: Option<FrontendIntegrationStatusView>,
    pub bundle_enabled: Option<bool>,
    pub action: ReconcileAction,
}

impl DeepView for ReconcileOutcome {
    type V = ReconcileOutcomeView;

    open spec fn deep_view(&self) -> ReconcileOutcomeView {
        ReconcileOutcomeView {
            status: self.status.deep_view(),
            bundle_enabled: self.bundle_enabled,
            action: self.action,
        }
    }
}

/// Whether the decision needs the bundle: only when there is no Job for the hash or the Job
/// succeeded.
pub open spec fn spec_children_need_bundle(job: Option<JobView>) -> bool {
    match job {
        None => true,
        Some(j) => spec_observed_job_phase(j.status) == ObservedJobPhase::Succeeded,
    }
}

pub fn children_need_bundle(job: Option<&Job>) -> (b: bool)
    ensures
        b == spec_children_need_bundle(opt_job_view(job)),
{
    match job {
        None => true,
        Some(j) => observed_job_phase(
            match &j.status {
                Some(s) => Some(s),
                None => None,
            },
        ) == ObservedJobPhase::Succeeded,
    }
}

pub open spec fn opt_job_view(job: Option<&Job>) -> Option<JobView> {
    match job {
        Some(j) => Some(j.deep_view()),
        None => None,
    }
}

/// The message recorded for a failed build: the error its runner wrote into the status,
/// else the message of the Job's failure condition, else `Build job failed`.
pub open spec fn spec_failure_message(fi: FrontendIntegrationView, job: JobView) -> Seq<char> {
    match prev_last_error(fi) {
        Some(e) => e,
        None => match spec_extract_job_message(job) {
            Some(m) => m,
            None => "Build job failed"@,
        },
    }
}

/// A decision that records a building status and looks again later.
pub open spec fn building_decision(
    fi: FrontendIntegrationView,
    spec_hash: Seq<char>,
    bundle_name: Seq<char>,
    job: JobView,
    message: Seq<char>,
    requeue_seconds: u64,
    now: Timestamp,
) -> ReconcileOutcomeView {
    ReconcileOutcomeView {
        status: Some(spec_building_status(fi, spec_hash, bundle_name, job, message, now)),
        bundle_enabled: None,
        action: ReconcileAction::Requeue { seconds: requeue_seconds },
    }
}

/// The decision for the Job and bundle of the current hash: a pending or running Job keeps
/// the build going; a failed Job records the runner's error (see [`spec_failure_message`]);
/// a succeeded Job records success once the bundle with the hash exists, and waits for it
/// otherwise; without a Job, an existing bundle with the hash is recorded as ready, and
/// nothing happens otherwise.
pub open spec fn spec_decide_children(
    fi: FrontendIntegrationView,
    spec_hash: Seq<char>,
    bundle_name: Seq<char>,
    job: Option<JobView>,
    bundle: Option<JSBundleView>,
    requeue_seconds: u64,
    now: Timestamp,
) -> ReconcileOutcomeView {
    match job {
        Some(j) => match spec_observed_job_phase(j.status) {
            ObservedJobPhase::Pending | ObservedJobPhase::Running => building_decision(
                fi,
                spec_hash,
                bundle_name,
                j,
                "Build in progress"@,
                requeue_seconds,
                now,
            ),
            ObservedJobPhase::Failed => ReconcileOutcomeView {
                status: Some(spec_failed_status(fi, spec_hash, spec_failure_message(fi, j))),
                bundle_enabled: None,
                action: ReconcileAction::AwaitChange,
            },
            ObservedJobPhase::Succeeded => match bundle {
                Some(b) => if spec_bundle_matches_spec_hash(b, spec_hash) {
                    ReconcileOutcomeView {
                        status: Some(spec_succeeded_status(fi, spec_hash, b, j)),
                        bundle_enabled: Some(true),
                        action: ReconcileAction::AwaitChange,
                    }
                } else {
                    building_decision(
                        fi,
                        spec_hash,
                        bundle_name,
                        j,
                        "Job succeeded; waiting for JSBundle with matching spec-hash"@,
                        requeue_seconds,
                        now,
                    )
                },
                None => building_decision(
                    fi,
                    spec_hash,
                    bundle_name,
                    j,
                    "Job succeeded; waiting for JSBundle materialization"@,
                    requeue_seconds,
                    now,
                ),
            },
        },
        None => match bundle {
            Some(b) => if spec_bundle_matches_spec_hash(b, spec_hash) {
                ReconcileOutcomeView {
                    status: Some(spec_bundle_ready_status(fi, spec_hash, b)),
                    bundle_enabled: Some(true),
                    action: ReconcileAction::AwaitChange,
                }
            } else {
                ReconcileOutcomeView { status: None, bundle_enabled: None, action: ReconcileAction::AwaitChange }
            },
            None => ReconcileOutcomeView { status: None, bundle_enabled: None, action: ReconcileAction::AwaitChange },
        },
    }
}

/// The decision, with building statuses stamped `now`.
pub fn decide_children_at(
    fi: &FrontendIntegration,
    spec_hash: &str,
    bundle_name: &str,
    job: Option<&Job>,
    bundle: Option<&JSBundle>,
    requeue_seconds: u64,
    now: Timestamp,
) -> (d: ReconcileOutcome)
    ensures
        d.deep_view() == spec_decide_children(
            fi.deep_view(),
            spec_hash@,
            bundle_name@,
            opt_job_view(job),
            opt_bundle_view(bundle),
            requeue_seconds,
            now,
        ),
{
    match job {
        Some(job) => {
            let phase = observed_job_phase(
                match &job.status {
                    Some(s) => Some(s),
                    None => None,
                },
            );
            match phase {
                ObservedJobPhase::Pending | ObservedJobPhase::Running => ReconcileOutcome {
                    status: Some(building_status_at(fi, spec_hash, bundle_name, job, "Build in progress", now)),
                    bundle_enabled: None,
                    action: ReconcileAction::Requeue { seconds: requeue_seconds },
                },
                ObservedJobPhase::Failed => {
                    let msg = match prev_last_error_of(fi) {
                        Some(e) => e,
                        None => match extract_job_message(job) {
                            Some(m) => m,
                            None => String::from_str("Build job failed"),
                        },
                    };
                    ReconcileOutcome {
                        status: Some(failed_status(fi, spec_hash, msg)),
                        bundle_enabled: None,
                        action: ReconcileAction::AwaitChange,
                    }
                },
                ObservedJobPhase::Succeeded => match bundle {
                    Some(b) => if bundle_matches_spec_hash(b, spec_hash) {
                        ReconcileOutcome {
                            status: Some(succeeded_status(fi, spec_hash, b, job)),
                            bundle_enabled: Some(true),
                            action: ReconcileAction::AwaitChange,
                        }
                    } else {
                        ReconcileOutcome {
                            status: Some(
                                building_status_at(
                                    fi,
                                    spec_hash,
                                    bundle_name,
                                    job,
                                    "Job succeeded; waiting for JSBundle with matching spec-hash",
                                    now,
                                ),
                            ),
                            bundle_enabled: None,
                            action: ReconcileAction::Requeue { seconds: requeue_seconds },
                        }
                    },
                    None => ReconcileOutcome {
                        status: Some(
                            building_status_at(
                                fi,
                                spec_hash,
                                bundle_name,
                                job,
                                "Job succeeded; waiting for JSBundle materialization",
                                now,
                            ),
                        ),
                        bundle_enabled: None,
                        action: ReconcileAction::Requeue { seconds: requeue_seconds },
                    },
                },
            }
        },
        None => match bundle {
            Some(b) => if bundle_matches_spec_hash(b, spec_hash) {
                ReconcileOutcome {
                    status: Some(bundle_ready_status(fi, spec_hash, b)),
                    bundle_enabled: Some(true),
                    action: ReconcileAction::AwaitChange,
                }
            } else {
                ReconcileOutcome { status: None, bundle_enabled: None, action: ReconcileAction::AwaitChange }
            },
            None => ReconcileOutcome { status: None, bundle_enabled: None, action: ReconcileAction::AwaitChange },
        },
    }
}

/// Whether the decision records a building status, and so reads the clock: for a pending or
/// running Job, and for a succeeded Job whose bundle is not there yet.
pub open spec fn spec_children_need_clock(job: Option<JobView>, bundle: Option<JSBundleView>, spec_hash: Seq<char>) -> bool {
    match job {
        Some(j) => match spec_observed_job_phase(j.status) {
            ObservedJobPhase::Pending | ObservedJobPhase::Running => true,
            ObservedJobPhase::Failed => false,
            ObservedJobPhase::Succeeded => !spec_opt_bundle_matches(bundle, spec_hash),
        },
        None => false,
    }
}

pub fn children_need_clock(job: Option<&Job>, bundle: Option<&JSBundle>, spec_hash: &str) -> (b: bool)
    ensures
        b == spec_children_need_clock(opt_job_view(job), opt_bundle_view(bundle), spec_hash@),
{
    match job {
        Some(j) => {
            let phase = observed_job_phase(
                match &j.status {
                    Some(s) => Some(s),
                    None => None,
                },
            );
            match phase {
                ObservedJobPhase::Pending | ObservedJobPhase::Running => true,
                ObservedJobPhase::Failed => false,
                ObservedJobPhase::Succeeded => match bundle {
                    Some(b) => !bundle_matches_spec_hash(b, spec_hash),
                    None => true,
                },
            }
        },
        None => false,
    }
}

/// The decision, with building statuses stamped with the current time. When a building status
/// is due and the system clock reads no usable instant, there is no decision (none); the other
/// decisions do not depend on the time and are always made.
pub fn decide_children(
    fi: &FrontendIntegration,
    spec_hash: &str,
    bundle_name: &str,
    job: Option<&Job>,
    bundle: Option<&JSBundle>,
    requeue_seconds: u64,
) -> (d: Option<ReconcileOutcome>)
    ensures
        d matches Some(x) ==> exists|now: Timestamp|
            timestamp_in_range(now) && x.deep_view() == spec_decide_children(
                fi.deep_view(),
                spec_hash@,
                bundle_name@,
                opt_job_view(job),
                opt_bundle_view(bundle),
                requeue_seconds,
                now,
            ),
        !spec_children_need_clock(opt_job_view(job), opt_bundle_view(bundle), spec_hash@) ==> (d matches Some(x)
            && forall|now: Timestamp|
            x.deep_view() == #[trigger] spec_decide_children(
                fi.deep_view(),
                spec_hash@,
                bundle_name@,
                opt_job_view(job),
                opt_bundle_view(bundle),
                requeue_seconds,
                now,
            )),
{
    if children_need_clock(job, bundle, spec_hash) {
        match utc_now() {
            Some(now) => {
                let d = decide_children_at(fi, spec_hash, bundle_name, job, bundle, requeue_seconds, now);
                assert(timestamp_in_range(now));
                Some(d)
            },
            None => None,
        }
    } else {
        // No building status is recorded on this path, so the instant passed is not used.
        let epoch = Timestamp { seconds: 0, nanos: 0 };
        let d = decide_children_at(fi, spec_hash, bundle_name, job, bundle, requeue_seconds, epoch);
        assert(timestamp_in_range(epoch));
        Some(d)
    }
}

/// The outcome for a disabled integration: the bundle, when there is one, is brought to the
/// disabled state, the disabled status is recorded, and the reconcile waits for a change.
pub open spec fn spec_disabled_outcome(fi: FrontendIntegrationView, bundle: Option<JSBundleView>) -> ReconcileOutcomeView {
    ReconcileOutcomeView {
        status: Some(spec_disabled_status(fi, bundle)),
        bundle_enabled: if bundle is Some {
            Some(false)
        } else {
            None
        },
        action: ReconcileAction::AwaitChange,
    }
}

pub fn disabled_outcome(fi: &FrontendIntegration, bundle: Option<&JSBundle>) -> (d: ReconcileOutcome)
    ensures
        d.deep_view() == spec_disabled_outcome(fi.deep_view(), opt_bundle_view(bundle)),
{
    ReconcileOutcome {
        status: Some(disabled_status(fi, bundle)),
        bundle_enabled: if bundle.is_some() {
            Some(false)
        } else {
            None
        },
        action: ReconcileAction::AwaitChange,
    }
}

/// The outcome once a build Job has been chosen or created: the building status with the
/// message `Build job scheduled` and no error (the new build has none yet), and another
/// reconcile after `requeue_seconds`.
pub open spec fn spec_scheduled_outcome(
    fi: FrontendIntegrationView,
    spec_hash: Seq<char>,
    bundle_name: Seq<char>,
    job: JobView,
    requeue_seconds: u64,
    now: Timestamp,
) -> ReconcileOutcomeView {
    ReconcileOutcomeView {
        status: Some(
            FrontendIntegrationStatusView {
                last_error: None,
                ..spec_building_status(fi, spec_hash, bundle_name, job, "Build job scheduled"@, now)
            },
        ),
        bundle_enabled: None,
        action: ReconcileAction::Requeue { seconds: requeue_seconds },
    }
}

pub fn scheduled_outcome_at(
    fi: &FrontendIntegration,
    spec_hash: &str,
    bundle_name: &str,
    job: &Job,
    requeue_seconds: u64,
    now: Timestamp,
) -> (d: ReconcileOutcome)
    ensures
        d.deep_view() == spec_scheduled_outcome(fi.deep_view(), spec_hash@, bundle_name@, job.deep_view(), requeue_seconds, now),
{
    let mut st = building_status_at(fi, spec_hash, bundle_name, job, "Build job scheduled", now);
    st.last_error = None;
    ReconcileOutcome {
        status: Some(st),
        bundle_enabled: None,
        action: ReconcileAction::Requeue { seconds: requeue_seconds },
    }
}

/// The scheduled outcome, stamped with the current time; none when the system clock reads
/// no usable instant.
pub fn scheduled_outcome(
    fi: &FrontendIntegration,
    spec_hash: &str,
    bundle_name: &str,
    job: &Job,
    requeue_seconds: u64,
) -> (d: Option<ReconcileOutcome>)
    ensures
        d matches Some(x) ==> exists|now: Timestamp|
            timestamp_in_range(now) && x.deep_view() == spec_scheduled_outcome(
                fi.deep_view(),
                spec_hash@,
                bundle_name@,
                job.deep_view(),
                requeue_seconds,
                now,
            ),
{
    match utc_now() {
        Some(now) => {
            let d = scheduled_outcome_at(fi, spec_hash, bundle_name, job, requeue_seconds, now);
            assert(timestamp_in_range(now));
            Some(d)
        },
        None => None,
    }
}

} // verus!
