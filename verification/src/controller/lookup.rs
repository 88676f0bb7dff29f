//! Finding the build Job of an integration and a spec hash: the label selector the Jobs are
//! listed with, and the Job chosen among those listed.
use crate::labels::{hash_label_value, spec_hash_label_value, LABEL_FI_NAME, LABEL_SPEC_HASH};
use crate::resource::{Job, JobView};
use crate::time::Timestamp;
use vstd::prelude::*;

verus! {

/// `<fi-name label>=<name>,<spec-hash label>=<hash label value>`: the selector of the Jobs
/// built for an integration and a spec hash.
pub open spec fn spec_job_selector(fi_name: Seq<char>, spec_hash: Seq<char>) -> Seq<char> {
    LABEL_FI_NAME@ + "="@ + fi_name + ","@ + LABEL_SPEC_HASH@ + "="@ + spec_hash_label_value(spec_hash)
}

pub fn job_selector(fi_name: &str, spec_hash: &str) -> (s: String)
    ensures
        s@ == spec_job_selector(fi_name@, spec_hash@),
{
    let hash = hash_label_value(spec_hash);
    let mut out = String::from_str(LABEL_FI_NAME);
    out.append("=");
    out.append(fi_name);
    out.append(",");
    out.append(LABEL_SPEC_HASH);
    out.append("=");
    out.append(hash.as_str());
    out
}

/// Creation times in order: an unknown time comes first, known times by instant.
pub open spec fn created_le(a: Option<Timestamp>, b: Option<Timestamp>) -> bool {
    match (a, b) {
        (None, _) => true,
        (Some(_), None) => false,
        (Some(x), Some(y)) => x.seconds < y.seconds || (x.seconds == y.seconds && x.nanos <= y.nanos),
    }
}

pub open spec fn created(job: JobView) -> Option<Timestamp> {
    job.metadata.creation_timestamp
}

/// Job `i` is the latest: none was created after it, and every Job listed after it was
/// created strictly before it (of Jobs created at the same time, the last listed counts).
pub open spec fn is_latest(jobs: Seq<JobView>, i: int) -> bool {
    &&& 0 <= i < jobs.len()
    &&& forall|j: int| 0 <= j < jobs.len() ==> created_le(created(#[trigger] jobs[j]), created(jobs[i]))
    &&& forall|j: int| i < j < jobs.len() ==> !created_le(created(jobs[i]), created(#[trigger] jobs[j]))
}

fn created_le_exec(a: Option<Timestamp>, b: Option<Timestamp>) -> (r: bool)
    ensures
        r == created_le(a, b),
{
    match (a, b) {
        (None, _) => true,
        (Some(_), None) => false,
        (Some(x), Some(y)) => x.seconds < y.seconds || (x.seconds == y.seconds && x.nanos <= y.nanos),
    }
}

/// There is at most one latest Job.
pub proof fn lemma_latest_unique(jobs: Seq<JobView>, i: int, k: int)
    requires
        is_latest(jobs, i),
        is_latest(jobs, k),
    ensures
        i == k,
{
    if i < k {
        assert(created_le(created(jobs[i]), created(jobs[k])));
    } else if k < i {
        assert(created_le(created(jobs[k]), created(jobs[i])));
    }
}

/// The latest of the Jobs listed for a hash (by creation time, the last listed among Jobs
/// created at the same time), or none when none is listed.
pub fn latest_job(jobs: Vec<Job>) -> (r: Option<Job>)
    ensures
        jobs@.len() == 0 ==> r is None,
        jobs@.len() > 0 ==> (r matches Some(job) && exists|i: int|
            is_latest(jobs.deep_view(), i) && job.deep_view() == jobs.deep_view()[i]),
{
    let ghost jv = jobs.deep_view();
    if jobs.len() == 0 {
        return None;
    }
    let mut best: usize = 0;
    let mut i: usize = 1;
    assert(jv[0] == jobs@[0].deep_view());
    while i < jobs.len()
        invariant
            jv == jobs.deep_view(),
            1 <= i <= jobs@.len(),
            best < i,
            forall|j: int| 0 <= j < i ==> created_le(created(#[trigger] jv[j]), created(jv[best as int])),
            forall|j: int| best < j < i ==> !created_le(created(jv[best as int]), created(#[trigger] jv[j])),
        decreases jobs@.len() - i,
    {
        assert(jv[i as int] == jobs@[i as int].deep_view());
        assert(jv[best as int] == jobs@[best as int].deep_view());
        if created_le_exec(jobs[best].metadata.creation_timestamp, jobs[i].metadata.creation_timestamp) {
            best = i;
        }
        i += 1;
    }
    assert(is_latest(jv, best as int));
    let mut jobs = jobs;
    let job = jobs.remove(best);
    assert(job.deep_view() == jv[best as int]);
    Some(job)
}

} // verus!
