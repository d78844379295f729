//! What is known of a build from its job in the cluster.
use crate::remote_build::manager::BuildManager;
use vstd::prelude::*;

verus! {

/// The label of a job that holds the identifier of its build.
pub const JOB_IDENTIFIER_LABEL: &'static str = "chassisml.io/job-identifier";

/// The annotation of a job that holds the reference of the image it builds.
pub const DESTINATION_ANNOTATION: &'static str = "chassisml.io/destination";

/// What this service reads of a job of the cluster.
#[derive(Debug, Clone, PartialEq, Eq)]
pub struct JobRecord {
    /// The name of the job.
    pub name: Option<String>,
    /// The label `chassisml.io/job-identifier`.
    pub job_identifier: Option<String>,
    /// The annotation `chassisml.io/destination`: the reference of the image.
    pub destination: Option<String>,
    /// How many pods of the job have succeeded.
    pub succeeded: Option<u32>,
    /// How many pods of the job have failed.
    pub failed: Option<u32>,
}

/// Where a build stands.
#[derive(Debug, Clone, Copy, PartialEq, Eq, Structural)]
pub enum BuildState {
    /// The job exists and is not known to be complete.
    Pending,
    /// A pod of the job has succeeded and none has failed.
    Succeeded,
    /// A pod of the job has failed, or the job was not seen to complete in time.
    Failed,
    /// There is no job.
    Unknown,
}

/// Whether a counter of a job's status stands at one or more.
pub open spec fn counted(counter: Option<u32>) -> bool {
    counter matches Some(n) && n >= 1
}

/// Where the build of `job` stands: failed where a pod has failed, else
/// succeeded where a pod has succeeded, else pending; unknown without a job.
pub open spec fn build_state(job: Option<JobRecord>) -> BuildState {
    match job {
        None => BuildState::Unknown,
        Some(job) => if counted(job.failed) {
            BuildState::Failed
        } else if counted(job.succeeded) {
            BuildState::Succeeded
        } else {
            BuildState::Pending
        },
    }
}

/// Whether both counters of the job stand at one or more, which no orderly
/// job shows.
pub open spec fn is_anomalous(job: JobRecord) -> bool {
    counted(job.failed) && counted(job.succeeded)
}

/// Whether a build in `state` has run to its end.
pub open spec fn is_completed(state: BuildState) -> bool {
    state == BuildState::Succeeded || state == BuildState::Failed
}

/// Whether a counter of a job's status stands at one or more.
fn is_counted(counter: Option<u32>) -> (yes: bool)
    ensures
        yes == counted(counter),
{
    match counter {
        Some(n) => n >= 1,
        None => false,
    }
}

impl BuildState {
    /// Where the build of `job` stands.
    pub fn classify(job: Option<&JobRecord>) -> (state: BuildState)
        ensures
            state == build_state(
                match job {
                    Some(j) => Some(*j),
                    None => None,
                },
            ),
    {
        match job {
            None => BuildState::Unknown,
            Some(job) => if is_counted(job.failed) {
                BuildState::Failed
            } else if is_counted(job.succeeded) {
                BuildState::Succeeded
            } else {
                BuildState::Pending
            },
        }
    }

    /// Whether the build has run to its end.
    pub fn completed(self) -> (yes: bool)
        ensures
            yes == is_completed(self),
    {
        match self {
            BuildState::Succeeded => true,
            BuildState::Failed => true,
            _ => false,
        }
    }
}

impl JobRecord {
    /// Whether both counters of the job stand at one or more.
    pub fn anomalous(&self) -> (yes: bool)
        ensures
            yes == is_anomalous(*self),
    {
        is_counted(self.failed) && is_counted(self.succeeded)
    }
}

/// What a client is told of a build.
#[derive(Debug, Clone, PartialEq, Eq)]
pub struct BuildStatusResponse {
    /// The reference of the image, once the build has succeeded.
    pub image_tag: Option<String>,
    /// The logs of the builder, once the build has run to its end.
    pub logs: Option<String>,
    pub success: bool,
    pub completed: bool,
    pub error_message: Option<String>,
    /// The identifier of the build.
    pub remote_build_id: String,
}

impl BuildManager {
    /// Whether the status of the build of `job` carries the builder's logs.
    pub fn wants_logs(&self, job: &JobRecord) -> (yes: bool)
        ensures
            yes == is_completed(build_state(Some(*job))),
    {
        BuildState::classify(Some(job)).completed()
    }

    /// What a client is told of this build, given its job and the logs of its
    /// builder: whether it has run to its end and succeeded; the image reference
    /// of the job where it succeeded; the logs where it has run to its end.
    pub fn get_build_status_response(&self, job: &JobRecord, logs: Option<String>) -> (response:
        BuildStatusResponse)
        ensures
            response.remote_build_id@ == self.job_id@,
            response.completed == is_completed(build_state(Some(*job))),
            response.success == (build_state(Some(*job)) == BuildState::Succeeded),
            response.image_tag == if response.success {
                job.destination
            } else {
                None
            },
            response.logs == if response.completed {
                logs
            } else {
                None
            },
            response.error_message is None,
    {
        let state = BuildState::classify(Some(job));
        let success = match state {
            BuildState::Succeeded => true,
            _ => false,
        };
        BuildStatusResponse {
            image_tag: if success {
                job.destination.clone()
            } else {
                None
            },
            logs: if state.completed() {
                logs
            } else {
                None
            },
            success,
            completed: state.completed(),
            error_message: None,
            remote_build_id: self.job_id.clone(),
        }
    }
}

} // verus!
