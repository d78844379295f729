//! How the logs of the builder of a build are found.
use crate::remote_build::manager::job_name;
use crate::remote_build::manager::BuildManager;
use vstd::prelude::*;
use vstd::string::StringExecFns;

verus! {

/// What the cluster answered while the logs of a build were looked for.
#[derive(Debug)]
pub enum LogEvent {
    /// Nothing yet: the search begins.
    Begin,
    /// The pods of the job, each with its name where it has one; absent where
    /// the cluster could not list them.
    PodsListed(Option<Vec<Option<String>>>),
    /// The logs of the pod; absent where the cluster could not hand them out.
    LogsRead(Option<String>),
}

/// What to do next to find the logs of a build.
#[derive(Debug)]
pub enum LogStep {
    /// List the pods that the selector matches.
    ListPods { selector: String },
    /// Read the logs of the pod.
    ReadLogs { pod: String },
    /// The search is over, with the logs where they were found.
    Done(Option<String>),
}

/// The selector that matches the pods of the job of the build `job_id`.
pub open spec fn pod_selector(job_id: Seq<char>) -> Seq<char> {
    "job-name="@ + job_name(job_id)
}

/// The name of the first pod of a listing, where there is a first pod and it
/// has a name.
pub open spec fn first_pod(pods: Seq<Option<String>>) -> Option<String> {
    if pods.len() > 0 {
        pods[0]
    } else {
        None
    }
}

impl BuildManager {
    /// The selector that matches the pods of the job of this build.
    pub fn get_pod_selector(&self) -> (selector: String)
        ensures
            selector@ == pod_selector(self.job_id@),
    {
        let mut selector = String::from_str("job-name=");
        selector.append(self.get_job_name().as_str());
        selector
    }

    /// The next step in finding the logs of this build. The search begins by
    /// listing the pods of the job; it goes on with the logs of the first pod
    /// listed; it ends without logs where the pods cannot be listed, where there
    /// is none, where the first has no name or where its logs cannot be read.
    pub fn get_job_logs(&self, event: LogEvent) -> (step: LogStep)
        ensures
            match event {
                LogEvent::Begin => step matches LogStep::ListPods { selector } && selector@
                    == pod_selector(self.job_id@),
                LogEvent::PodsListed(Some(pods)) => match first_pod(pods@) {
                    Some(name) => step matches LogStep::ReadLogs { pod } && pod == name,
                    None => step matches LogStep::Done(None),
                },
                LogEvent::PodsListed(None) => step matches LogStep::Done(None),
                LogEvent::LogsRead(logs) => step matches LogStep::Done(found) && found == logs,
            },
    {
        match event {
            LogEvent::Begin => LogStep::ListPods { selector: self.get_pod_selector() },
            LogEvent::PodsListed(Some(pods)) => {
                let mut pods = pods;
                if pods.len() > 0 {
                    match pods.swap_remove(0) {
                        Some(name) => LogStep::ReadLogs { pod: name },
                        None => LogStep::Done(None),
                    }
                } else {
                    LogStep::Done(None)
                }
            },
            LogEvent::PodsListed(None) => LogStep::Done(None),
            LogEvent::LogsRead(logs) => LogStep::Done(logs),
        }
    }
}

} // verus!
