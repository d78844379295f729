//! The order in which a build is started: the context is saved, then the job
//! is created, then it is submitted, then it is supervised.
use crate::remote_build::manager::context_cache_path;
use crate::remote_build::manager::context_url;
use crate::remote_build::manager::BuildError;
use crate::remote_build::manager::BuildManager;
use crate::remote_build::supervisor::context_directory;
use k8s_openapi::api::batch::v1::Job;
use vstd::prelude::*;

verus! {

/// How far the start of a build has come.
#[derive(Debug, Clone, Copy, PartialEq, Eq, Structural)]
pub enum BuildPhase {
    /// The request was accepted; nothing was done yet.
    Accepted,
    /// The context is being saved.
    SavingContext,
    /// The job is being submitted to the cluster.
    Submitting,
    /// The job runs and is supervised.
    Supervising,
    /// The build was given up before its job ran.
    Rejected,
}

/// What happened to the last step.
#[derive(Debug)]
pub enum BuildEvent {
    /// There was no step yet.
    Begin,
    /// The context was saved.
    ContextSaved,
    /// The context could not be saved.
    ContextFailed(String),
    /// The cluster accepted the job.
    JobAccepted,
    /// The cluster refused the job.
    JobRefused(String),
}

/// What to do next to start a build.
#[derive(Debug)]
pub enum BuildStep {
    /// Create the directory and move the uploaded context to the file in it.
    SaveContext { directory: String, file: String },
    /// Submit the job to the cluster.
    SubmitJob(Job),
    /// Hand the build to its supervisor and tell the client its identifier.
    Supervise { job_id: String },
    /// Tell the client why the build was given up; before that, remove the
    /// directory `discard`, where one is named, if it holds nothing.
    Reject { error: BuildError, discard: Option<String> },
    /// Nothing: the event does not belong to this phase.
    Ignore,
}

/// The phase that follows `phase` when `event` happens; `job_created` tells
/// whether the job could be created once the context was saved.
pub open spec fn next_build_phase(
    phase: BuildPhase,
    event: BuildEvent,
    job_created: bool,
) -> BuildPhase {
    match (phase, event) {
        (BuildPhase::Accepted, BuildEvent::Begin) => BuildPhase::SavingContext,
        (BuildPhase::SavingContext, BuildEvent::ContextSaved) => if job_created {
            BuildPhase::Submitting
        } else {
            BuildPhase::Rejected
        },
        (BuildPhase::SavingContext, BuildEvent::ContextFailed(message)) => BuildPhase::Rejected,
        (BuildPhase::Submitting, BuildEvent::JobAccepted) => BuildPhase::Supervising,
        (BuildPhase::Submitting, BuildEvent::JobRefused(message)) => BuildPhase::Rejected,
        _ => phase,
    }
}

/// The phase reached from `BuildPhase::Accepted` after all of `steps`, each an
/// event with the word on whether the job could be created.
pub open spec fn build_phase_after(steps: Seq<(BuildEvent, bool)>) -> BuildPhase
    decreases steps.len(),
{
    if steps.len() == 0 {
        BuildPhase::Accepted
    } else {
        next_build_phase(build_phase_after(steps.drop_last()), steps.last().0, steps.last().1)
    }
}

/// Whether the context was saved at the step `saved` of `steps`, after the
/// build had begun.
pub open spec fn context_saved_at(steps: Seq<(BuildEvent, bool)>, saved: int) -> bool {
    &&& 0 < saved < steps.len()
    &&& steps[saved].0 is ContextSaved
    &&& steps[saved].1
    &&& exists|begun: int| 0 <= begun < saved && (#[trigger] steps[begun]).0 is Begin
}

/// Whether the cluster accepted the job at the step `accepted` of `steps`,
/// after the context had been saved.
pub open spec fn job_accepted_at(steps: Seq<(BuildEvent, bool)>, accepted: int) -> bool {
    &&& 0 < accepted < steps.len()
    &&& steps[accepted].0 is JobAccepted
    &&& exists|saved: int| saved < accepted && #[trigger] context_saved_at(steps, saved)
}

/// What must have happened for a build to stand in `phase`.
pub open spec fn happened_in_order(steps: Seq<(BuildEvent, bool)>, phase: BuildPhase) -> bool {
    match phase {
        BuildPhase::Accepted => true,
        BuildPhase::SavingContext => exists|begun: int|
            0 <= begun < steps.len() && (#[trigger] steps[begun]).0 is Begin,
        BuildPhase::Submitting => exists|saved: int| #[trigger] context_saved_at(steps, saved),
        BuildPhase::Supervising => exists|accepted: int| #[trigger]
            job_accepted_at(steps, accepted),
        BuildPhase::Rejected => true,
    }
}

/// What happened in the first steps has happened in all of them.
proof fn lemma_steps_stay(steps: Seq<(BuildEvent, bool)>, phase: BuildPhase)
    requires
        steps.len() > 0,
        happened_in_order(steps.drop_last(), phase),
    ensures
        happened_in_order(steps, phase),
{
    let front = steps.drop_last();
    match phase {
        BuildPhase::SavingContext => {
            let begun = choose|begun: int|
                0 <= begun < front.len() && (#[trigger] front[begun]).0 is Begin;
            assert(steps[begun] == front[begun]);
        },
        BuildPhase::Submitting => {
            let saved = choose|saved: int| #[trigger] context_saved_at(front, saved);
            lemma_saved_stays(steps, saved);
        },
        BuildPhase::Supervising => {
            let accepted = choose|accepted: int| #[trigger] job_accepted_at(front, accepted);
            let saved = choose|saved: int|
                saved < accepted && #[trigger] context_saved_at(front, saved);
            lemma_saved_stays(steps, saved);
            assert(steps[accepted] == front[accepted]);
            assert(job_accepted_at(steps, accepted));
        },
        _ => {},
    }
}

/// A context that was saved in the first steps was saved in all of them.
proof fn lemma_saved_stays(steps: Seq<(BuildEvent, bool)>, saved: int)
    requires
        steps.len() > 0,
        context_saved_at(steps.drop_last(), saved),
    ensures
        context_saved_at(steps, saved),
{
    let front = steps.drop_last();
    let begun = choose|begun: int| 0 <= begun < saved && (#[trigger] front[begun]).0 is Begin;
    assert(steps[begun] == front[begun]);
    assert(steps[saved] == front[saved]);
}

/// A build is started in order. Whatever events arrive, and in whatever
/// order, a job is submitted only after the context was saved, which happens
/// only after the build has begun; and a build is supervised only after the
/// cluster accepted its job, which happens only after all that.
pub proof fn lemma_build_starts_in_order(steps: Seq<(BuildEvent, bool)>)
    ensures
        happened_in_order(steps, build_phase_after(steps)),
    decreases steps.len(),
{
    if steps.len() > 0 {
        let front = steps.drop_last();
        let before = build_phase_after(front);
        let after = build_phase_after(steps);
        let at = steps.len() - 1;
        lemma_build_starts_in_order(front);
        lemma_steps_stay(steps, before);
        assert(steps[at] == steps.last());
        if after != before {
            match after {
                BuildPhase::Submitting => {
                    let begun = choose|begun: int|
                        0 <= begun < steps.len() && (#[trigger] steps[begun]).0 is Begin;
                    assert(begun < at);
                    assert(context_saved_at(steps, at));
                },
                BuildPhase::Supervising => {
                    let saved = choose|saved: int| #[trigger] context_saved_at(steps, saved);
                    assert(saved < at);
                    assert(job_accepted_at(steps, at));
                },
                _ => {},
            }
        }
    }
}

/// A build that is supervised or was given up stays so.
pub proof fn lemma_build_ends(phase: BuildPhase, event: BuildEvent, job_created: bool)
    requires
        phase == BuildPhase::Supervising || phase == BuildPhase::Rejected,
    ensures
        next_build_phase(phase, event, job_created) == phase,
{
}

impl BuildManager {
    /// The next phase and step of the start of this build.
    ///
    /// Nothing is saved before the request is accepted. The job is created only
    /// once the context is saved, from the address under which the context can be
    /// fetched, and is submitted only if it could be created. The build is
    /// supervised only once the cluster has accepted the job. A failure at any of
    /// these steps gives the build up with the text of the failure; where it was
    /// the context that could not be saved, the directory made for it is to be
    /// removed, so that no directory stays without its archive. An event that does
    /// not belong to the phase changes nothing.
    pub fn advance(&self, phase: BuildPhase, event: BuildEvent) -> (r: (BuildPhase, BuildStep))
        requires
            self.config is Some,
        ensures
            r.0 == next_build_phase(phase, event, r.1 is SubmitJob),
            match (phase, event) {
                (BuildPhase::Accepted, BuildEvent::Begin) => {
                    &&& r.0 == BuildPhase::SavingContext
                    &&& r.1 matches BuildStep::SaveContext { directory, file }
                    &&& directory@ == context_directory(self.state.context_path@, self.job_id@)
                    &&& file@ == context_cache_path(self.state.context_path@, self.job_id@)
                },
                (BuildPhase::SavingContext, BuildEvent::ContextSaved) => {
                    let url = context_url(
                        self.state.pod_name@,
                        self.state.service_name@,
                        self.state.port@,
                        self.job_id@,
                    );
                    exists|created: Result<Job, BuildError>| #[trigger]
                        self.job_object_outcome(url, created) && match created {
                            Ok(job) => r.0 == BuildPhase::Submitting && r.1
                                == BuildStep::SubmitJob(job),
                            Err(error) => r.0 == BuildPhase::Rejected && r.1 == (
                            BuildStep::Reject { error, discard: None }),
                        }
                },
                (BuildPhase::SavingContext, BuildEvent::ContextFailed(message)) => {
                    &&& r.0 == BuildPhase::Rejected
                    &&& r.1 matches BuildStep::Reject { error, discard: Some(directory) }
                    &&& error == BuildError::Context(message)
                    &&& directory@ == context_directory(self.state.context_path@, self.job_id@)
                },
                (BuildPhase::Submitting, BuildEvent::JobAccepted) => {
                    &&& r.0 == BuildPhase::Supervising
                    &&& r.1 matches BuildStep::Supervise { job_id }
                    &&& job_id@ == self.job_id@
                },
                (BuildPhase::Submitting, BuildEvent::JobRefused(message)) => {
                    &&& r.0 == BuildPhase::Rejected
                    &&& r.1 == (BuildStep::Reject {
                        error: BuildError::Cluster(message),
                        discard: None,
                    })
                },
                _ => r.0 == phase && r.1 is Ignore,
            },
    {
        match phase {
            BuildPhase::Accepted => match event {
                BuildEvent::Begin => (
                    BuildPhase::SavingContext,
                    BuildStep::SaveContext {
                        directory: self.get_context_directory(),
                        file: self.get_context_cache_path(),
                    },
                ),
                _ => (phase, BuildStep::Ignore),
            },
            BuildPhase::SavingContext => match event {
                BuildEvent::ContextSaved => {
                    let created = self.create_job_object(&self.get_context_url());
                    match created {
                        Ok(job) => (BuildPhase::Submitting, BuildStep::SubmitJob(job)),
                        Err(error) => (
                            BuildPhase::Rejected,
                            BuildStep::Reject { error, discard: None },
                        ),
                    }
                },
                BuildEvent::ContextFailed(message) => (
                    BuildPhase::Rejected,
                    BuildStep::Reject {
                        error: BuildError::Context(message),
                        discard: Some(self.get_context_directory()),
                    },
                ),
                _ => (phase, BuildStep::Ignore),
            },
            BuildPhase::Submitting => match event {
                BuildEvent::JobAccepted => (
                    BuildPhase::Supervising,
                    BuildStep::Supervise { job_id: self.job_id.clone() },
                ),
                BuildEvent::JobRefused(message) => (
                    BuildPhase::Rejected,
                    BuildStep::Reject { error: BuildError::Cluster(message), discard: None },
                ),
                _ => (phase, BuildStep::Ignore),
            },
            _ => (phase, BuildStep::Ignore),
        }
    }
}

} // verus!
