//! What the supervisor of a running build does once the watch on its job
//! ends.
use crate::remote_build::manager::BuildManager;
use crate::remote_build::status::build_state;
use crate::remote_build::status::is_anomalous;
use crate::remote_build::status::BuildState;
use crate::remote_build::status::JobRecord;
use vstd::prelude::*;
use vstd::string::StringExecFns;

verus! {

/// Seconds that the supervisor waits beyond the timeout of the build, so that
/// a job which runs into its own deadline can still be seen to end.
pub const WATCH_GRACE_SECONDS: u64 = 10;

/// How the watch on the job of a build ended.
#[derive(Debug)]
pub enum WatchOutcome {
    /// The job was seen to complete; absent where it was deleted meanwhile.
    Completed(Option<JobRecord>),
    /// The watch itself failed.
    WatchFailed(String),
    /// The job was not seen to complete in time.
    TimedOut,
}

/// Where a build stands once the watch on its job has ended: where the job
/// shows it to stand if the job was seen to complete; failed if it was not seen
/// to complete in time; unknown if the job is gone or the watch failed.
pub open spec fn outcome_state(outcome: WatchOutcome) -> BuildState {
    match outcome {
        WatchOutcome::Completed(job) => build_state(job),
        WatchOutcome::WatchFailed(message) => BuildState::Unknown,
        WatchOutcome::TimedOut => BuildState::Failed,
    }
}

impl WatchOutcome {
    /// Where the build stands after this end of the watch.
    pub fn state(&self) -> (state: BuildState)
        ensures
            state == outcome_state(*self),
    {
        match self {
            WatchOutcome::Completed(job) => BuildState::classify(job.as_ref()),
            WatchOutcome::WatchFailed(_) => BuildState::Unknown,
            WatchOutcome::TimedOut => BuildState::Failed,
        }
    }
}

/// What is sent to the webhook of a build.
#[derive(Debug, Clone, PartialEq, Eq)]
pub struct WebhookPayload {
    pub build_id: String,
    pub success: bool,
    pub image_tag: Option<String>,
    pub error: Option<String>,
}

/// One thing that the supervisor does.
#[derive(Debug)]
pub enum SupervisorAction {
    /// Note how the job ended.
    ReportCompletion { state: BuildState, anomalous: bool },
    /// Notify the webhook of the build.
    FireWebhook { url: String, payload: WebhookPayload },
    /// Note that the configuration of the build is not at hand.
    ReportMissingConfig,
    /// Note that the watch failed.
    ReportWatchFailure { message: String },
    /// Note that the job did not complete within so many seconds.
    ReportTimeout { seconds: u128 },
    /// Remove the directory that holds the context of the build.
    CleanContext { directory: String },
}

/// The mathematical form of a `SupervisorAction`.
pub enum SupervisorActionView {
    ReportCompletion { state: BuildState, anomalous: bool },
    FireWebhook {
        url: Seq<char>,
        build_id: Seq<char>,
        success: bool,
        image_tag: Option<Seq<char>>,
        error: Option<Seq<char>>,
    },
    ReportMissingConfig,
    ReportWatchFailure { message: Seq<char> },
    ReportTimeout { seconds: u128 },
    CleanContext { directory: Seq<char> },
}

/// The text of an optional text.
pub open spec fn text_view(text: Option<String>) -> Option<Seq<char>> {
    match text {
        Some(t) => Some(t@),
        None => None,
    }
}

impl View for SupervisorAction {
    type V = SupervisorActionView;

    open spec fn view(&self) -> SupervisorActionView {
        match self {
            SupervisorAction::ReportCompletion { state, anomalous } => {
                SupervisorActionView::ReportCompletion { state: *state, anomalous: *anomalous }
            },
            SupervisorAction::FireWebhook { url, payload } => SupervisorActionView::FireWebhook {
                url: url@,
                build_id: payload.build_id@,
                success: payload.success,
                image_tag: text_view(payload.image_tag),
                error: text_view(payload.error),
            },
            SupervisorAction::ReportMissingConfig => SupervisorActionView::ReportMissingConfig,
            SupervisorAction::ReportWatchFailure { message } => {
                SupervisorActionView::ReportWatchFailure { message: message@ }
            },
            SupervisorAction::ReportTimeout { seconds } => SupervisorActionView::ReportTimeout {
                seconds: *seconds,
            },
            SupervisorAction::CleanContext { directory } => SupervisorActionView::CleanContext {
                directory: directory@,
            },
        }
    }
}

/// The mathematical form of a list of actions.
pub open spec fn actions_view(actions: Seq<SupervisorAction>) -> Seq<SupervisorActionView> {
    actions.map_values(|a: SupervisorAction| a@)
}

/// The directory that holds the context of the build `job_id` below `root`.
pub open spec fn context_directory(root: Seq<char>, job_id: Seq<char>) -> Seq<char> {
    root + "/"@ + job_id
}

/// Whether the supervisor of a build is still at work.
#[derive(Debug, Clone, Copy, PartialEq, Eq, Structural)]
pub enum SupervisorPhase {
    /// The watch on the job is running.
    Watching,
    /// The supervisor has finished.
    Done,
}

/// How often `actions` remove a context.
pub open spec fn cleanups(actions: Seq<SupervisorActionView>) -> nat
    decreases actions.len(),
{
    if actions.len() == 0 {
        0
    } else {
        cleanups(actions.drop_last()) + if actions.last() is CleanContext {
            1nat
        } else {
            0nat
        }
    }
}

impl BuildManager {
    /// Seconds that the supervisor waits for the job: the timeout of the build
    /// and the grace beyond it.
    pub fn watch_deadline(&self) -> (seconds: u64)
        requires
            self.config is Some,
            self.timeout_spec() + WATCH_GRACE_SECONDS <= u64::MAX,
        ensures
            seconds == self.timeout_spec() + WATCH_GRACE_SECONDS,
    {
        self.get_timeout() + WATCH_GRACE_SECONDS
    }

    /// The directory that holds the context of this build.
    pub fn get_context_directory(&self) -> (directory: String)
        ensures
            directory@ == context_directory(self.state.context_path@, self.job_id@),
    {
        let mut directory = self.state.context_path.clone();
        directory.append("/");
        directory.append(self.job_id.as_str());
        directory
    }

    /// What is sent to the webhook when the job ended as `job` shows: whether
    /// the build succeeded, the image reference where it did, and a word of
    /// failure where it did not.
    pub open spec fn webhook_spec(&self, url: Seq<char>, job: JobRecord) -> SupervisorActionView {
        let success = build_state(Some(job)) == BuildState::Succeeded;
        SupervisorActionView::FireWebhook {
            url,
            build_id: self.job_id@,
            success,
            image_tag: if success {
                text_view(job.destination)
            } else {
                None
            },
            error: if success {
                None
            } else {
                Some("build failed"@)
            },
        }
    }

    /// What the supervisor does about the end of the job itself, before it
    /// cleans up.
    pub open spec fn completion_spec(&self, outcome: WatchOutcome) -> Seq<SupervisorActionView> {
        match outcome {
            WatchOutcome::Completed(Some(job)) => seq![
                SupervisorActionView::ReportCompletion {
                    state: build_state(Some(job)),
                    anomalous: is_anomalous(job),
                },
            ] + match self.config {
                Some(config) => match config.webhook {
                    Some(url) => seq![self.webhook_spec(url@, job)],
                    None => seq![],
                },
                None => seq![SupervisorActionView::ReportMissingConfig],
            },
            WatchOutcome::Completed(None) => seq![],
            WatchOutcome::WatchFailed(message) => seq![
                SupervisorActionView::ReportWatchFailure { message: message@ },
            ],
            WatchOutcome::TimedOut => match self.config {
                Some(config) => seq![
                    SupervisorActionView::ReportTimeout {
                        seconds: (self.timeout_spec() + WATCH_GRACE_SECONDS) as u128,
                    },
                ],
                None => seq![SupervisorActionView::ReportMissingConfig],
            },
        }
    }

    /// All that the supervisor does when the watch ends with `outcome`: what
    /// the end of the job calls for, and then, always, the removal of the
    /// context.
    pub open spec fn supervision_spec(&self, outcome: WatchOutcome) -> Seq<SupervisorActionView> {
        self.completion_spec(outcome).push(
            SupervisorActionView::CleanContext {
                directory: context_directory(self.state.context_path@, self.job_id@),
            },
        )
    }

    /// All that the supervisor does when the watch ends with `outcome`.
    pub fn cleanup_job(&self, outcome: WatchOutcome) -> (actions: Vec<SupervisorAction>)
        ensures
            actions_view(actions@) == self.supervision_spec(outcome),
    {
        let mut actions: Vec<SupervisorAction> = Vec::new();
        match outcome {
            WatchOutcome::Completed(Some(job)) => {
                let state = BuildState::classify(Some(&job));
                actions.push(
                    SupervisorAction::ReportCompletion { state, anomalous: job.anomalous() },
                );
                match &self.config {
                    Some(config) => match &config.webhook {
                        Some(url) => {
                            let success = match state {
                                BuildState::Succeeded => true,
                                _ => false,
                            };
                            let payload = WebhookPayload {
                                build_id: self.job_id.clone(),
                                success,
                                image_tag: if success {
                                    job.destination
                                } else {
                                    None
                                },
                                error: if success {
                                    None
                                } else {
                                    Some(String::from_str("build failed"))
                                },
                            };
                            actions.push(SupervisorAction::FireWebhook { url: url.clone(), payload });
                        },
                        None => {},
                    },
                    None => {
                        actions.push(SupervisorAction::ReportMissingConfig);
                    },
                }
            },
            WatchOutcome::Completed(None) => {},
            WatchOutcome::WatchFailed(message) => {
                actions.push(SupervisorAction::ReportWatchFailure { message });
            },
            WatchOutcome::TimedOut => {
                if self.config.is_some() {
                    let seconds = self.get_timeout() as u128 + WATCH_GRACE_SECONDS as u128;
                    actions.push(SupervisorAction::ReportTimeout { seconds });
                } else {
                    actions.push(SupervisorAction::ReportMissingConfig);
                }
            },
        }
        actions.push(SupervisorAction::CleanContext { directory: self.get_context_directory() });
        assert(actions_view(actions@) =~= self.supervision_spec(outcome));
        actions
    }

    /// What the supervisor does in `phase` when the watch reports `outcome`:
    /// all of its work on the first report, and nothing after that.
    pub open spec fn step_spec(&self, phase: SupervisorPhase, outcome: WatchOutcome) -> Seq<
        SupervisorActionView,
    > {
        match phase {
            SupervisorPhase::Watching => self.supervision_spec(outcome),
            SupervisorPhase::Done => seq![],
        }
    }

    /// The next step of the supervisor: in whatever phase and on whatever
    /// outcome, it is done afterwards.
    pub fn supervise(&self, phase: SupervisorPhase, outcome: WatchOutcome) -> (r: (
        SupervisorPhase,
        Vec<SupervisorAction>,
    ))
        ensures
            r.0 == SupervisorPhase::Done,
            actions_view(r.1@) == self.step_spec(phase, outcome),
    {
        match phase {
            SupervisorPhase::Watching => (SupervisorPhase::Done, self.cleanup_job(outcome)),
            SupervisorPhase::Done => {
                let actions: Vec<SupervisorAction> = Vec::new();
                assert(actions_view(actions@) =~= self.step_spec(phase, outcome));
                (SupervisorPhase::Done, actions)
            },
        }
    }

    /// All that the supervisor does over a run of reports from the watch,
    /// starting in `phase`.
    pub open spec fn run_spec(&self, phase: SupervisorPhase, outcomes: Seq<WatchOutcome>) -> Seq<
        SupervisorActionView,
    >
        decreases outcomes.len(),
    {
        if outcomes.len() == 0 {
            seq![]
        } else {
            self.step_spec(phase, outcomes[0]) + self.run_spec(
                SupervisorPhase::Done,
                outcomes.drop_first(),
            )
        }
    }
}

/// Actions among which none removes a context count no cleanup.
proof fn lemma_no_cleanups(actions: Seq<SupervisorActionView>)
    requires
        forall|i: int| 0 <= i < actions.len() ==> !(#[trigger] actions[i] is CleanContext),
    ensures
        cleanups(actions) == 0,
    decreases actions.len(),
{
    if actions.len() > 0 {
        let front = actions.drop_last();
        assert forall|i: int| 0 <= i < front.len() implies !(#[trigger] front[i]
            is CleanContext) by {
            assert(front[i] == actions[i]);
        }
        lemma_no_cleanups(front);
        assert(actions.last() == actions[actions.len() - 1]);
    }
}

/// The end of a job alone never removes a context.
proof fn lemma_completion_cleans_nothing(manager: BuildManager, outcome: WatchOutcome)
    ensures
        cleanups(manager.completion_spec(outcome)) == 0,
{
    let actions = manager.completion_spec(outcome);
    assert forall|i: int| 0 <= i < actions.len() implies !(#[trigger] actions[i]
        is CleanContext) by {
        match outcome {
            WatchOutcome::Completed(Some(job)) => {
                if i == 0 {
                } else {
                    assert(i == 1);
                }
            },
            WatchOutcome::Completed(None) => {},
            WatchOutcome::WatchFailed(message) => {},
            WatchOutcome::TimedOut => {},
        }
    }
    lemma_no_cleanups(actions);
}

/// A supervisor that is done does nothing, whatever the watch still reports.
pub proof fn lemma_done_supervisor_is_idle(manager: BuildManager, outcomes: Seq<WatchOutcome>)
    ensures
        manager.run_spec(SupervisorPhase::Done, outcomes) == Seq::<SupervisorActionView>::empty(),
    decreases outcomes.len(),
{
    if outcomes.len() > 0 {
        lemma_done_supervisor_is_idle(manager, outcomes.drop_first());
    }
}

/// However the watch behaves, whether it reports a completion, a failure or a
/// timeout, and whatever it reports after that, the supervisor does its work
/// for the first report alone and removes the context exactly once.
pub proof fn lemma_supervisor_finishes_once(manager: BuildManager, outcomes: Seq<WatchOutcome>)
    requires
        outcomes.len() > 0,
    ensures
        manager.run_spec(SupervisorPhase::Watching, outcomes) == manager.supervision_spec(
            outcomes[0],
        ),
        cleanups(manager.run_spec(SupervisorPhase::Watching, outcomes)) == 1,
        manager.run_spec(SupervisorPhase::Watching, outcomes).last() is CleanContext,
{
    lemma_done_supervisor_is_idle(manager, outcomes.drop_first());
    let work = manager.supervision_spec(outcomes[0]);
    assert(work + Seq::<SupervisorActionView>::empty() =~= work);
    lemma_completion_cleans_nothing(manager, outcomes[0]);
    assert(work.drop_last() =~= manager.completion_spec(outcomes[0]));
}

} // verus!
