use chassis::remote_build::lifecycle::BuildEvent;
use chassis::remote_build::lifecycle::BuildPhase;
use chassis::remote_build::lifecycle::BuildStep;
use chassis::remote_build::manager::BuildError;
use chassis::remote_build::manager::BuildManager;
use chassis::remote_build::routes::admit_build;
use chassis::remote_build::routes::build_image;
use chassis::remote_build::routes::build_reply;
use chassis::remote_build::routes::config_size_accepted;
use chassis::remote_build::routes::context_size_accepted;
use chassis::remote_build::routes::download_job_tar;
use chassis::remote_build::routes::get_context;
use chassis::remote_build::routes::get_job_logs;
use chassis::remote_build::routes::get_job_status;
use chassis::remote_build::routes::health;
use chassis::remote_build::routes::healthz;
use chassis::remote_build::routes::root;
use chassis::remote_build::routes::test as test_fn;
use chassis::remote_build::routes::verify_user_agent;
use chassis::remote_build::routes::version;
use chassis::remote_build::routes::BuildRequest;
use chassis::remote_build::routes::BUILD_CONFIG_LIMIT;
use chassis::remote_build::routes::BUILD_CONTEXT_LIMIT;
use chassis::remote_build::routes::REQUIRED_USER_AGENT;
use chassis::remote_build::state::AppState;
use chassis::remote_build::state::BuildConfig;
use chassis::remote_build::status::BuildState;
use chassis::remote_build::status::JobRecord;
use std::sync::Arc;

const OK: u16 = 200;
const BAD_REQUEST: u16 = 400;
const NOT_FOUND: u16 = 404;
const GONE: u16 = 410;
const INTERNAL_SERVER_ERROR: u16 = 500;

const TEMPLATE: &str = "apiVersion: batch/v1\nkind: Job\nmetadata:\n  name: {{JOB_NAME}}\n  labels:\n    chassisml.io/job-identifier: \"{{JOB_IDENTIFIER}}\"\n  annotations:\n    chassisml.io/destination: \"{{{IMAGE_NAME}}}\"\nspec:\n  template:\n    spec:\n      containers: []\n";

fn state() -> AppState {
    AppState::new(
        "builder".to_string(),
        "builder-0".to_string(),
        "/data/contexts".to_string(),
        TEMPLATE.to_string(),
        3600,
        3600,
        "{}".to_string(),
        "".to_string(),
        "".to_string(),
        "".to_string(),
        false,
    )
}

fn config() -> BuildConfig {
    BuildConfig {
        image_name: "u/i".to_string(),
        tag: "t".to_string(),
        webhook: None,
        timeout: None,
        insecure_registry: None,
    }
}

fn job(succeeded: Option<u32>, failed: Option<u32>) -> JobRecord {
    JobRecord {
        name: Some("chassis-remote-build-job-abc123".to_string()),
        job_identifier: Some("abc123".to_string()),
        destination: Some("u/i:t".to_string()),
        succeeded,
        failed,
    }
}

#[test]
fn test_root() {
    let resp = root();
    assert_eq!(resp.status, OK);
    assert_eq!(resp.body, "Alive!")
}

#[test]
fn test_health() {
    let resp = health();
    assert_eq!(resp.status, OK);
}

#[test]
fn test_test_route_returns_gone() {
    let resp = test_fn();
    assert_eq!(resp.status, GONE);
}

#[test]
fn test_download_tar_route_returns_gone() {
    let resp = download_job_tar();
    assert_eq!(resp.status, GONE);
}

#[test]
fn test_build_fails_without_proper_user_agent() {
    let resp = match build_image(None, 0, 0, None) {
        BuildRequest::Refused(resp) => resp,
        other => panic!("not refused: {:?}", other),
    };
    assert_eq!(resp.status, BAD_REQUEST);
}

#[test]
fn fixed_routes_answer_with_their_texts() {
    assert_eq!(health().body, "Chassis Server Up and Running!");
    assert_eq!(healthz().status, OK);
    assert_eq!(healthz().body, "");
    assert_eq!(version().status, OK);
    assert_eq!(version().body, "1.5.0");
    assert_eq!(
        test_fn().body,
        "The /test route has been deprecated and removed."
    );
    assert_eq!(
        download_job_tar().body,
        "The download-tar route has been deprecated and removed."
    );
}

#[test]
fn user_agent_must_be_the_required_one() {
    assert_eq!(REQUIRED_USER_AGENT, "ChassisClient/1.5");
    assert_eq!(verify_user_agent(Some("ChassisClient/1.5")), None);
    for other in [
        "Other/1.0",
        "",
        "ChassisClient/1.4",
        "ChassisClient/1.5 ",
        "chassisclient/1.5",
        "ChassisClient/1.50",
    ] {
        let resp = verify_user_agent(Some(other)).expect(other);
        assert_eq!(resp.status, BAD_REQUEST);
        assert_eq!(
            resp.body,
            "This remote build server requires Chassis v1.5+."
        );
    }
}

#[test]
fn build_with_wrong_user_agent_is_refused_whatever_it_sends() {
    for sent in [Some(config()), None] {
        match build_image(Some("Other/1.0"), 17, 4, sent) {
            BuildRequest::Refused(resp) => {
                assert_eq!(resp.status, BAD_REQUEST);
                assert_eq!(
                    resp.body,
                    "This remote build server requires Chassis v1.5+."
                );
            }
            other => panic!("not refused: {:?}", other),
        }
    }
    assert!(matches!(
        build_image(None, 17, 4, Some(config())),
        BuildRequest::Refused(_)
    ));
    for other in ["chassisclient/1.5", " ChassisClient/1.5", "ChassisClient/1.5.1", ""] {
        assert!(matches!(
            build_image(Some(other), 17, 4, Some(config())),
            BuildRequest::Refused(_)
        ));
        assert_eq!(
            admit_build(Some(other), 17, 4),
            verify_user_agent(Some(other))
        );
    }
}

#[test]
fn build_with_a_part_over_its_limit_is_refused_whatever_it_sends() {
    let over = [
        (BUILD_CONFIG_LIMIT + 1, 4),
        (17, BUILD_CONTEXT_LIMIT + 1),
        (u64::MAX, u64::MAX),
    ];
    for (config_size, context_size) in over {
        for agent in [Some("ChassisClient/1.5"), Some("Other/1.0"), None] {
            for sent in [Some(config()), None] {
                match build_image(agent, config_size, context_size, sent) {
                    BuildRequest::Refused(resp) => {
                        assert_eq!(resp.status, BAD_REQUEST);
                        assert_eq!(resp.body, "The build request is too large.");
                    }
                    other => panic!("not refused: {:?}", other),
                }
            }
            let refusal = admit_build(agent, config_size, context_size).unwrap();
            assert_eq!(refusal.status, BAD_REQUEST);
            assert_eq!(refusal.body, "The build request is too large.");
        }
    }
}

#[test]
fn build_at_the_limits_is_let_in() {
    assert_eq!(
        admit_build(
            Some("ChassisClient/1.5"),
            BUILD_CONFIG_LIMIT,
            BUILD_CONTEXT_LIMIT
        ),
        None
    );
    assert_eq!(admit_build(Some("ChassisClient/1.5"), 0, 0), None);
    assert!(matches!(
        build_image(
            Some("ChassisClient/1.5"),
            BUILD_CONFIG_LIMIT,
            BUILD_CONTEXT_LIMIT,
            Some(config())
        ),
        BuildRequest::Accepted(_)
    ));
}

#[test]
fn build_with_unreadable_config_is_a_client_error() {
    match build_image(Some("ChassisClient/1.5"), 17, 4, None) {
        BuildRequest::Invalid(resp) => {
            assert_eq!(resp.status, BAD_REQUEST);
            assert_eq!(resp.body.image_tag, None);
            assert_eq!(resp.body.logs, None);
            assert!(!resp.body.success);
            assert!(resp.body.completed);
            assert_eq!(
                resp.body.error_message,
                Some("invalid build config".to_string())
            );
            assert_eq!(resp.body.remote_build_id, "");
        }
        other => panic!("not invalid: {:?}", other),
    }
}

#[test]
fn build_is_accepted_and_started_in_order() {
    let accepted = match build_image(Some("ChassisClient/1.5"), 29, 4, Some(config())) {
        BuildRequest::Accepted(config) => config,
        other => panic!("not accepted: {:?}", other),
    };
    assert_eq!(accepted.image_name, "u/i");
    assert_eq!(accepted.tag, "t");
    let manager = BuildManager::new(Arc::new(state()), accepted).unwrap();
    let id = manager.job_id.clone();
    assert!(uuid::Uuid::parse_str(&id).is_ok());

    let (phase, step) = manager.advance(BuildPhase::Accepted, BuildEvent::Begin);
    assert_eq!(phase, BuildPhase::SavingContext);
    match step {
        BuildStep::SaveContext { directory, file } => {
            assert_eq!(directory, format!("/data/contexts/{}", id));
            assert_eq!(file, format!("/data/contexts/{}/context.zip", id));
        }
        other => panic!("context is not saved first: {:?}", other),
    }

    let (phase, step) = manager.advance(phase, BuildEvent::ContextSaved);
    assert_eq!(phase, BuildPhase::Submitting);
    match step {
        BuildStep::SubmitJob(job) => {
            assert_eq!(
                job.metadata.name,
                Some(format!("chassis-remote-build-job-{}", id))
            );
            assert_eq!(
                job.metadata.labels.unwrap()["chassisml.io/job-identifier"],
                id
            );
            assert_eq!(
                job.metadata.annotations.unwrap()["chassisml.io/destination"],
                "u/i:t"
            );
        }
        other => panic!("job is not submitted: {:?}", other),
    }

    let (phase, step) = manager.advance(phase, BuildEvent::JobAccepted);
    assert_eq!(phase, BuildPhase::Supervising);
    let started = match step {
        BuildStep::Supervise { job_id } => job_id,
        other => panic!("build is not supervised: {:?}", other),
    };
    assert_eq!(started, id);

    let resp = build_reply(Ok(started));
    assert_eq!(resp.status, OK);
    assert_eq!(resp.body.remote_build_id, id);
    assert!(!resp.body.completed);
    assert!(!resp.body.success);
    assert_eq!(resp.body.error_message, None);
    assert_eq!(resp.body.image_tag, None);
    assert_eq!(resp.body.logs, None);
}

#[test]
fn build_that_cannot_save_its_context_creates_no_job() {
    let manager = BuildManager::with_job_id(Arc::new(state()), "abc123".to_string(), config());
    let (phase, step) = manager.advance(
        BuildPhase::SavingContext,
        BuildEvent::ContextFailed("disk full".to_string()),
    );
    assert_eq!(phase, BuildPhase::Rejected);
    let error = match step {
        BuildStep::Reject { error, discard } => {
            assert_eq!(discard, Some("/data/contexts/abc123".to_string()));
            error
        }
        other => panic!("not rejected: {:?}", other),
    };
    assert!(matches!(&error, BuildError::Context(m) if m == "disk full"));
    let resp = build_reply(Err(error));
    assert_eq!(resp.status, INTERNAL_SERVER_ERROR);
    assert!(resp.body.completed);
    assert!(!resp.body.success);
    assert_eq!(resp.body.error_message, Some("disk full".to_string()));
    assert_eq!(resp.body.remote_build_id, "");
}

#[test]
fn build_whose_job_is_refused_is_rejected() {
    let manager = BuildManager::with_job_id(Arc::new(state()), "abc123".to_string(), config());
    let (phase, step) = manager.advance(
        BuildPhase::Submitting,
        BuildEvent::JobRefused("forbidden".to_string()),
    );
    assert_eq!(phase, BuildPhase::Rejected);
    assert!(matches!(
        step,
        BuildStep::Reject { error: BuildError::Cluster(m), discard: None } if m == "forbidden"
    ));
}

#[test]
fn build_whose_template_does_not_render_is_rejected() {
    let mut broken = state();
    broken.job_template = "{{#if".to_string();
    let manager = BuildManager::with_job_id(Arc::new(broken), "abc123".to_string(), config());
    let (phase, step) = manager.advance(BuildPhase::SavingContext, BuildEvent::ContextSaved);
    assert_eq!(phase, BuildPhase::Rejected);
    assert!(matches!(
        step,
        BuildStep::Reject {
            error: BuildError::Template(_),
            discard: None
        }
    ));
}

#[test]
fn events_out_of_order_change_nothing() {
    let manager = BuildManager::with_job_id(Arc::new(state()), "abc123".to_string(), config());
    let out_of_order = [
        (BuildPhase::Accepted, BuildEvent::ContextSaved),
        (BuildPhase::Accepted, BuildEvent::JobAccepted),
        (BuildPhase::SavingContext, BuildEvent::JobAccepted),
        (BuildPhase::SavingContext, BuildEvent::Begin),
        (BuildPhase::Submitting, BuildEvent::ContextSaved),
        (BuildPhase::Supervising, BuildEvent::JobAccepted),
        (BuildPhase::Supervising, BuildEvent::Begin),
        (BuildPhase::Rejected, BuildEvent::ContextSaved),
        (BuildPhase::Rejected, BuildEvent::Begin),
    ];
    for (phase, event) in out_of_order {
        let (next, step) = manager.advance(phase, event);
        assert_eq!(next, phase);
        assert!(matches!(step, BuildStep::Ignore));
    }
}

#[test]
fn upload_limits_are_one_mebibyte_and_twenty_gibibytes() {
    assert_eq!(BUILD_CONFIG_LIMIT, 1024 * 1024);
    assert_eq!(BUILD_CONTEXT_LIMIT, 20 * 1024 * 1024 * 1024);
    assert!(config_size_accepted(0));
    assert!(config_size_accepted(1_048_576));
    assert!(!config_size_accepted(1_048_577));
    assert!(context_size_accepted(4));
    assert!(context_size_accepted(21_474_836_480));
    assert!(!context_size_accepted(21_474_836_481));
    assert!(!context_size_accepted(u64::MAX));
}

#[test]
fn status_of_a_missing_job_is_not_found() {
    let manager = BuildManager::for_job(Arc::new(state()), &"abc123".to_string()).unwrap();
    let resp = get_job_status(&manager, None, None).unwrap_err();
    assert_eq!(resp.status, NOT_FOUND);
    assert_eq!(resp.body, "job not found");
}

#[test]
fn status_of_a_pending_job_carries_nothing_yet() {
    let manager = BuildManager::for_job(Arc::new(state()), &"abc123".to_string()).unwrap();
    for pending in [job(None, None), job(Some(0), Some(0)), job(Some(0), None)] {
        assert!(!manager.wants_logs(&pending));
        let status =
            get_job_status(&manager, Some(&pending), Some("ignored".to_string())).unwrap();
        assert!(!status.completed);
        assert!(!status.success);
        assert_eq!(status.image_tag, None);
        assert_eq!(status.logs, None);
        assert_eq!(status.error_message, None);
        assert_eq!(status.remote_build_id, "abc123");
    }
}

#[test]
fn status_of_a_succeeded_job_carries_the_image_and_the_logs() {
    let manager = BuildManager::for_job(Arc::new(state()), &"abc123".to_string()).unwrap();
    let done = job(Some(1), None);
    assert!(manager.wants_logs(&done));
    let status = get_job_status(&manager, Some(&done), Some("built".to_string())).unwrap();
    assert!(status.completed);
    assert!(status.success);
    assert_eq!(status.image_tag, Some("u/i:t".to_string()));
    assert_eq!(status.logs, Some("built".to_string()));
    assert_eq!(status.remote_build_id, "abc123");
    let without_logs = manager.get_build_status_response(&done, None);
    assert_eq!(without_logs.logs, None);
    assert!(without_logs.success);
}

#[test]
fn status_of_a_failed_job_carries_the_logs_alone() {
    let manager = BuildManager::for_job(Arc::new(state()), &"abc123".to_string()).unwrap();
    for failed in [job(None, Some(1)), job(Some(0), Some(3)), job(Some(1), Some(1))] {
        assert!(manager.wants_logs(&failed));
        let status = get_job_status(&manager, Some(&failed), Some("boom".to_string())).unwrap();
        assert!(status.completed);
        assert!(!status.success);
        assert_eq!(status.image_tag, None);
        assert_eq!(status.logs, Some("boom".to_string()));
    }
}

#[test]
fn state_of_a_build_follows_the_counters() {
    assert_eq!(BuildState::classify(None), BuildState::Unknown);
    assert_eq!(
        BuildState::classify(Some(&job(None, None))),
        BuildState::Pending
    );
    assert_eq!(
        BuildState::classify(Some(&job(Some(0), Some(0)))),
        BuildState::Pending
    );
    assert_eq!(
        BuildState::classify(Some(&job(Some(1), Some(0)))),
        BuildState::Succeeded
    );
    assert_eq!(
        BuildState::classify(Some(&job(Some(2), None))),
        BuildState::Succeeded
    );
    assert_eq!(
        BuildState::classify(Some(&job(None, Some(1)))),
        BuildState::Failed
    );
    assert_eq!(
        BuildState::classify(Some(&job(Some(1), Some(1)))),
        BuildState::Failed
    );
    assert!(job(Some(1), Some(1)).anomalous());
    assert!(!job(Some(1), Some(0)).anomalous());
    assert!(!job(None, Some(1)).anomalous());
    assert!(BuildState::Succeeded.completed());
    assert!(BuildState::Failed.completed());
    assert!(!BuildState::Pending.completed());
    assert!(!BuildState::Unknown.completed());
}

#[test]
fn logs_route_answers_with_the_logs_or_not_found() {
    let found = get_job_logs(Some("line 1\nline 2".to_string()));
    assert_eq!(found.status, OK);
    assert_eq!(found.body, "line 1\nline 2");
    let missing = get_job_logs(None);
    assert_eq!(missing.status, NOT_FOUND);
    assert_eq!(missing.body, "not found");
}

#[test]
fn context_route_sends_the_file_of_the_build_where_it_exists() {
    let manager = BuildManager::for_job(Arc::new(state()), &"abc123".to_string()).unwrap();
    assert_eq!(
        get_context(&manager, true),
        Some("/data/contexts/abc123/context.zip".to_string())
    );
    assert_eq!(get_context(&manager, false), None);
}
