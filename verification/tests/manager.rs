use chassis::remote_build::manager::build_job_name;
use chassis::remote_build::manager::BuildError;
use chassis::remote_build::manager::BuildManager;
use chassis::remote_build::state::AppState;
use chassis::remote_build::state::BuildConfig;
use chassis::remote_build::supervisor::WATCH_GRACE_SECONDS;
use chassis::remote_build::template::TemplateValue;
use chassis::PORT;
use std::sync::Arc;

fn state() -> AppState {
    AppState::new(
        "test".to_string(),
        "test-0".to_string(),
        "/data/contexts".to_string(),
        "name: {{JOB_NAME}}".to_string(),
        3600,
        600,
        "{}".to_string(),
        "my-registry:5000".to_string(),
        "".to_string(),
        "".to_string(),
        true,
    )
}

fn config() -> BuildConfig {
    BuildConfig {
        image_name: "image".to_string(),
        tag: "tag".to_string(),
        webhook: None,
        timeout: None,
        insecure_registry: None,
    }
}

fn manager_with(state: AppState, config: BuildConfig) -> BuildManager {
    BuildManager::with_job_id(Arc::new(state), "abc123".to_string(), config)
}

#[test]
fn new_state_listens_on_the_port_of_the_service() {
    let state = state();
    assert_eq!(PORT, 8080);
    assert_eq!(state.port, "8080");
    assert_eq!(state.service_name, "test");
    assert_eq!(state.pod_name, "test-0");
    assert_eq!(state.context_path, "/data/contexts");
    assert_eq!(state.job_template, "name: {{JOB_NAME}}");
    assert_eq!(state.build_timeout, 3600);
    assert_eq!(state.build_ttl_after_finished, 600);
    assert_eq!(state.build_resources, "{}");
    assert_eq!(state.registry_url, "my-registry:5000");
    assert!(state.registry_insecure);
}

#[test]
fn new_manager_has_a_fresh_identifier() {
    let first = BuildManager::new(Arc::new(state()), config()).unwrap();
    let second = BuildManager::new(Arc::new(state()), config()).unwrap();
    for id in [&first.job_id, &second.job_id] {
        assert_eq!(id.len(), 36);
        for (i, c) in id.chars().enumerate() {
            if i == 8 || i == 13 || i == 18 || i == 23 {
                assert_eq!(c, '-');
            } else {
                assert!(c.is_ascii_digit() || ('a'..='f').contains(&c));
            }
        }
        assert!(uuid::Uuid::parse_str(id).is_ok());
    }
    assert_ne!(first.job_id, second.job_id);
    assert!(first.config.is_some());
}

#[test]
fn manager_for_a_job_has_no_configuration() {
    let manager = BuildManager::for_job(Arc::new(state()), &"abc123".to_string()).unwrap();
    assert_eq!(manager.job_id, "abc123");
    assert!(manager.config.is_none());
    assert_eq!(manager.get_job_name(), "chassis-remote-build-job-abc123");
}

#[test]
fn job_name_is_the_prefix_and_the_identifier() {
    assert_eq!(build_job_name("abc123"), "chassis-remote-build-job-abc123");
    assert_eq!(build_job_name(""), "chassis-remote-build-job-");
    assert_eq!(
        manager_with(state(), config()).get_job_name(),
        "chassis-remote-build-job-abc123"
    );
}

#[test]
fn timeout_is_the_one_of_the_build_where_it_has_one() {
    let mut asked = config();
    asked.timeout = Some(10);
    assert_eq!(manager_with(state(), asked).get_timeout(), 10);
    let mut zero = config();
    zero.timeout = Some(0);
    assert_eq!(manager_with(state(), zero).get_timeout(), 0);
}

#[test]
fn timeout_is_the_default_of_the_service_otherwise() {
    assert_eq!(manager_with(state(), config()).get_timeout(), 3600);
}

#[test]
fn watch_deadline_adds_the_grace_to_the_timeout() {
    assert_eq!(WATCH_GRACE_SECONDS, 10);
    assert_eq!(manager_with(state(), config()).watch_deadline(), 3610);
    let mut asked = config();
    asked.timeout = Some(5);
    assert_eq!(manager_with(state(), asked).watch_deadline(), 15);
}

#[test]
fn insecure_registry_follows_the_service_where_it_names_a_registry() {
    let mut build = config();
    build.insecure_registry = Some(false);
    assert!(manager_with(state(), build).is_insecure_registry());
    let mut secure = state();
    secure.registry_insecure = false;
    let mut build = config();
    build.insecure_registry = Some(true);
    assert!(!manager_with(secure, build).is_insecure_registry());
}

#[test]
fn insecure_registry_follows_the_build_where_the_service_names_no_registry() {
    let mut bare = state();
    bare.registry_url = "".to_string();
    let mut build = config();
    build.insecure_registry = Some(true);
    assert!(manager_with(bare, build).is_insecure_registry());

    let mut bare = state();
    bare.registry_url = "".to_string();
    let mut build = config();
    build.insecure_registry = Some(false);
    assert!(!manager_with(bare, build).is_insecure_registry());

    let mut bare = state();
    bare.registry_url = "".to_string();
    assert!(!manager_with(bare, config()).is_insecure_registry());

    let mut bare = state();
    bare.registry_url = "".to_string();
    let reader = BuildManager::for_job(Arc::new(bare), &"abc123".to_string()).unwrap();
    assert!(!reader.is_insecure_registry());
}

#[test]
fn secret_name_needs_a_registry_and_a_name() {
    assert_eq!(manager_with(state(), config()).get_secret_name(), None);
    let mut with_secret = state();
    with_secret.registry_credentials_secret_name = "my-registry-creds".to_string();
    assert_eq!(
        manager_with(with_secret, config()).get_secret_name(),
        Some("my-registry-creds".to_string())
    );
    let mut without_registry = state();
    without_registry.registry_url = "".to_string();
    without_registry.registry_credentials_secret_name = "my-registry-creds".to_string();
    assert_eq!(
        manager_with(without_registry, config()).get_secret_name(),
        None
    );
}

#[test]
fn context_path_depends_on_the_root_and_the_identifier_alone() {
    let manager = manager_with(state(), config());
    assert_eq!(
        manager.get_context_cache_path(),
        "/data/contexts/abc123/context.zip"
    );
    assert_eq!(manager.get_context_directory(), "/data/contexts/abc123");

    let mut other = state();
    other.pod_name = "other-7".to_string();
    other.registry_url = "".to_string();
    other.build_timeout = 1;
    let mut build = config();
    build.image_name = "something/else".to_string();
    assert_eq!(
        manager_with(other, build).get_context_cache_path(),
        manager.get_context_cache_path()
    );
    let reader = BuildManager::for_job(Arc::new(state()), &"abc123".to_string()).unwrap();
    assert_eq!(
        reader.get_context_cache_path(),
        manager.get_context_cache_path()
    );
    let next = BuildManager::for_job(Arc::new(state()), &"abc124".to_string()).unwrap();
    assert_eq!(
        next.get_context_cache_path(),
        "/data/contexts/abc124/context.zip"
    );
}

#[test]
fn context_url_names_the_replica_that_holds_the_context() {
    assert_eq!(
        manager_with(state(), config()).get_context_url(),
        "http://test-0.test:8080/contexts/abc123/context.zip"
    );
}

#[test]
fn template_fields_carry_the_values_of_the_build() {
    let mut with_secret = state();
    with_secret.registry_credentials_secret_name = "creds".to_string();
    let fields = manager_with(with_secret, config()).job_template_fields("http://x/context.zip");
    let names: Vec<&str> = fields.iter().map(|f| f.name.as_str()).collect();
    assert_eq!(
        names,
        vec![
            "JOB_NAME",
            "JOB_IDENTIFIER",
            "IMAGE_NAME",
            "CONTEXT_URL",
            "TIMEOUT",
            "TTL_AFTER_FINISHED",
            "ADDTL_OPTIONS",
            "RESOURCES",
            "CREDS"
        ]
    );
    let text = |i: usize| match &fields[i].value {
        TemplateValue::Text(t) => t.clone(),
        other => panic!("field {} is no text: {:?}", i, other),
    };
    let number = |i: usize| match &fields[i].value {
        TemplateValue::Number(n) => *n,
        other => panic!("field {} is no number: {:?}", i, other),
    };
    assert_eq!(text(0), "chassis-remote-build-job-abc123");
    assert_eq!(text(1), "abc123");
    assert_eq!(text(2), "my-registry:5000/image:tag");
    assert_eq!(text(3), "http://x/context.zip");
    assert_eq!(number(4), 3600);
    assert_eq!(number(5), 600);
    assert_eq!(text(6), ",registry.insecure=true");
    assert_eq!(text(7), "{}");
    assert_eq!(text(8), "creds");

    let mut secure = state();
    secure.registry_insecure = false;
    let fields = manager_with(secure, config()).job_template_fields("u");
    assert!(matches!(&fields[6].value, TemplateValue::Text(t) if t.is_empty()));
    assert!(matches!(&fields[8].value, TemplateValue::Null));
}

#[test]
fn rendering_puts_each_kind_of_value_into_the_text() {
    let mut plain = state();
    plain.job_template =
        "metadata:\n  name: {{JOB_NAME}}\nspec:\n  activeDeadlineSeconds: {{TIMEOUT}}\n  backoffLimit: {{#if CREDS}}1{{else}}0{{/if}}\n  template:\n    spec:\n      containers: []\n"
            .to_string();
    let job = manager_with(plain, config())
        .create_job_object(&"u".to_string())
        .unwrap();
    assert_eq!(
        job.metadata.name,
        Some("chassis-remote-build-job-abc123".to_string())
    );
    let spec = job.spec.unwrap();
    assert_eq!(spec.active_deadline_seconds, Some(3600));
    assert_eq!(spec.backoff_limit, Some(0));
}

#[test]
fn error_message_is_the_text_of_the_failure() {
    assert_eq!(BuildError::Context("a".to_string()).message(), "a");
    assert_eq!(BuildError::Template("b".to_string()).message(), "b");
    assert_eq!(BuildError::Manifest("c".to_string()).message(), "c");
    assert_eq!(BuildError::Cluster("d".to_string()).message(), "d");
}
