use chassis::remote_build::manager::BuildManager;
use chassis::remote_build::state::AppState;
use chassis::remote_build::state::BuildConfig;
use k8s_openapi::apimachinery::pkg::api::resource::Quantity;
use std::sync::Arc;

const JOB_TEMPLATE: &str = r#"apiVersion: batch/v1
kind: Job
metadata:
  name: {{JOB_NAME}}
  labels:
    chassisml.io/job-identifier: "{{JOB_IDENTIFIER}}"
  annotations:
    chassisml.io/destination: "{{{IMAGE_NAME}}}"
spec:
  activeDeadlineSeconds: {{TIMEOUT}}
  ttlSecondsAfterFinished: {{TTL_AFTER_FINISHED}}
  backoffLimit: 0
  template:
    spec:
      restartPolicy: Never
      containers:
        - name: builder
          image: moby/buildkit:rootless
          command: ["buildctl-daemonless.sh"]
          args:
            - build
            - --frontend=dockerfile.v0
            - --local=context=/workspace
            - "--opt=context={{{CONTEXT_URL}}}"
            - "--output=type=image,name={{{IMAGE_NAME}}},push=true{{{ADDTL_OPTIONS}}}"
          resources: {{{RESOURCES}}}
          volumeMounts:
            - name: workspace
              mountPath: /workspace
{{#if CREDS}}
            - name: creds
              mountPath: /home/user/.docker
{{/if}}
      volumes:
        - name: workspace
          emptyDir: {}
{{#if CREDS}}
        - name: creds
          secret:
            secretName: {{CREDS}}
{{/if}}
"#;

fn get_default_app_state() -> AppState {
    AppState {
        context_path: "/tmp".to_string(),
        service_name: "test".to_string(),
        pod_name: "test-0".to_string(),
        port: "8080".to_string(),
        job_template: JOB_TEMPLATE.to_string(),
        build_timeout: 3600,
        build_ttl_after_finished: 3600,
        build_resources: "{}".to_string(),
        registry_url: "my-registry:5000".to_string(),
        registry_prefix: "".to_string(),
        registry_credentials_secret_name: "".to_string(),
        registry_insecure: true,
    }
}

fn get_default_build_config() -> BuildConfig {
    BuildConfig {
        image_name: "image".to_string(),
        tag: "tag".to_string(),
        webhook: None,
        timeout: None,
        insecure_registry: None,
    }
}

fn get_custom_test_manager(state: Option<AppState>, config: Option<BuildConfig>) -> BuildManager {
    let state = Arc::new(state.unwrap_or(get_default_app_state()));
    let build_config = config.unwrap_or(get_default_build_config());
    BuildManager::new(state, build_config).unwrap()
}

fn get_default_test_manager() -> BuildManager {
    get_custom_test_manager(None, None)
}

#[test]
fn test_build_image_name_with_registry_url() {
    let manager = get_default_test_manager();
    assert_eq!(manager.build_image_name(), "my-registry:5000/image:tag")
}

#[test]
fn test_build_image_name_with_registry_url_and_prefix() {
    let mut state = get_default_app_state();
    state.registry_prefix = "prefix".to_string();
    let manager = get_custom_test_manager(Some(state), None);
    assert_eq!(
        manager.build_image_name(),
        "my-registry:5000/prefix/image:tag"
    )
}

#[test]
fn test_build_image_name_with_registry_url_and_trailing_slash() {
    let mut build_config = get_default_build_config();
    build_config.image_name = "username/image".to_string();
    let mut state = get_default_app_state();
    state.registry_url = "my-registry:5000/".to_string();
    let manager = get_custom_test_manager(Some(state), Some(build_config));
    assert_eq!(
        manager.build_image_name(),
        "my-registry:5000/username/image:tag"
    )
}

#[test]
fn test_create_job_object() {
    let context_url = "http://test-0:8080/contexts/abc123".to_string();
    let manager = get_default_test_manager();

    let job = manager
        .create_job_object(&context_url)
        .expect("unable to create job object");
    let labels = job.metadata.labels.unwrap();
    let annotations = job.metadata.annotations.unwrap();
    assert!(labels.contains_key("chassisml.io/job-identifier"));
    assert!(annotations.contains_key("chassisml.io/destination"));
    assert!(job
        .metadata
        .name
        .unwrap()
        .starts_with("chassis-remote-build-job-"));
}

#[test]
fn kubernetes_test_create_job_object() {
    let state = Arc::new(get_default_app_state());
    let build_config = BuildConfig {
        image_name: "".to_string(),
        tag: "".to_string(),
        webhook: None,
        timeout: None,
        insecure_registry: None,
    };
    let context_url = "http://test-0:8080/contexts/abc123".to_string();
    let manager = BuildManager::with_job_id(state, "abc123".to_string(), build_config);

    let job = manager
        .create_job_object(&context_url)
        .expect("unable to create job object");
    assert!(job
        .metadata
        .labels
        .unwrap()
        .contains_key("chassisml.io/job-identifier"));
    assert_eq!(
        job.metadata.name.unwrap(),
        "chassis-remote-build-job-abc123"
    );
}

#[test]
fn test_create_job_object_with_insecure_registry() {
    let context_url = "http://test-0:8080/contexts/abc123".to_string();
    let manager = get_default_test_manager();
    let job = manager
        .create_job_object(&context_url)
        .expect("unable to create job object");
    let containers = job.spec.unwrap().template.spec.unwrap().containers;
    let args = containers[0].args.as_ref().unwrap();
    assert!(args
        .iter()
        .any(|line| { line.contains(",registry.insecure=true") }));
}

#[test]
fn test_create_job_object_with_secure_registry() {
    let mut state = get_default_app_state();
    state.registry_insecure = false;
    let context_url = "http://test-0:8080/contexts/abc123".to_string();
    let manager = get_custom_test_manager(Some(state), None);
    let job = manager
        .create_job_object(&context_url)
        .expect("unable to create job object");
    let containers = job.spec.unwrap().template.spec.unwrap().containers;
    let args = containers[0].args.as_ref().unwrap();
    assert!(args
        .iter()
        .all(|line| { !line.contains(",registry.insecure=true") }));
}

#[test]
fn test_create_job_object_with_resources() {
    let mut requests = serde_json::Map::new();
    requests.insert("cpu".to_string(), serde_json::Value::String("4".to_string()));
    requests.insert(
        "memory".to_string(),
        serde_json::Value::String("32Gi".to_string()),
    );
    let mut limits = serde_json::Map::new();
    limits.insert(
        "cpu".to_string(),
        serde_json::Value::String("8000m".to_string()),
    );
    limits.insert(
        "memory".to_string(),
        serde_json::Value::String("128Gi".to_string()),
    );
    let mut block = serde_json::Map::new();
    block.insert("requests".to_string(), serde_json::Value::Object(requests));
    block.insert("limits".to_string(), serde_json::Value::Object(limits));
    let resources = serde_json::Value::Object(block).to_string();

    let mut state = get_default_app_state();
    state.build_resources = resources;

    let context_url = "http://test-0:8080/contexts/abc123".to_string();
    let manager = get_custom_test_manager(Some(state), None);
    let job = manager
        .create_job_object(&context_url)
        .expect("unable to create job object");
    let containers = job.spec.unwrap().template.spec.unwrap().containers;
    let resources = containers[0].resources.as_ref().unwrap();
    let requests = resources.requests.as_ref().unwrap();
    let limits = resources.limits.as_ref().unwrap();
    assert_eq!(requests["cpu"], Quantity("4".to_string()));
    assert_eq!(requests["memory"], Quantity("32Gi".to_string()));
    assert_eq!(limits["cpu"], Quantity("8000m".to_string()));
    assert_eq!(limits["memory"], Quantity("128Gi".to_string()));
}

#[test]
fn test_create_job_object_with_default_timeout() {
    let context_url = "http://test-0:8080/contexts/abc123".to_string();
    let manager = get_default_test_manager();
    let job = manager
        .create_job_object(&context_url)
        .expect("unable to create job object");
    assert_eq!(job.spec.unwrap().active_deadline_seconds, Some(3600));
}

#[test]
fn test_create_job_object_with_user_timeout() {
    let mut build_config = get_default_build_config();
    build_config.timeout = Some(10);
    let context_url = "http://test-0:8080/contexts/abc123".to_string();
    let manager = get_custom_test_manager(None, Some(build_config));
    let job = manager
        .create_job_object(&context_url)
        .expect("unable to create job object");
    assert_eq!(job.spec.unwrap().active_deadline_seconds, Some(10));
}

#[test]
fn test_create_job_object_with_ttl_after_finished() {
    let mut state = get_default_app_state();
    state.build_ttl_after_finished = 600;

    let context_url = "http://test-0:8080/contexts/abc123".to_string();
    let manager = get_custom_test_manager(Some(state), None);
    let job = manager
        .create_job_object(&context_url)
        .expect("unable to create job object");
    assert_eq!(job.spec.unwrap().ttl_seconds_after_finished, Some(600));
}

#[test]
fn test_create_job_object_without_registry_credentials() {
    let context_url = "http://test-0:8080/contexts/abc123".to_string();
    let manager = get_default_test_manager();
    let job = manager
        .create_job_object(&context_url)
        .expect("unable to create job object");
    let spec = job.spec.unwrap().template.spec.unwrap();
    let volumes = &spec.volumes.unwrap();
    assert_eq!(volumes.len(), 1);
    assert!(volumes.iter().all(|v| {
        if let Some(s) = v.secret.as_ref() {
            s.secret_name != Some("my-registry-creds".to_string())
        } else {
            true
        }
    }));
    let volume_mounts = spec.containers[0].volume_mounts.as_ref().unwrap();
    assert_eq!(volume_mounts.len(), 1);
    assert!(volume_mounts.iter().all(|vm| vm.name != "creds"))
}

#[test]
fn test_create_job_object_with_registry_credentials() {
    let mut state = get_default_app_state();
    state.registry_credentials_secret_name = "my-registry-creds".to_string();

    let context_url = "http://test-0:8080/contexts/abc123".to_string();
    let manager = get_custom_test_manager(Some(state), None);
    let job = manager
        .create_job_object(&context_url)
        .expect("unable to create job object");
    let spec = job.spec.unwrap().template.spec.unwrap();
    let volumes = &spec.volumes.unwrap();
    assert_eq!(volumes.len(), 2);
    assert!(volumes.iter().any(|v| {
        if let Some(s) = v.secret.as_ref() {
            s.secret_name == Some("my-registry-creds".to_string())
        } else {
            false
        }
    }));
    let volume_mounts = spec.containers[0].volume_mounts.as_ref().unwrap();
    assert_eq!(volume_mounts.len(), 2);
    assert!(volume_mounts.iter().any(|vm| vm.name == "creds"))
}

#[test]
fn create_job_object_reports_a_manifest_that_is_no_job() {
    let mut state = get_default_app_state();
    state.job_template = "- {{JOB_NAME}}\n".to_string();
    let manager = get_custom_test_manager(Some(state), None);
    let outcome = manager.create_job_object(&"http://test-0:8080/contexts/abc123".to_string());
    match outcome {
        Err(chassis::remote_build::manager::BuildError::Manifest(message)) => {
            assert!(!message.is_empty());
            assert_ne!(message, "- chassis-remote-build-job-abc123\n");
        }
        other => panic!("a list is no job: {:?}", other),
    }
}

#[test]
fn job_from_manifest_reads_what_the_text_describes() {
    let job = chassis::remote_build::template::job_from_manifest(
        "metadata:\n  name: some-job\nspec:\n  backoffLimit: 3\n  template:\n    spec:\n      containers: []\n",
    )
    .unwrap();
    assert_eq!(job.metadata.name, Some("some-job".to_string()));
    assert_eq!(job.spec.unwrap().backoff_limit, Some(3));
    assert!(chassis::remote_build::template::job_from_manifest("metadata: [").is_err());
}

#[test]
fn create_job_object_reports_a_template_that_does_not_render() {
    let mut state = get_default_app_state();
    state.job_template = "name: {{#if JOB_NAME}}".to_string();
    let manager = get_custom_test_manager(Some(state), None);
    let outcome = manager.create_job_object(&"http://test-0:8080/contexts/abc123".to_string());
    match outcome {
        Err(chassis::remote_build::manager::BuildError::Template(message)) => {
            assert!(!message.is_empty())
        }
        _ => panic!("a template with an open block must not render"),
    }
}

#[test]
fn create_job_object_refuses_a_template_that_includes_a_partial() {
    let templates = [
        "{{#*inline \"a\"}}{{> a}}{{/inline}}{{> a}}",
        "name: {{> other}}",
        "name: {{~> other}}",
        "name: {{#> other}}x{{/other}}",
        "name: {{ ~ # > other}}x{{/other}}",
        "name: {{\n>\tother}}",
    ];
    for template in templates {
        assert!(chassis::remote_build::template::template_includes_partial(template));
        let mut state = get_default_app_state();
        state.job_template = template.to_string();
        let manager = get_custom_test_manager(Some(state), None);
        match manager.create_job_object(&"http://test-0:8080/contexts/abc123".to_string()) {
            Err(chassis::remote_build::manager::BuildError::Template(message)) => {
                assert_eq!(message, "the job template includes a partial")
            }
            other => panic!("{} was not refused: {:?}", template, other),
        }
    }
}

#[test]
fn templates_without_partials_are_rendered() {
    let templates = [
        "",
        "description: >\n  folded text\nname: {{JOB_NAME}}",
        "a > b",
        "{{JOB_NAME}} > {{TIMEOUT}}",
        "{{!-- > --}}",
        "{{#if CREDS}}>{{/if}}",
        "{ {> a}}",
        "{{JOB_NAME}}{>",
        JOB_TEMPLATE,
    ];
    for template in templates {
        assert!(
            !chassis::remote_build::template::template_includes_partial(template),
            "{}",
            template
        );
    }
    assert!(chassis::remote_build::template::template_includes_partial("{{{> a}}}"));
}

fn returns_for(template: String) {
    assert!(chassis::remote_build::template::template_nests_within_limit(
        &template
    ));
    let mut state = get_default_app_state();
    state.job_template = template;
    let manager = get_custom_test_manager(Some(state), None);
    let outcome = manager.create_job_object(&"http://test-0:8080/contexts/abc123".to_string());
    if let Err(chassis::remote_build::manager::BuildError::Template(message)) = &outcome {
        assert_ne!(message, "the job template nests too deeply");
        assert_ne!(message, "the job template includes a partial");
    }
}

#[test]
fn templates_at_the_nesting_limit_are_handed_to_the_renderer() {
    let deep = 1022;
    returns_for(format!(
        "name: {{{{lookup {}{} 0}}}}",
        "[".repeat(deep),
        "]".repeat(deep)
    ));
    returns_for(format!(
        "name: {{{{lookup {}this{} 0}}}}",
        "(lookup ".repeat(deep),
        " 0)".repeat(deep)
    ));
    returns_for(format!(
        "name: {{{{lookup {}1{} \"a\"}}}}",
        "{\"a\":".repeat(deep),
        "}".repeat(deep)
    ));
    let blocks = 204;
    returns_for(format!(
        "name: {}x{}",
        "{{#if JOB_NAME}}".repeat(blocks),
        "{{/if}}".repeat(blocks)
    ));
    returns_for(format!(
        "name: {}x{}",
        "{{#each JOB_NAME}}".repeat(blocks),
        "{{/each}}".repeat(blocks)
    ));
}

#[test]
fn create_job_object_refuses_a_template_that_nests_too_deeply() {
    let templates = [
        format!("name: {{{{lookup {}{} 0}}}}", "[".repeat(1023), "]".repeat(1023)),
        "{{JOB_NAME}}".repeat(513),
        "#".repeat(1025),
    ];
    for template in templates {
        assert!(!chassis::remote_build::template::template_nests_within_limit(
            &template
        ));
        let mut state = get_default_app_state();
        state.job_template = template;
        let manager = get_custom_test_manager(Some(state), None);
        match manager.create_job_object(&"http://test-0:8080/contexts/abc123".to_string()) {
            Err(chassis::remote_build::manager::BuildError::Template(message)) => {
                assert_eq!(message, "the job template nests too deeply")
            }
            other => panic!("not refused: {:?}", other),
        }
    }
    assert!(chassis::remote_build::template::template_nests_within_limit(
        &"{{JOB_NAME}}".repeat(512)
    ));
    assert!(chassis::remote_build::template::template_nests_within_limit(""));
}
