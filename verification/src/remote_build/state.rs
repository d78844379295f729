//! What the build service knows from its configuration, and what a client
//! asks for with one build.
use crate::text::decimal_digits;
use crate::text::decimal_string;
use crate::PORT;
use vstd::prelude::*;

verus! {

/// Settings of the running build service, shared by all builds.
#[derive(Debug)]
pub struct AppState {
    /// Directory under which each build keeps its context.
    pub context_path: String,
    /// Name of the headless service through which replicas are reached.
    pub service_name: String,
    /// Name of the pod this replica runs in.
    pub pod_name: String,
    /// The port on which the service listens, in decimal.
    pub port: String,
    /// Text of the template from which a build job's manifest is rendered.
    pub job_template: String,
    /// Seconds a build may run when its configuration names no timeout.
    pub build_timeout: u64,
    /// Seconds a finished job is kept by the cluster.
    pub build_ttl_after_finished: u64,
    /// Resource block of the builder container, as a JSON fragment.
    pub build_resources: String,
    /// Registry that images are pushed to; empty when the image name carries it.
    pub registry_url: String,
    /// Path prefix inside the registry; may be empty.
    pub registry_prefix: String,
    /// Name of the secret with the registry's credentials; may be empty.
    pub registry_credentials_secret_name: String,
    /// Whether the configured registry is reached without TLS.
    pub registry_insecure: bool,
}

impl AppState {
    /// The state of a service that listens on the crate's port.
    pub fn new(
        service_name: String,
        pod_name: String,
        context_path: String,
        job_template: String,
        build_timeout: u64,
        build_ttl_after_finished: u64,
        build_resources: String,
        registry_url: String,
        registry_prefix: String,
        registry_credentials_secret_name: String,
        registry_insecure: bool,
    ) -> (state: AppState)
        ensures
            state.service_name == service_name,
            state.pod_name == pod_name,
            state.context_path == context_path,
            state.job_template == job_template,
            state.port@ == decimal_digits(PORT as nat),
            state.build_timeout == build_timeout,
            state.build_ttl_after_finished == build_ttl_after_finished,
            state.build_resources == build_resources,
            state.registry_url == registry_url,
            state.registry_prefix == registry_prefix,
            state.registry_credentials_secret_name == registry_credentials_secret_name,
            state.registry_insecure == registry_insecure,
    {
        AppState {
            context_path,
            service_name,
            pod_name,
            port: decimal_string(PORT as u64),
            job_template,
            build_timeout,
            build_ttl_after_finished,
            build_resources,
            registry_url,
            registry_prefix,
            registry_credentials_secret_name,
            registry_insecure,
        }
    }
}

/// What a client asks for with one build.
#[derive(Debug)]
pub struct BuildConfig {
    /// The user's part of the image reference.
    pub image_name: String,
    /// Tag of the image.
    pub tag: String,
    /// Address to notify when the build has finished.
    pub webhook: Option<String>,
    /// Seconds this build may run, in place of the service's default.
    pub timeout: Option<u64>,
    /// Whether the registry named in the image is reached without TLS.
    pub insecure_registry: Option<bool>,
}

} // verus!
