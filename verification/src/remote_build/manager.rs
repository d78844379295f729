//! The manager of one build: its identifier, its configuration and what
//! follows from them and from the service's settings.
use crate::remote_build::image::assemble_image_reference;
use crate::remote_build::image::image_reference;
use crate::remote_build::state::AppState;
use crate::remote_build::state::BuildConfig;
use std::sync::Arc;
use uuid::Uuid;
use vstd::prelude::*;
use vstd::string::StringExecFns;

verus! {

/// Why a build could not be started.
#[derive(Debug)]
pub enum BuildError {
    /// The build context could not be stored in the cache.
    Context(String),
    /// The job template could not be rendered.
    Template(String),
    /// The rendered manifest is not a job.
    Manifest(String),
    /// The cluster did not accept the job.
    Cluster(String),
}

impl BuildError {
    /// The text that describes the failure.
    pub open spec fn message_spec(self) -> Seq<char> {
        match self {
            BuildError::Context(m) => m@,
            BuildError::Template(m) => m@,
            BuildError::Manifest(m) => m@,
            BuildError::Cluster(m) => m@,
        }
    }

    /// The text that describes the failure.
    pub fn message(&self) -> (m: String)
        ensures
            m@ == self.message_spec(),
    {
        match self {
            BuildError::Context(m) => m.clone(),
            BuildError::Template(m) => m.clone(),
            BuildError::Manifest(m) => m.clone(),
            BuildError::Cluster(m) => m.clone(),
        }
    }
}

/// Whether `c` is a digit or one of the letters `a` to `f`.
pub open spec fn is_lower_hex(c: char) -> bool {
    ('0' <= c && c <= '9') || ('a' <= c && c <= 'f')
}

/// Whether `id` has the shape of a build identifier: 36 characters, dashes at
/// the positions 8, 13, 18 and 23 and lower-case hexadecimal digits elsewhere.
pub open spec fn is_build_id(id: Seq<char>) -> bool {
    &&& id.len() == 36
    &&& forall|i: int|
        0 <= i < 36 ==> if i == 8 || i == 13 || i == 18 || i == 23 {
            #[trigger] id[i] == '-'
        } else {
            is_lower_hex(id[i])
        }
}

/// Calls `uuid::Uuid::new_v4` and renders the identifier with `to_string`.
///
/// Trusted: whatever identifier is drawn, its text is the hyphenated lower-case
/// form, 32 hexadecimal digits in groups of 8, 4, 4, 4 and 12.
#[verifier::external_body]
fn fresh_build_id() -> (id: String)
    ensures
        is_build_id(id@),
{
    Uuid::new_v4().to_string()
}

/// The name of the cluster job that builds `job_id`.
pub open spec fn job_name(job_id: Seq<char>) -> Seq<char> {
    "chassis-remote-build-job-"@ + job_id
}

/// The name of the cluster job that builds `job_id`.
pub fn build_job_name(job_id: &str) -> (name: String)
    ensures
        name@ == job_name(job_id@),
{
    let mut name = String::from_str("chassis-remote-build-job-");
    name.append(job_id);
    name
}

/// The file in which the context of the build `job_id` is kept below `root`.
pub open spec fn context_cache_path(root: Seq<char>, job_id: Seq<char>) -> Seq<char> {
    root + "/"@ + job_id + "/context.zip"@
}

/// Below one root, two builds keep their contexts in different files.
pub proof fn lemma_context_paths_differ(root: Seq<char>, one: Seq<char>, other: Seq<char>)
    requires
        one != other,
    ensures
        context_cache_path(root, one) != context_cache_path(root, other),
{
    let a = context_cache_path(root, one);
    let b = context_cache_path(root, other);
    let start = root.len() + "/"@.len();
    if a == b {
        assert(a.len() == b.len());
        assert(one.len() == other.len());
        assert forall|i: int| 0 <= i < one.len() implies one[i] == other[i] by {
            assert(a[start + i] == one[i]);
            assert(b[start + i] == other[i]);
        }
        assert(one =~= other);
    }
}

/// The address from which a builder pod fetches the context of `job_id`.
pub open spec fn context_url(
    pod_name: Seq<char>,
    service_name: Seq<char>,
    port: Seq<char>,
    job_id: Seq<char>,
) -> Seq<char> {
    "http://"@ + pod_name + "."@ + service_name + ":"@ + port + "/contexts/"@ + job_id
        + "/context.zip"@
}

/// The manager of one build.
#[derive(Debug)]
pub struct BuildManager {
    /// The service's settings.
    pub state: Arc<AppState>,
    /// Identifier of the build.
    pub job_id: String,
    /// What the client asked for; absent in a manager that only reads.
    pub config: Option<BuildConfig>,
}

impl BuildManager {
    /// The manager of a new build, under a fresh identifier.
    pub fn new(state: Arc<AppState>, config: BuildConfig) -> (r: Result<Self, BuildError>)
        ensures
            r matches Ok(m) && m.state == state && m.config == Some(config) && is_build_id(
                m.job_id@,
            ),
    {
        Ok(Self::with_job_id(state, fresh_build_id(), config))
    }

    /// The manager of the build `job_id` with the configuration `config`.
    pub fn with_job_id(state: Arc<AppState>, job_id: String, config: BuildConfig) -> (m: Self)
        ensures
            m.state == state,
            m.job_id == job_id,
            m.config == Some(config),
    {
        BuildManager { state, job_id, config: Some(config) }
    }

    /// A manager that reads what is known of the existing build `job_id`.
    pub fn for_job(state: Arc<AppState>, job_id: &String) -> (r: Result<Self, BuildError>)
        ensures
            r matches Ok(m) && m.state == state && m.job_id@ == job_id@ && m.config is None,
    {
        Ok(BuildManager { state, job_id: job_id.clone(), config: None })
    }

    /// The name of the cluster job of this build.
    pub fn get_job_name(&self) -> (name: String)
        ensures
            name@ == job_name(self.job_id@),
    {
        build_job_name(self.job_id.as_str())
    }

    /// Seconds this build may run: what the client asked for, else the
    /// service's default.
    pub open spec fn timeout_spec(&self) -> u64 {
        match self.config.unwrap().timeout {
            Some(t) => t,
            None => self.state.build_timeout,
        }
    }

    /// Seconds this build may run: what the client asked for, else the
    /// service's default.
    pub fn get_timeout(&self) -> (t: u64)
        requires
            self.config is Some,
        ensures
            t == self.timeout_spec(),
            self.config.unwrap().timeout matches Some(asked) ==> t == asked,
            self.config.unwrap().timeout is None ==> t == self.state.build_timeout,
    {
        match &self.config {
            Some(config) => match config.timeout {
                Some(t) => t,
                None => self.state.build_timeout,
            },
            None => self.state.build_timeout,
        }
    }

    /// Whether the registry is reached without TLS: the service's flag where
    /// the service names a registry, else the flag of the build where it has one.
    pub open spec fn insecure_registry_spec(&self) -> bool {
        if self.state.registry_url@.len() > 0 {
            self.state.registry_insecure
        } else {
            match self.config {
                Some(config) => config.insecure_registry == Some(true),
                None => false,
            }
        }
    }

    /// Whether the registry is reached without TLS.
    pub fn is_insecure_registry(&self) -> (insecure: bool)
        ensures
            insecure == self.insecure_registry_spec(),
            self.state.registry_url@.len() > 0 ==> insecure == self.state.registry_insecure,
            self.state.registry_url@.len() == 0 ==> insecure == (self.config is Some
                && self.config.unwrap().insecure_registry == Some(true)),
    {
        if !self.state.registry_url.as_str().is_empty() {
            return self.state.registry_insecure;
        }
        match &self.config {
            Some(config) => match config.insecure_registry {
                Some(flag) => flag,
                None => false,
            },
            None => false,
        }
    }

    /// The secret with the registry's credentials: the configured name where the
    /// service names both a registry and a secret.
    pub open spec fn secret_name_spec(&self) -> Option<Seq<char>> {
        if self.state.registry_url@.len() > 0 && self.state.registry_credentials_secret_name@.len()
            > 0 {
            Some(self.state.registry_credentials_secret_name@)
        } else {
            None
        }
    }

    /// The secret with the registry's credentials, if one is to be used.
    pub fn get_secret_name(&self) -> (name: Option<String>)
        ensures
            name is Some == self.secret_name_spec() is Some,
            name matches Some(n) ==> Some(n@) == self.secret_name_spec(),
    {
        if !self.state.registry_url.as_str().is_empty()
            && !self.state.registry_credentials_secret_name.as_str().is_empty() {
            Some(self.state.registry_credentials_secret_name.clone())
        } else {
            None
        }
    }

    /// The reference of the image that this build produces.
    pub open spec fn image_name_spec(&self) -> Seq<char> {
        image_reference(
            self.state.registry_url@,
            self.state.registry_prefix@,
            self.config.unwrap().image_name@,
            self.config.unwrap().tag@,
        )
    }

    /// The reference of the image that this build produces.
    pub fn build_image_name(&self) -> (reference: String)
        requires
            self.config is Some,
        ensures
            reference@ == self.image_name_spec(),
    {
        match &self.config {
            Some(config) => assemble_image_reference(
                self.state.registry_url.as_str(),
                self.state.registry_prefix.as_str(),
                config.image_name.as_str(),
                config.tag.as_str(),
            ),
            None => String::new(),
        }
    }

    /// The file in which the context of this build is kept.
    pub fn get_context_cache_path(&self) -> (path: String)
        ensures
            path@ == context_cache_path(self.state.context_path@, self.job_id@),
    {
        let mut path = self.state.context_path.clone();
        path.append("/");
        path.append(self.job_id.as_str());
        path.append("/context.zip");
        path
    }

    /// The address from which a builder pod fetches the context of this build.
    pub fn get_context_url(&self) -> (url: String)
        ensures
            url@ == context_url(
                self.state.pod_name@,
                self.state.service_name@,
                self.state.port@,
                self.job_id@,
            ),
    {
        let mut url = String::from_str("http://");
        url.append(self.state.pod_name.as_str());
        url.append(".");
        url.append(self.state.service_name.as_str());
        url.append(":");
        url.append(self.state.port.as_str());
        url.append("/contexts/");
        url.append(self.job_id.as_str());
        url.append("/context.zip");
        url
    }
}

} // verus!
