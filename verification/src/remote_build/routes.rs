//! What the routes of the build service answer.
use crate::remote_build::manager::BuildError;
use crate::remote_build::manager::BuildManager;
use crate::remote_build::state::BuildConfig;
use crate::remote_build::status::build_state;
use crate::remote_build::status::is_completed;
use crate::remote_build::status::BuildState;
use crate::remote_build::status::BuildStatusResponse;
use crate::remote_build::status::JobRecord;
use crate::text::same_text;
use vstd::prelude::*;
use vstd::string::StringExecFns;

verus! {

/// The user agent that a client of the build route must name.
pub const REQUIRED_USER_AGENT: &'static str = "ChassisClient/1.5";

/// The most bytes that the configuration of a build may have: 1 MiB.
pub const BUILD_CONFIG_LIMIT: u64 = 1_048_576;

/// The most bytes that the context of a build may have: 20 GiB.
pub const BUILD_CONTEXT_LIMIT: u64 = 21_474_836_480;

/// An answer of plain text.
#[derive(Debug, Clone, PartialEq, Eq)]
pub struct HttpReply {
    /// The status code.
    pub status: u16,
    /// The body.
    pub body: String,
}

/// An answer with the status `status` and the body `body`.
fn reply(status: u16, body: &str) -> (r: HttpReply)
    ensures
        r.status == status,
        r.body@ == body@,
{
    HttpReply { status, body: String::from_str(body) }
}

/// The answer of `/`: the service is alive.
pub fn root() -> (r: HttpReply)
    ensures
        r.status == 200,
        r.body@ == "Alive!"@,
{
    reply(200, "Alive!")
}

/// The answer of `/health`.
pub fn health() -> (r: HttpReply)
    ensures
        r.status == 200,
        r.body@ == "Chassis Server Up and Running!"@,
{
    reply(200, "Chassis Server Up and Running!")
}

/// The answer of `/healthz`: an empty body.
pub fn healthz() -> (r: HttpReply)
    ensures
        r.status == 200,
        r.body@ == ""@,
{
    reply(200, "")
}

/// The answer of `/version`.
pub fn version() -> (r: HttpReply)
    ensures
        r.status == 200,
        r.body@ == "1.5.0"@,
{
    reply(200, "1.5.0")
}

/// The answer of `/test`, a route that is gone.
pub fn test() -> (r: HttpReply)
    ensures
        r.status == 410,
        r.body@ == "The /test route has been deprecated and removed."@,
{
    reply(410, "The /test route has been deprecated and removed.")
}

/// The answer of the download route of a job, a route that is gone.
pub fn download_job_tar() -> (r: HttpReply)
    ensures
        r.status == 410,
        r.body@ == "The download-tar route has been deprecated and removed."@,
{
    reply(410, "The download-tar route has been deprecated and removed.")
}

/// Whether a request names the required user agent.
pub open spec fn user_agent_accepted(user_agent: Option<&str>) -> bool {
    match user_agent {
        Some(name) => name@ == REQUIRED_USER_AGENT@,
        None => false,
    }
}

/// The answer to a request that does not name the required user agent, and
/// none to one that names it.
pub fn verify_user_agent(user_agent: Option<&str>) -> (rejection: Option<HttpReply>)
    ensures
        rejection is None <==> user_agent_accepted(user_agent),
        rejection matches Some(r) ==> r.status == 400 && r.body@
            == "This remote build server requires Chassis v1.5+."@,
{
    let accepted = match user_agent {
        Some(name) => same_text(name, REQUIRED_USER_AGENT),
        None => false,
    };
    if accepted {
        None
    } else {
        Some(reply(400, "This remote build server requires Chassis v1.5+."))
    }
}

/// Whether an uploaded build configuration of `size` bytes is within its limit.
pub fn config_size_accepted(size: u64) -> (accepted: bool)
    ensures
        accepted == (size <= BUILD_CONFIG_LIMIT),
{
    size <= BUILD_CONFIG_LIMIT
}

/// Whether an uploaded build context of `size` bytes is within its limit.
pub fn context_size_accepted(size: u64) -> (accepted: bool)
    ensures
        accepted == (size <= BUILD_CONTEXT_LIMIT),
{
    size <= BUILD_CONTEXT_LIMIT
}

/// Whether both parts of a build request are within their limits.
pub open spec fn upload_accepted(config_size: u64, context_size: u64) -> bool {
    config_size <= BUILD_CONFIG_LIMIT && context_size <= BUILD_CONTEXT_LIMIT
}

/// Whether a build request is let in: its parts are within their limits and
/// it names the required user agent.
pub open spec fn build_admitted(
    user_agent: Option<&str>,
    config_size: u64,
    context_size: u64,
) -> bool {
    upload_accepted(config_size, context_size) && user_agent_accepted(user_agent)
}

/// The answer to a build request that is not let in, and none to one that
/// is. A request with a part over its limit is refused first, then one that
/// does not name the required user agent; both with a client error. Nothing of
/// the request needs to be read or stored to decide this.
pub fn admit_build(user_agent: Option<&str>, config_size: u64, context_size: u64) -> (refusal:
    Option<HttpReply>)
    ensures
        refusal is None <==> build_admitted(user_agent, config_size, context_size),
        refusal matches Some(r) ==> r.status == 400 && r.body@ == if upload_accepted(
            config_size,
            context_size,
        ) {
            "This remote build server requires Chassis v1.5+."@
        } else {
            "The build request is too large."@
        },
{
    if !config_size_accepted(config_size) || !context_size_accepted(context_size) {
        Some(reply(400, "The build request is too large."))
    } else {
        verify_user_agent(user_agent)
    }
}

/// An answer of the build route: a status code and what the client is told of
/// the build.
#[derive(Debug, Clone, PartialEq, Eq)]
pub struct BuildReply {
    pub status: u16,
    pub body: BuildStatusResponse,
}

/// What the build route makes of a request.
#[derive(Debug)]
pub enum BuildRequest {
    /// The client is refused with this answer.
    Refused(HttpReply),
    /// The configuration could not be read; the client gets this answer.
    Invalid(BuildReply),
    /// The build is to be started with this configuration.
    Accepted(BuildConfig),
}

/// The answer to a request whose configuration could not be read.
pub fn invalid_config_reply() -> (r: BuildReply)
    ensures
        r.status == 400,
        r.body.image_tag is None,
        r.body.logs is None,
        !r.body.success,
        r.body.completed,
        r.body.error_message matches Some(m) && m@ == "invalid build config"@,
        r.body.remote_build_id@ == ""@,
{
    BuildReply {
        status: 400,
        body: BuildStatusResponse {
            image_tag: None,
            logs: None,
            success: false,
            completed: true,
            error_message: Some(String::from_str("invalid build config")),
            remote_build_id: String::from_str(""),
        },
    }
}

/// What the build route makes of a request with the user agent `user_agent`,
/// parts of `config_size` and `context_size` bytes and the configuration
/// `config`, absent where it could not be read. A request that is not let in is
/// refused whatever it sent, and no build is started for it; an unreadable
/// configuration is answered with a client error; a build is started for
/// nothing else, and then with the configuration as it was sent.
pub fn build_image(
    user_agent: Option<&str>,
    config_size: u64,
    context_size: u64,
    config: Option<BuildConfig>,
) -> (request: BuildRequest)
    ensures
        request is Refused <==> !build_admitted(user_agent, config_size, context_size),
        request is Invalid <==> build_admitted(user_agent, config_size, context_size)
            && config is None,
        match request {
            BuildRequest::Refused(r) => {
                &&& r.status == 400
                &&& r.body@ == if upload_accepted(config_size, context_size) {
                    "This remote build server requires Chassis v1.5+."@
                } else {
                    "The build request is too large."@
                }
            },
            BuildRequest::Invalid(r) => {
                &&& r.status == 400
                &&& r.body.image_tag is None
                &&& r.body.logs is None
                &&& !r.body.success
                &&& r.body.completed
                &&& r.body.error_message matches Some(m) && m@ == "invalid build config"@
                &&& r.body.remote_build_id@ == ""@
            },
            BuildRequest::Accepted(accepted) => config == Some(accepted),
        },
{
    match admit_build(user_agent, config_size, context_size) {
        Some(refusal) => BuildRequest::Refused(refusal),
        None => match config {
            Some(config) => BuildRequest::Accepted(config),
            None => BuildRequest::Invalid(invalid_config_reply()),
        },
    }
}

/// The answer of the build route once the start of a build has come to an
/// end: the identifier of a build that is under way, or the failure of one that
/// was given up.
pub fn build_reply(outcome: Result<String, BuildError>) -> (r: BuildReply)
    ensures
        r.body.image_tag is None,
        r.body.logs is None,
        !r.body.success,
        match outcome {
            Ok(job_id) => {
                &&& r.status == 200
                &&& !r.body.completed
                &&& r.body.error_message is None
                &&& r.body.remote_build_id == job_id
            },
            Err(error) => {
                &&& r.status == 500
                &&& r.body.completed
                &&& r.body.error_message matches Some(m) && m@ == error.message_spec()
                &&& r.body.remote_build_id@ == ""@
            },
        },
{
    match outcome {
        Ok(job_id) => BuildReply {
            status: 200,
            body: BuildStatusResponse {
                image_tag: None,
                logs: None,
                success: false,
                completed: false,
                error_message: None,
                remote_build_id: job_id,
            },
        },
        Err(error) => BuildReply {
            status: 500,
            body: BuildStatusResponse {
                image_tag: None,
                logs: None,
                success: false,
                completed: true,
                error_message: Some(error.message()),
                remote_build_id: String::from_str(""),
            },
        },
    }
}

/// The answer of the status route of a job: what is known of the build, or
/// that there is no such job.
pub fn get_job_status(manager: &BuildManager, job: Option<&JobRecord>, logs: Option<String>) -> (r:
    Result<BuildStatusResponse, HttpReply>)
    ensures
        match job {
            Some(job) => {
                &&& r matches Ok(response)
                &&& response.remote_build_id@ == manager.job_id@
                &&& response.completed == is_completed(build_state(Some(*job)))
                &&& response.success == (build_state(Some(*job)) == BuildState::Succeeded)
                &&& response.image_tag == if response.success {
                    job.destination
                } else {
                    None
                }
                &&& response.logs == if response.completed {
                    logs
                } else {
                    None
                }
                &&& response.error_message is None
            },
            None => r matches Err(reply) && reply.status == 404 && reply.body@ == "job not found"@,
        },
{
    match job {
        Some(job) => Ok(manager.get_build_status_response(job, logs)),
        None => Err(reply(404, "job not found")),
    }
}

/// The answer of the logs route of a job: the logs, or that there are none.
pub fn get_job_logs(logs: Option<String>) -> (r: HttpReply)
    ensures
        match logs {
            Some(text) => r.status == 200 && r.body == text,
            None => r.status == 404 && r.body@ == "not found"@,
        },
{
    match logs {
        Some(text) => HttpReply { status: 200, body: text },
        None => reply(404, "not found"),
    }
}

/// The answer of the context route where the context of a build exists: the
/// file to send. Where it does not exist the answer is `None`, and the client
/// is told that nothing was found.
pub fn get_context(manager: &BuildManager, exists: bool) -> (file: Option<String>)
    ensures
        file is Some == exists,
        file matches Some(path) ==> path@ == crate::remote_build::manager::context_cache_path(
            manager.state.context_path@,
            manager.job_id@,
        ),
{
    if exists {
        Some(manager.get_context_cache_path())
    } else {
        None
    }
}

} // verus!
