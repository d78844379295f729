//! The configuration of the inference server.
use vstd::prelude::*;
use vstd::string::StringExecFns;

verus! {

/// The whole configuration of the inference server.
#[derive(Debug, Clone)]
pub struct ChassisConfig {
    pub model: ModelConfig,
    pub metrics: MetricsConfig,
    pub telemetry: TelemetryConfig,
    pub log: LogConfig,
}

/// The model that is served.
#[derive(Debug, Clone)]
pub struct ModelConfig {
    pub identifier: String,
    pub version: String,
    /// The port on which the inference services listen.
    pub port: u16,
    /// Directory that holds the serialized model and its descriptions.
    pub dir: String,
}

/// The metrics endpoint.
#[derive(Debug, Clone)]
pub struct MetricsConfig {
    pub port: u16,
}

/// Where traces are sent.
#[derive(Debug, Clone)]
pub struct TelemetryConfig {
    pub enabled: bool,
    pub endpoint: Option<String>,
}

/// What is logged.
#[derive(Debug, Clone)]
pub struct LogConfig {
    pub level: String,
}

/// The file to read a description of the model from: the path that was set
/// for it, else the file `name` in the model directory, else in `/app/data`.
pub open spec fn description_path(
    explicit: Option<Seq<char>>,
    model_dir: Option<Seq<char>>,
    name: Seq<char>,
) -> Seq<char> {
    match explicit {
        Some(path) => path,
        None => match model_dir {
            Some(dir) => dir + "/"@ + name,
            None => "/app/data/"@ + name,
        },
    }
}

/// The file to read a description of the model from.
fn description_file(explicit: Option<String>, model_dir: Option<String>, name: &str) -> (path:
    String)
    ensures
        path@ == description_path(
            match explicit {
                Some(p) => Some(p@),
                None => None,
            },
            match model_dir {
                Some(d) => Some(d@),
                None => None,
            },
            name@,
        ),
{
    match explicit {
        Some(path) => path,
        None => {
            let mut path = match model_dir {
                Some(dir) => dir.concat("/"),
                None => String::from_str("/app/data/"),
            };
            path.append(name);
            path
        },
    }
}

/// The file that holds the model's metadata: `metadata_path` where it is set,
/// else `model_info` in the model directory, else in `/app/data`.
pub fn model_metadata_path(metadata_path: Option<String>, model_dir: Option<String>) -> (path:
    String)
    ensures
        path@ == description_path(
            match metadata_path {
                Some(p) => Some(p@),
                None => None,
            },
            match model_dir {
                Some(d) => Some(d@),
                None => None,
            },
            "model_info"@,
        ),
{
    description_file(metadata_path, model_dir, "model_info")
}

/// The file that describes the container: `metadata_path` where it is set,
/// else `container_info` in the model directory, else in `/app/data`.
pub fn container_metadata_path(metadata_path: Option<String>, model_dir: Option<String>) -> (path:
    String)
    ensures
        path@ == description_path(
            match metadata_path {
                Some(p) => Some(p@),
                None => None,
            },
            match model_dir {
                Some(d) => Some(d@),
                None => None,
            },
            "container_info"@,
        ),
{
    description_file(metadata_path, model_dir, "container_info")
}

/// The file that holds the serialized model: `model.pkl` in the model
/// directory.
pub fn model_file_path(config: &ChassisConfig) -> (path: String)
    ensures
        path@ == config.model.dir@ + "/model.pkl"@,
{
    let mut path = config.model.dir.clone();
    path.append("/model.pkl");
    path
}

/// The name under which the server's traces are filed: the model's identifier,
/// a dash and its version.
pub fn tracing_service_name(config: &ChassisConfig) -> (name: String)
    ensures
        name@ == config.model.identifier@ + "-"@ + config.model.version@,
{
    let mut name = config.model.identifier.clone();
    name.append("-");
    name.append(config.model.version.as_str());
    name
}

/// Why a configuration cannot be used.
#[derive(Debug, Clone, Copy, PartialEq, Eq, Structural)]
pub enum ConfigError {
    /// Traces are to be sent, but nowhere to send them is named.
    MissingTelemetryEndpoint,
}

/// Where the server's traces are sent: nowhere unless telemetry is switched
/// on, and to the endpoint that must then be named.
pub fn tracing_endpoint(config: &ChassisConfig) -> (r: Result<Option<String>, ConfigError>)
    ensures
        !config.telemetry.enabled ==> r == Ok::<Option<String>, ConfigError>(None),
        config.telemetry.enabled ==> match config.telemetry.endpoint {
            Some(endpoint) => r == Ok::<Option<String>, ConfigError>(Some(endpoint)),
            None => r == Err::<Option<String>, ConfigError>(ConfigError::MissingTelemetryEndpoint),
        },
{
    if config.telemetry.enabled {
        match &config.telemetry.endpoint {
            Some(endpoint) => Ok(Some(endpoint.clone())),
            None => Err(ConfigError::MissingTelemetryEndpoint),
        }
    } else {
        Ok(None)
    }
}

} // verus!
