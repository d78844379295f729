//! The steps of the inference services around the call of the model.
use crate::inference::config::ChassisConfig;
use crate::inference::interchange::outputs_spec;
use crate::inference::names::Status;
use crate::inference::names::StatusResponse;
use crate::inference::interchange::PredictionResultProxy;
use crate::inference::preprocessor::batch_size;
use crate::inference::preprocessor::collected_inputs;
use crate::inference::preprocessor::collected_pairs;
use crate::inference::preprocessor::collected_size;
use crate::inference::preprocessor::preprocess;
use crate::inference::preprocessor::preprocess_v1;
use crate::inference::types::ModelData;
use crate::inference::wire::inputs_view;
use crate::inference::wire::outputs_view;
use crate::inference::wire::InputItem;
use crate::inference::wire::ModelDrift;
use crate::inference::wire::OutputItem;
use crate::inference::wire::PredictRequest;
use crate::inference::wire::PredictResponse;
use crate::inference::wire::RunRequest;
use crate::inference::wire::RunResponse;
use crate::inference::wire::Score;
use crate::inference::wire::ShutdownResponse;
use crate::inference::wire::Timings;
use crate::inference::wire::WireDuration;
use crate::text::decimal_digits;
use crate::text::decimal_string;
use std::collections::HashMap;
use vstd::prelude::*;
use vstd::string::StringExecFns;

verus! {

/// Nanoseconds in a second.
pub const NANOS_PER_SECOND: u32 = 1_000_000_000;

/// A measured span of time, in nanoseconds.
#[derive(Debug, Clone, Copy, PartialEq, Eq, Structural)]
pub struct Elapsed {
    pub nanos: u128,
}

/// A span of whole seconds and nanoseconds on the wire; none where the seconds
/// do not fit.
pub open spec fn duration_on_wire(secs: nat, nanos: nat) -> Option<WireDuration> {
    if secs <= i64::MAX {
        Some(WireDuration { seconds: secs as i64, nanos: nanos as i32 })
    } else {
        None
    }
}

/// A measured span on the wire.
pub open spec fn elapsed_on_wire(elapsed: Elapsed) -> Option<WireDuration> {
    duration_on_wire(
        (elapsed.nanos / (NANOS_PER_SECOND as u128)) as nat,
        (elapsed.nanos % (NANOS_PER_SECOND as u128)) as nat,
    )
}

/// Calls `prost_types::Duration::try_from` on the `std::time::Duration` of
/// `secs` seconds and `nanos` nanoseconds.
///
/// Trusted: the conversion keeps both numbers, and fails only where the seconds
/// are more than a signed 64-bit number holds.
#[verifier::external_body]
fn convert_duration(secs: u64, nanos: u32) -> (r: Option<WireDuration>)
    requires
        nanos < NANOS_PER_SECOND,
    ensures
        r == duration_on_wire(secs as nat, nanos as nat),
{
    prost_types::Duration::try_from(std::time::Duration::new(secs, nanos)).ok().map(
        |d| WireDuration { seconds: d.seconds, nanos: d.nanos },
    )
}

impl Elapsed {
    /// The span on the wire; none where it is too long for the wire.
    pub fn on_wire(self) -> (r: Option<WireDuration>)
        ensures
            r == elapsed_on_wire(self),
    {
        let secs = self.nanos / (NANOS_PER_SECOND as u128);
        let nanos = self.nanos % (NANOS_PER_SECOND as u128);
        if secs > u64::MAX as u128 {
            None
        } else {
            convert_duration(secs as u64, nanos as u32)
        }
    }
}

/// Something that is counted or observed while a request is served.
#[derive(Debug, Clone, Copy, PartialEq, Eq, Structural)]
pub enum MetricEvent {
    /// A prediction was asked for.
    InferenceRequest,
    /// So many bytes were handed to the model.
    DataProcessed(u64),
    /// The model made a prediction.
    InferencePerformed,
    /// The model reported this drift of the inputs.
    DriftObserved(Score),
}

/// A named value recorded on the trace of a request.
#[derive(Debug, Clone, PartialEq, Eq)]
pub struct SpanField {
    pub name: String,
    pub value: String,
}

/// The mathematical form of a `SpanField`.
pub struct SpanFieldView {
    pub name: Seq<char>,
    pub value: Seq<char>,
}

impl View for SpanField {
    type V = SpanFieldView;

    open spec fn view(&self) -> SpanFieldView {
        SpanFieldView { name: self.name@, value: self.value@ }
    }
}

/// The mathematical form of a list of fields.
pub open spec fn span_fields_view(fields: Seq<SpanField>) -> Seq<SpanFieldView> {
    fields.map_values(|f: SpanField| f@)
}

/// A failure inside the server, with the text of what failed.
#[derive(Debug, Clone, PartialEq, Eq)]
pub struct InternalError {
    pub message: String,
}

/// The fields that name the model on the trace of every request.
pub open spec fn model_fields(config: ChassisConfig) -> Seq<SpanFieldView> {
    seq![
        SpanFieldView { name: "model_identifier"@, value: config.model.identifier@ },
        SpanFieldView { name: "model_version"@, value: config.model.version@ },
    ]
}

/// The field that records how many bytes were handed to the model.
pub open spec fn data_processed_field(size: nat) -> SpanFieldView {
    SpanFieldView { name: "data_processed"@, value: decimal_digits(size) }
}

/// The field that records how many items a batch holds.
pub open spec fn batch_size_field(items: nat) -> SpanFieldView {
    SpanFieldView { name: "batch_size"@, value: decimal_digits(items) }
}

/// The fields that name the model of `config`.
fn name_model(config: &ChassisConfig) -> (fields: Vec<SpanField>)
    ensures
        span_fields_view(fields@) == model_fields(*config),
{
    let mut fields: Vec<SpanField> = Vec::new();
    fields.push(
        SpanField {
            name: String::from_str("model_identifier"),
            value: config.model.identifier.clone(),
        },
    );
    fields.push(
        SpanField { name: String::from_str("model_version"), value: config.model.version.clone() },
    );
    assert(span_fields_view(fields@) =~= model_fields(*config));
    fields
}

/// A field with a number as its value.
fn count_field(name: &str, count: usize) -> (field: SpanField)
    ensures
        field@ == (SpanFieldView { name: name@, value: decimal_digits(count as nat) }),
{
    SpanField { name: String::from_str(name), value: decimal_string(count as u64) }
}

/// The failure that a text describes.
fn internal_error(message: &str) -> (error: InternalError)
    ensures
        error.message@ == message@,
{
    InternalError { message: String::from_str(message) }
}

/// The text of the failure when payloads are too long to count.
pub open spec fn too_large_message() -> Seq<char> {
    "the payloads of the request are too large"@
}

/// What is known of a prediction before the model is called.
#[derive(Debug)]
pub struct PredictStart {
    /// What to count.
    pub events: Vec<MetricEvent>,
    /// What to record on the trace, after the fields that name the model.
    pub fields: Vec<SpanField>,
    /// The data for the model, or why there is none.
    pub inputs: Result<ModelData, InternalError>,
    /// The tags of the request.
    pub tags: HashMap<String, String>,
}

/// What is known of a prediction after the model was called.
#[derive(Debug)]
pub struct PredictFinish {
    /// What to count and to observe.
    pub events: Vec<MetricEvent>,
    /// The answer to the client.
    pub reply: Result<PredictResponse, InternalError>,
}

/// The times of the steps of a prediction on the wire: what was measured, and
/// zero for the steps that the server does not take.
pub open spec fn timings_on_wire(
    model_execution: Elapsed,
    preprocessing: Elapsed,
    total: Elapsed,
) -> Timings {
    Timings {
        model_execution: elapsed_on_wire(model_execution),
        preprocessing: elapsed_on_wire(preprocessing),
        postprocessing: Some(WireDuration { seconds: 0, nanos: 0 }),
        formatting: Some(WireDuration { seconds: 0, nanos: 0 }),
        total: elapsed_on_wire(total),
    }
}

/// What is observed of the drift that a model reports.
pub open spec fn drift_events(drift: Option<ModelDrift>) -> Seq<MetricEvent> {
    match drift {
        Some(ModelDrift { data_drift: Some(data_drift) }) => seq![
            MetricEvent::DriftObserved(data_drift.score),
        ],
        _ => seq![],
    }
}

/// The typed inference service.
#[derive(Debug)]
pub struct OpenModelV2Service {
    pub config: ChassisConfig,
}

impl OpenModelV2Service {
    /// The service of the model that `config` names.
    pub fn configure(config: ChassisConfig) -> (r: Result<Self, InternalError>)
        ensures
            r matches Ok(service) && service.config == config,
    {
        Ok(OpenModelV2Service { config })
    }

    /// The fields recorded on the trace of every request.
    pub fn set_trace_fields(&self) -> (fields: Vec<SpanField>)
        ensures
            span_fields_view(fields@) == model_fields(self.config),
    {
        name_model(&self.config)
    }

    /// The answer to a request for the state of the model: it is well.
    pub fn status(&self) -> (response: StatusResponse)
        ensures
            response.status == Status::Okay.number_spec(),
    {
        StatusResponse { status: Status::Okay.number() }
    }

    /// The first steps of a prediction: the request is counted, its inputs are
    /// collected, and the bytes that go into the model are counted and recorded.
    /// Where the payloads are too long to count, the request is still counted and
    /// fails.
    pub fn begin_predict(&self, request: PredictRequest) -> (start: PredictStart)
        ensures
            start.tags == request.tags,
            collected_size(inputs_view(request.inputs@)) <= usize::MAX ==> {
                &&& start.inputs matches Ok(data)
                &&& data.pairs() == collected_pairs(inputs_view(request.inputs@))
                &&& data@ == collected_inputs(inputs_view(request.inputs@))
                &&& start.events@ == seq![
                    MetricEvent::InferenceRequest,
                    MetricEvent::DataProcessed(collected_size(inputs_view(request.inputs@)) as u64),
                ]
                &&& span_fields_view(start.fields@) == seq![
                    data_processed_field(collected_size(inputs_view(request.inputs@))),
                ]
            },
            collected_size(inputs_view(request.inputs@)) > usize::MAX ==> {
                &&& start.inputs matches Err(error)
                &&& error.message@ == too_large_message()
                &&& start.events@ == seq![MetricEvent::InferenceRequest]
                &&& start.fields@.len() == 0
            },
    {
        let mut events: Vec<MetricEvent> = Vec::new();
        let mut fields: Vec<SpanField> = Vec::new();
        events.push(MetricEvent::InferenceRequest);
        let inputs = match preprocess(request.inputs) {
            Ok((data, total_size_in_bytes)) => {
                fields.push(count_field("data_processed", total_size_in_bytes));
                events.push(MetricEvent::DataProcessed(total_size_in_bytes as u64));
                assert(span_fields_view(fields@) =~= seq![
                    data_processed_field(total_size_in_bytes as nat),
                ]);
                Ok(data)
            },
            Err(_) => Err(internal_error("the payloads of the request are too large")),
        };
        PredictStart { events, fields, inputs, tags: request.tags }
    }

    /// The last steps of a prediction. Where the model answered, the prediction
    /// is counted, the drift that the model reports is observed, and the answer
    /// goes out with the measured times and the tags of the request. Where the
    /// model failed, nothing is counted and the failure goes out with the model's
    /// text.
    pub fn finish_predict(
        &self,
        outcome: Result<PredictionResultProxy, String>,
        tags: HashMap<String, String>,
        model_execution: Elapsed,
        preprocessing: Elapsed,
        total: Elapsed,
    ) -> (finish: PredictFinish)
        ensures
            match outcome {
                Ok(proxy) => {
                    &&& finish.reply matches Ok(response)
                    &&& outputs_view(response.outputs@) == outputs_spec(proxy.outputs@)
                    &&& response.success == proxy.success
                    &&& response.error@ == proxy.error_spec()
                    &&& response.drift == proxy.drift_spec()
                    &&& response.explanation is None
                    &&& response.timings == Some(
                        timings_on_wire(model_execution, preprocessing, total),
                    )
                    &&& response.tags == tags
                    &&& finish.events@ == seq![MetricEvent::InferencePerformed] + drift_events(
                        proxy.drift_spec(),
                    )
                },
                Err(message) => {
                    &&& finish.reply matches Err(error)
                    &&& error.message == message
                    &&& finish.events@.len() == 0
                },
            },
    {
        let mut events: Vec<MetricEvent> = Vec::new();
        match outcome {
            Ok(proxy) => {
                let mut response = proxy.into();
                events.push(MetricEvent::InferencePerformed);
                match response.drift {
                    Some(drift) => match drift.data_drift {
                        Some(data_drift) => {
                            events.push(MetricEvent::DriftObserved(data_drift.score));
                        },
                        None => {},
                    },
                    None => {},
                }
                response.timings = Some(
                    Timings {
                        model_execution: model_execution.on_wire(),
                        preprocessing: preprocessing.on_wire(),
                        postprocessing: Some(WireDuration { seconds: 0, nanos: 0 }),
                        formatting: Some(WireDuration { seconds: 0, nanos: 0 }),
                        total: total.on_wire(),
                    },
                );
                response.tags = tags;
                assert(events@ =~= seq![MetricEvent::InferencePerformed] + drift_events(
                    proxy.drift_spec(),
                ));
                PredictFinish { events, reply: Ok(response) }
            },
            Err(message) => PredictFinish { events, reply: Err(InternalError { message }) },
        }
    }
}

/// What is known of a run before the model is called.
#[derive(Debug)]
pub struct RunStart {
    /// What to record on the trace, after the fields that name the model.
    pub fields: Vec<SpanField>,
    /// The data for the model, or why there is none.
    pub inputs: Result<Vec<ModelData>, InternalError>,
}

/// The outcome of each item of a batch that the model ran on: every one a
/// success.
pub open spec fn run_outputs(outputs: Seq<ModelData>) -> Seq<OutputItem> {
    outputs.map_values(|output: ModelData| OutputItem { output, success: true })
}

/// The batched inference service.
#[derive(Debug)]
pub struct OpenModelV1Service {
    pub config: ChassisConfig,
}

impl OpenModelV1Service {
    /// The service of the model that `config` names.
    pub fn configure(config: ChassisConfig) -> (r: Result<Self, InternalError>)
        ensures
            r matches Ok(service) && service.config == config,
    {
        Ok(OpenModelV1Service { config })
    }

    /// The fields recorded on the trace of every request.
    pub fn set_trace_fields(&self) -> (fields: Vec<SpanField>)
        ensures
            span_fields_view(fields@) == model_fields(self.config),
    {
        name_model(&self.config)
    }

    /// The answer to a request to shut down: an empty one.
    pub fn shutdown(&self) -> (response: ShutdownResponse)
        ensures
            response.status_code == 0,
            response.status@ == ""@,
            response.message@ == ""@,
    {
        ShutdownResponse {
            status_code: 0,
            status: String::from_str(""),
            message: String::from_str(""),
        }
    }

    /// The first steps of a run: the payloads of each item are taken in order,
    /// and the size of the batch and the bytes that go into the model are
    /// recorded.
    pub fn begin_run(&self, request: RunRequest) -> (start: RunStart)
        ensures
            batch_size(request.inputs@) <= usize::MAX ==> {
                &&& start.inputs matches Ok(batch)
                &&& batch@ == request.inputs@.map_values(|item: InputItem| item.input)
                &&& span_fields_view(start.fields@) == seq![
                    batch_size_field(request.inputs@.len()),
                    data_processed_field(batch_size(request.inputs@)),
                ]
            },
            batch_size(request.inputs@) > usize::MAX ==> {
                &&& start.inputs matches Err(error)
                &&& error.message@ == too_large_message()
                &&& start.fields@.len() == 0
            },
    {
        let mut fields: Vec<SpanField> = Vec::new();
        let inputs = match preprocess_v1(request.inputs) {
            Ok((batch, total_size_in_bytes)) => {
                fields.push(count_field("batch_size", batch.len()));
                fields.push(count_field("data_processed", total_size_in_bytes));
                assert(span_fields_view(fields@) =~= seq![
                    batch_size_field(request.inputs@.len()),
                    data_processed_field(batch_size(request.inputs@)),
                ]);
                Ok(batch)
            },
            Err(_) => Err(internal_error("the payloads of the request are too large")),
        };
        RunStart { fields, inputs }
    }

    /// The last step of a run. Where the model answered, each of its outputs
    /// goes out as a success, under the status 200 and `OK`. Where the model
    /// failed, the failure goes out with the model's text.
    pub fn finish_run(&self, outcome: Result<Vec<ModelData>, String>) -> (reply: Result<
        RunResponse,
        InternalError,
    >)
        ensures
            match outcome {
                Ok(outputs) => {
                    &&& reply matches Ok(response)
                    &&& response.status_code == 200
                    &&& response.status@ == "OK"@
                    &&& response.message@ == "Inference executed"@
                    &&& response.outputs@ == run_outputs(outputs@)
                },
                Err(message) => reply matches Err(error) && error.message == message,
            },
    {
        match outcome {
            Ok(model_outputs) => {
                let mut outputs: Vec<OutputItem> = Vec::new();
                for output in it: model_outputs
                    invariant
                        it.seq() == model_outputs@,
                        outputs@ == run_outputs(model_outputs@.take(it.index() as int)),
                {
                    assert(outputs@.push(OutputItem { output, success: true }) =~= run_outputs(
                        model_outputs@.take(it.index() + 1),
                    ));
                    outputs.push(OutputItem { output, success: true });
                }
                assert(model_outputs@.take(model_outputs@.len() as int) =~= model_outputs@);
                Ok(
                    RunResponse {
                        status_code: 200,
                        status: String::from_str("OK"),
                        message: String::from_str("Inference executed"),
                        outputs,
                    },
                )
            },
            Err(message) => Err(InternalError { message }),
        }
    }
}

} // verus!
