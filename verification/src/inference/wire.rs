//! The messages of the inference services, as plain data.
use crate::inference::types::ModelData;
use std::collections::HashMap;
use vstd::prelude::*;

verus! {

/// A score, held as the bit pattern of a 64-bit IEEE 754 number.
#[derive(Debug, Clone, Copy, PartialEq, Eq, Structural)]
pub struct Score {
    /// The bit pattern.
    pub bits: u64,
}

/// A point of an image.
#[derive(Debug, Clone, Copy, PartialEq, Eq)]
pub struct Point {
    pub x: i64,
    pub y: i64,
}

/// A rectangle of an image.
#[derive(Debug, Clone, Copy, PartialEq, Eq)]
pub struct BoundingBox {
    pub x: i64,
    pub y: i64,
    pub width: i64,
    pub height: i64,
}

/// A mask over an image, in one of three encodings.
#[derive(Debug, Clone, PartialEq, Eq)]
pub struct ImageMask {
    pub original_width: i64,
    pub original_height: i64,
    pub rle: Vec<i64>,
    pub image: Vec<Vec<u8>>,
    pub points: Vec<Point>,
}

/// A stretch of a text.
#[derive(Debug, Clone, PartialEq, Eq)]
pub struct TextSpan {
    pub start: i64,
    pub end: i64,
    pub text: String,
}

/// One class with its score.
#[derive(Debug, Clone, PartialEq, Eq)]
pub struct ClassPrediction {
    pub class: String,
    pub score: Score,
}

/// The classes predicted for one input.
#[derive(Debug, Clone, PartialEq, Eq)]
pub struct ClassificationResult {
    pub class_predictions: Vec<ClassPrediction>,
}

/// Several classifications of one input.
#[derive(Debug, Clone, PartialEq, Eq)]
pub struct MultiClassificationResult {
    pub classifications: Vec<ClassificationResult>,
}

/// One detected object.
#[derive(Debug, Clone, PartialEq, Eq)]
pub struct Detection {
    pub class: String,
    pub score: Score,
    pub bounding_box: Option<BoundingBox>,
}

/// The objects detected in one input.
#[derive(Debug, Clone, PartialEq, Eq)]
pub struct ObjectDetectionResult {
    pub detections: Vec<Detection>,
}

/// One segment of an image.
#[derive(Debug, Clone, PartialEq, Eq)]
pub struct Segment {
    pub class: String,
    pub score: Score,
    pub image_mask: Option<ImageMask>,
    pub bounding_box: Option<BoundingBox>,
}

/// The segments found in one input.
#[derive(Debug, Clone, PartialEq, Eq)]
pub struct SegmentationResult {
    pub segments: Vec<Segment>,
}

/// One named entity of a text.
#[derive(Debug, Clone, PartialEq, Eq)]
pub struct NamedEntity {
    pub entity_group: String,
    pub score: Score,
    pub text_span: Option<TextSpan>,
}

/// The named entities found in one input.
#[derive(Debug, Clone, PartialEq, Eq)]
pub struct NamedEntityResult {
    pub entities: Vec<NamedEntity>,
}

/// A text as a result.
#[derive(Debug, Clone, PartialEq, Eq)]
pub struct TextResult {
    pub text: String,
}

/// An image as a result.
#[derive(Debug, Clone, PartialEq, Eq)]
pub struct ImageResult {
    pub data: Vec<u8>,
}

/// Bytes of a named content type as a result.
#[derive(Debug, Clone, PartialEq, Eq)]
pub struct DataResult {
    pub data: Vec<u8>,
    pub content_type: String,
}

/// The result under one output key: exactly one of eight shapes.
#[derive(Debug, Clone, PartialEq, Eq)]
pub enum PredictionResult {
    Classification(ClassificationResult),
    MultiClassification(MultiClassificationResult),
    ObjectDetection(ObjectDetectionResult),
    Segmentation(SegmentationResult),
    NamedEntity(NamedEntityResult),
    Text(TextResult),
    Image(ImageResult),
    Data(DataResult),
}

/// One output of a prediction.
#[derive(Debug, Clone, PartialEq, Eq)]
pub struct PredictionOutput {
    pub key: String,
    pub result: Option<PredictionResult>,
}

/// The mathematical form of a `PredictionResult`. The shapes that the server
/// passes on unread keep their data as it is.
pub enum PredictionResultView {
    Classification(ClassificationResult),
    MultiClassification(MultiClassificationResult),
    ObjectDetection(ObjectDetectionResult),
    Segmentation(SegmentationResult),
    NamedEntity(NamedEntityResult),
    Text(Seq<char>),
    Image(Seq<u8>),
    Data { data: Seq<u8>, content_type: Seq<char> },
}

/// The mathematical form of a `PredictionOutput`.
pub struct PredictionOutputView {
    pub key: Seq<char>,
    pub result: Option<PredictionResultView>,
}

impl View for PredictionResult {
    type V = PredictionResultView;

    open spec fn view(&self) -> PredictionResultView {
        match self {
            PredictionResult::Classification(r) => PredictionResultView::Classification(*r),
            PredictionResult::MultiClassification(r) => PredictionResultView::MultiClassification(
                *r,
            ),
            PredictionResult::ObjectDetection(r) => PredictionResultView::ObjectDetection(*r),
            PredictionResult::Segmentation(r) => PredictionResultView::Segmentation(*r),
            PredictionResult::NamedEntity(r) => PredictionResultView::NamedEntity(*r),
            PredictionResult::Text(r) => PredictionResultView::Text(r.text@),
            PredictionResult::Image(r) => PredictionResultView::Image(r.data@),
            PredictionResult::Data(r) => PredictionResultView::Data {
                data: r.data@,
                content_type: r.content_type@,
            },
        }
    }
}

impl View for PredictionOutput {
    type V = PredictionOutputView;

    open spec fn view(&self) -> PredictionOutputView {
        PredictionOutputView {
            key: self.key@,
            result: match self.result {
                Some(r) => Some(r@),
                None => None,
            },
        }
    }
}

/// The mathematical form of a list of outputs.
pub open spec fn outputs_view(outputs: Seq<PredictionOutput>) -> Seq<PredictionOutputView> {
    outputs.map_values(|o: PredictionOutput| o@)
}

/// The explanation of an image: the part of it that mattered.
#[derive(Debug, Clone, PartialEq, Eq)]
pub struct ImageExplanation {
    pub mask: Option<ImageMask>,
}

/// A stretch of a text with its weight.
#[derive(Debug, Clone, PartialEq, Eq)]
pub struct TextSpanScore {
    pub text_span: Option<TextSpan>,
    pub score: Score,
}

/// The weighted stretches of a text for one class.
#[derive(Debug, Clone, PartialEq, Eq)]
pub struct ClassResults {
    pub class: String,
    pub scores: Vec<TextSpanScore>,
}

/// The explanation of a text.
#[derive(Debug, Clone, PartialEq, Eq)]
pub struct TextExplanation {
    pub class_results: Vec<ClassResults>,
}

/// What may explain a prediction.
#[derive(Debug, Clone, PartialEq, Eq)]
pub enum Explanation {
    /// The model explains nothing.
    Absent,
    Image(ImageExplanation),
    Text(TextExplanation),
}

/// How far the inputs have drifted from what the model was trained on.
#[derive(Debug, Clone, Copy, PartialEq, Eq)]
pub struct DataDrift {
    pub score: Score,
}

/// The drift that a model reports.
#[derive(Debug, Clone, Copy, PartialEq, Eq)]
pub struct ModelDrift {
    pub data_drift: Option<DataDrift>,
}

/// A span of time on the wire: whole seconds and the nanoseconds beyond them.
#[derive(Debug, Clone, Copy, PartialEq, Eq)]
pub struct WireDuration {
    pub seconds: i64,
    pub nanos: i32,
}

/// How long the steps of one prediction took.
#[derive(Debug, Clone, Copy, PartialEq, Eq)]
pub struct Timings {
    pub model_execution: Option<WireDuration>,
    pub preprocessing: Option<WireDuration>,
    pub postprocessing: Option<WireDuration>,
    pub formatting: Option<WireDuration>,
    pub total: Option<WireDuration>,
}

/// The answer to a prediction request.
#[derive(Debug, Clone, PartialEq, Eq)]
pub struct PredictResponse {
    pub outputs: Vec<PredictionOutput>,
    pub explanation: Option<Explanation>,
    pub drift: Option<ModelDrift>,
    pub success: bool,
    pub error: String,
    pub timings: Option<Timings>,
    pub tags: HashMap<String, String>,
}

/// Where the payload of an input comes from.
#[derive(Debug, Clone, PartialEq, Eq)]
pub enum Source {
    Text(String),
    Data(Vec<u8>),
}

/// One input of a prediction request.
#[derive(Debug, Clone, PartialEq, Eq)]
pub struct Input {
    pub key: String,
    pub source: Option<Source>,
}

/// A prediction request.
#[derive(Debug, Clone, PartialEq, Eq)]
pub struct PredictRequest {
    pub inputs: Vec<Input>,
    pub tags: HashMap<String, String>,
}

/// The mathematical form of a `Source`.
pub enum SourceView {
    Text(Seq<char>),
    Data(Seq<u8>),
}

/// The mathematical form of an `Input`.
pub struct InputView {
    pub key: Seq<char>,
    pub source: Option<SourceView>,
}

impl View for Source {
    type V = SourceView;

    open spec fn view(&self) -> SourceView {
        match self {
            Source::Text(t) => SourceView::Text(t@),
            Source::Data(d) => SourceView::Data(d@),
        }
    }
}

impl View for Input {
    type V = InputView;

    open spec fn view(&self) -> InputView {
        InputView {
            key: self.key@,
            source: match self.source {
                Some(s) => Some(s@),
                None => None,
            },
        }
    }
}

/// The mathematical form of a list of inputs.
pub open spec fn inputs_view(inputs: Seq<Input>) -> Seq<InputView> {
    inputs.map_values(|i: Input| i@)
}

/// One item of a batch: the payloads of one prediction.
#[derive(Debug, PartialEq, Eq)]
pub struct InputItem {
    pub input: ModelData,
}

/// A request to run the model on a batch.
#[derive(Debug, PartialEq, Eq)]
pub struct RunRequest {
    pub inputs: Vec<InputItem>,
    pub detect_drift: bool,
    pub explain: bool,
}

/// The outcome for one item of a batch.
#[derive(Debug, PartialEq, Eq)]
pub struct OutputItem {
    pub output: ModelData,
    pub success: bool,
}

/// The answer to a request to run the model on a batch.
#[derive(Debug, PartialEq, Eq)]
pub struct RunResponse {
    pub status_code: i32,
    pub status: String,
    pub message: String,
    pub outputs: Vec<OutputItem>,
}

/// The answer to a request to shut the batched service down.
#[derive(Debug, Clone, PartialEq, Eq)]
pub struct ShutdownResponse {
    pub status_code: i32,
    pub status: String,
    pub message: String,
}

} // verus!
