//! What the model hands back, and how it becomes a response.
use crate::inference::wire::outputs_view;
use crate::inference::wire::DataDrift;
use crate::inference::wire::DataResult;
use crate::inference::wire::ModelDrift;
use crate::inference::wire::PredictResponse;
use crate::inference::wire::PredictionOutput;
use crate::inference::wire::PredictionOutputView;
use crate::inference::wire::PredictionResult;
use crate::inference::wire::PredictionResultView;
use crate::inference::wire::Score;
use crate::inference::wire::TextResult;
use std::collections::HashMap;
use vstd::prelude::*;
use vstd::string::StringExecFns;

verus! {

/// The answer of the model's predict routine.
#[derive(Debug)]
pub struct PredictionResultProxy {
    pub outputs: Vec<PredictionOutputProxy>,
    pub success: bool,
    pub error: Option<String>,
    pub drift: Option<ModelDriftProxy>,
}

/// One output of the model: a text, or bytes with a content type.
#[derive(Debug)]
pub enum PredictionOutputProxy {
    TextOutput { key: String, text: String },
    DataOutput { key: String, data: DataOutputProxy },
}

/// Bytes that the model hands back, with their content type where it names one.
#[derive(Debug)]
pub struct DataOutputProxy {
    pub data: Vec<u8>,
    pub content_type: Option<String>,
}

/// The drift that the model reports.
#[derive(Debug, Clone, Copy)]
pub struct ModelDriftProxy {
    pub data_drift: Option<DataDriftProxy>,
}

/// The drift of the inputs that the model reports.
#[derive(Debug, Clone, Copy)]
pub struct DataDriftProxy {
    pub score: Score,
}

impl DataDriftProxy {
    /// The drift on the wire.
    pub open spec fn drift_spec(self) -> DataDrift {
        DataDrift { score: self.score }
    }

    /// The drift on the wire.
    pub fn into(self) -> (drift: DataDrift)
        ensures
            drift == self.drift_spec(),
    {
        DataDrift { score: self.score }
    }
}

impl ModelDriftProxy {
    /// The drift on the wire.
    pub open spec fn drift_spec(self) -> ModelDrift {
        ModelDrift {
            data_drift: match self.data_drift {
                Some(d) => Some(d.drift_spec()),
                None => None,
            },
        }
    }

    /// The drift on the wire.
    pub fn into(self) -> (drift: ModelDrift)
        ensures
            drift == self.drift_spec(),
    {
        ModelDrift {
            data_drift: match self.data_drift {
                Some(d) => Some(d.into()),
                None => None,
            },
        }
    }
}

impl DataOutputProxy {
    /// The content type of the bytes: the one that the model names, else
    /// `application/octet-stream`.
    pub open spec fn content_type_spec(self) -> Seq<char> {
        match self.content_type {
            Some(c) => c@,
            None => "application/octet-stream"@,
        }
    }

    /// The bytes as a result on the wire.
    pub fn into(self) -> (result: DataResult)
        ensures
            result.data@ == self.data@,
            result.content_type@ == self.content_type_spec(),
    {
        DataResult {
            data: self.data,
            content_type: match self.content_type {
                Some(c) => c,
                None => String::from_str("application/octet-stream"),
            },
        }
    }
}

impl PredictionOutputProxy {
    /// The output on the wire: a text stays a text, and bytes become data of
    /// their content type.
    pub open spec fn output_spec(self) -> PredictionOutputView {
        match self {
            PredictionOutputProxy::TextOutput { key, text } => PredictionOutputView {
                key: key@,
                result: Some(PredictionResultView::Text(text@)),
            },
            PredictionOutputProxy::DataOutput { key, data } => PredictionOutputView {
                key: key@,
                result: Some(
                    PredictionResultView::Data {
                        data: data.data@,
                        content_type: data.content_type_spec(),
                    },
                ),
            },
        }
    }

    /// The output on the wire.
    pub fn into(self) -> (output: PredictionOutput)
        ensures
            output@ == self.output_spec(),
    {
        match self {
            PredictionOutputProxy::TextOutput { key, text } => PredictionOutput {
                key,
                result: Some(PredictionResult::Text(TextResult { text })),
            },
            PredictionOutputProxy::DataOutput { key, data } => PredictionOutput {
                key,
                result: Some(PredictionResult::Data(data.into())),
            },
        }
    }
}

/// The outputs on the wire of a list of the model's outputs.
pub open spec fn outputs_spec(outputs: Seq<PredictionOutputProxy>) -> Seq<PredictionOutputView> {
    outputs.map_values(|p: PredictionOutputProxy| p.output_spec())
}

impl PredictionResultProxy {
    /// The error text on the wire: the model's, else the empty text.
    pub open spec fn error_spec(self) -> Seq<char> {
        match self.error {
            Some(e) => e@,
            None => Seq::empty(),
        }
    }

    /// The drift on the wire.
    pub open spec fn drift_spec(self) -> Option<ModelDrift> {
        match self.drift {
            Some(d) => Some(d.drift_spec()),
            None => None,
        }
    }

    /// The response that carries the model's answer: its outputs in order, its
    /// success flag, its error text and its drift; no explanation, no timings
    /// and no tags yet.
    pub fn into(self) -> (response: PredictResponse)
        ensures
            outputs_view(response.outputs@) == outputs_spec(self.outputs@),
            response.success == self.success,
            response.error@ == self.error_spec(),
            response.drift == self.drift_spec(),
            response.explanation is None,
            response.timings is None,
            response.tags@ == Map::<String, String>::empty(),
    {
        let ghost proxies = self.outputs@;
        let mut outputs: Vec<PredictionOutput> = Vec::new();
        for proxy in it: self.outputs
            invariant
                it.seq() == proxies,
                outputs@.len() == it.index(),
                forall|i: int|
                    0 <= i < outputs@.len() ==> (#[trigger] outputs@[i])@
                        == proxies[i].output_spec(),
        {
            outputs.push(proxy.into());
        }
        assert(outputs_view(outputs@) =~= outputs_spec(proxies));
        PredictResponse {
            outputs,
            explanation: None,
            drift: match self.drift {
                Some(d) => Some(d.into()),
                None => None,
            },
            success: self.success,
            error: match self.error {
                Some(e) => e,
                None => String::new(),
            },
            timings: None,
            tags: HashMap::new(),
        }
    }
}

} // verus!
