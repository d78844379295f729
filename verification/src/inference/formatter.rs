//! From the payloads that a model hands back to outputs on the wire.
use crate::inference::types::entry_pairs;
use crate::inference::types::ModelData;
use crate::inference::wire::outputs_view;
use crate::inference::wire::DataResult;
use crate::inference::wire::PredictionOutput;
use crate::inference::wire::PredictionOutputView;
use crate::inference::wire::PredictionResult;
use crate::inference::wire::PredictionResultView;
use vstd::prelude::*;

verus! {

/// The output that carries one payload: data without a content type.
pub open spec fn data_output(pair: (Seq<char>, Seq<u8>)) -> PredictionOutputView {
    PredictionOutputView {
        key: pair.0,
        result: Some(PredictionResultView::Data { data: pair.1, content_type: Seq::empty() }),
    }
}

/// The outputs that carry `pairs`, one for each pair, in order.
pub open spec fn data_outputs(pairs: Seq<(Seq<char>, Seq<u8>)>) -> Seq<PredictionOutputView> {
    pairs.map_values(|pair: (Seq<char>, Seq<u8>)| data_output(pair))
}

/// Turns each payload of `outputs` into an output with the payload's key and
/// the payload as data.
pub fn format_as_predict_result(outputs: &ModelData) -> (results: Vec<PredictionOutput>)
    ensures
        outputs_view(results@) == data_outputs(outputs.pairs()),
{
    let entries = outputs.entries();
    let mut results: Vec<PredictionOutput> = Vec::new();
    let mut i: usize = 0;
    while i < entries.len()
        invariant
            i <= entries.len(),
            results@.len() == i,
            forall|j: int|
                0 <= j < i ==> (#[trigger] results@[j])@ == data_output(entry_pairs(entries@)[j]),
        decreases entries.len() - i,
    {
        let data = entries[i].value.clone();
        assert(data@ =~= entries[i as int].value@);
        results.push(
            PredictionOutput {
                key: entries[i].key.clone(),
                result: Some(
                    PredictionResult::Data(DataResult { data, content_type: String::new() }),
                ),
            },
        );
        i += 1;
    }
    assert(outputs_view(results@) =~= data_outputs(entry_pairs(entries@)));
    results
}

} // verus!
