//! From the inputs of a request to the data that goes into the model.
use crate::inference::types::distinct_keys;
use crate::inference::types::has_key;
use crate::inference::types::index_of_key;
use crate::inference::types::lemma_pairs_insert;
use crate::inference::types::lemma_pairs_map;
use crate::inference::types::pairs_insert;
use crate::inference::types::pairs_map;
use crate::inference::types::pairs_size;
use crate::inference::types::ModelData;
use crate::inference::wire::inputs_view;
use crate::inference::wire::Input;
use crate::inference::wire::InputItem;
use crate::inference::wire::InputView;
use crate::inference::wire::Source;
use crate::inference::wire::SourceView;
use vstd::prelude::*;
use vstd::string::StrSliceExecFns;
use vstd::utf8::decode_utf8;
use vstd::utf8::encode_utf8;

verus! {

/// Why the inputs of a request cannot be handed to the model.
#[derive(Debug, Clone, Copy, PartialEq, Eq, Structural)]
pub enum PreprocessError {
    /// The payloads together are longer than the machine can count.
    PayloadTooLarge,
}

/// What kind of source an input has.
#[derive(Debug, Clone, Copy, PartialEq, Eq, Structural)]
pub enum SourceKind {
    Text,
    Data,
}

/// The payload of a source: a text as its UTF-8 bytes, data as it is.
pub open spec fn source_bytes(source: SourceView) -> Seq<u8> {
    match source {
        SourceView::Text(t) => encode_utf8(t),
        SourceView::Data(d) => d,
    }
}

/// The kind of a source.
pub open spec fn source_kind(source: SourceView) -> SourceKind {
    match source {
        SourceView::Text(t) => SourceKind::Text,
        SourceView::Data(d) => SourceKind::Data,
    }
}

/// The payloads of `inputs` under their keys: each input with a source, in
/// order, a later one replacing an earlier one of the same key.
pub open spec fn collected_pairs(inputs: Seq<InputView>) -> Seq<(Seq<char>, Seq<u8>)>
    decreases inputs.len(),
{
    if inputs.len() == 0 {
        Seq::empty()
    } else {
        let rest = collected_pairs(inputs.drop_last());
        match inputs.last().source {
            Some(source) => pairs_insert(rest, inputs.last().key, source_bytes(source)),
            None => rest,
        }
    }
}

/// The mapping from key to payload that `inputs` describe.
pub open spec fn collected_inputs(inputs: Seq<InputView>) -> Map<Seq<char>, Seq<u8>>
    decreases inputs.len(),
{
    if inputs.len() == 0 {
        Map::empty()
    } else {
        let rest = collected_inputs(inputs.drop_last());
        match inputs.last().source {
            Some(source) => rest.insert(inputs.last().key, source_bytes(source)),
            None => rest,
        }
    }
}

/// The number of payload bytes in `inputs`, over every input with a source.
pub open spec fn collected_size(inputs: Seq<InputView>) -> nat
    decreases inputs.len(),
{
    if inputs.len() == 0 {
        0
    } else {
        collected_size(inputs.drop_last()) + match inputs.last().source {
            Some(source) => source_bytes(source).len(),
            None => 0,
        }
    }
}

/// The collected pairs have distinct keys and describe the collected mapping.
pub proof fn lemma_collected_pairs(inputs: Seq<InputView>)
    ensures
        distinct_keys(collected_pairs(inputs)),
        pairs_map(collected_pairs(inputs)) == collected_inputs(inputs),
    decreases inputs.len(),
{
    if inputs.len() > 0 {
        lemma_collected_pairs(inputs.drop_last());
        match inputs.last().source {
            Some(source) => {
                lemma_pairs_insert(
                    collected_pairs(inputs.drop_last()),
                    inputs.last().key,
                    source_bytes(source),
                );
            },
            None => {},
        }
    }
}

/// The payload bytes of a part of the inputs are no more than those of all.
proof fn lemma_collected_size_grows(inputs: Seq<InputView>, n: int)
    requires
        0 <= n <= inputs.len(),
    ensures
        collected_size(inputs.take(n)) <= collected_size(inputs),
    decreases inputs.len(),
{
    if n < inputs.len() {
        lemma_collected_size_grows(inputs.drop_last(), n);
        assert(inputs.drop_last().take(n) =~= inputs.take(n));
    } else {
        assert(inputs.take(n) =~= inputs);
    }
}

/// Collects the payloads of the inputs of a request under their keys and
/// counts their bytes. A text goes in as its UTF-8 bytes, data as it is; an
/// input without a source is passed over; of two inputs with one key the later
/// one stays, and both are counted.
///
/// The call succeeds whenever the bytes can be counted. Of inputs that all
/// have a source and distinct keys nothing is lost: there is one payload for
/// each input, under the input's key, and from the payloads and the kinds of
/// the sources the very same inputs come back.
pub fn preprocess(inputs: Vec<Input>) -> (r: Result<(ModelData, usize), PreprocessError>)
    ensures
        collected_size(inputs_view(inputs@)) <= usize::MAX <==> r is Ok,
        match r {
            Ok((data, size)) => {
                &&& data.pairs() == collected_pairs(inputs_view(inputs@))
                &&& data@ == collected_inputs(inputs_view(inputs@))
                &&& size == collected_size(inputs_view(inputs@))
                &&& restorable(inputs_view(inputs@)) ==> {
                    &&& data@.len() == inputs@.len()
                    &&& forall|i: int|
                        0 <= i < inputs@.len() ==> data@.contains_key(
                            (#[trigger] inputs_view(inputs@)[i]).key,
                        ) && data@[inputs_view(inputs@)[i].key] == source_bytes(
                            inputs_view(inputs@)[i].source.unwrap(),
                        )
                    &&& restored_inputs(data.pairs(), source_kinds(inputs_view(inputs@)))
                        == inputs_view(inputs@)
                }
            },
            Err(e) => e == PreprocessError::PayloadTooLarge,
        },
{
    let ghost all = inputs_view(inputs@);
    let mut total_size_in_bytes: usize = 0;
    let mut input_data = ModelData::new();
    for input in it: inputs
        invariant
            it.seq() == inputs@,
            all == inputs_view(inputs@),
            input_data.pairs() == collected_pairs(all.take(it.index() as int)),
            total_size_in_bytes == collected_size(all.take(it.index() as int)),
    {
        let ghost n = it.index() as int;
        assert(all.take(n + 1).drop_last() =~= all.take(n));
        assert(all.take(n + 1).last() == input@);
        match input.source {
            Some(source) => {
                let val = match source {
                    Source::Text(t) => t.as_str().as_bytes_vec(),
                    Source::Data(d) => d,
                };
                match total_size_in_bytes.checked_add(val.len()) {
                    Some(sum) => {
                        total_size_in_bytes = sum;
                    },
                    None => {
                        proof {
                            lemma_collected_size_grows(all, n + 1);
                        }
                        return Err(PreprocessError::PayloadTooLarge);
                    },
                }
                input_data.insert(input.key, val);
            },
            None => {},
        }
    }
    proof {
        assert(all.take(all.len() as int) =~= all);
        lemma_collected_pairs(all);
        if restorable(all) {
            let pairs = collected_pairs(all);
            lemma_collected_pairs_of_restorable(all);
            lemma_preprocess_round_trip(all);
            lemma_pairs_map(pairs);
            assert forall|i: int| 0 <= i < all.len() implies input_data@.contains_key(
                (#[trigger] all[i]).key,
            ) && input_data@[all[i].key] == source_bytes(all[i].source.unwrap()) by {
                assert(pairs[i].0 == all[i].key);
                assert(has_key(pairs, all[i].key));
            }
        }
    }
    Ok((input_data, total_size_in_bytes))
}

/// The number of payload bytes in the items of a batch.
pub open spec fn batch_size(items: Seq<InputItem>) -> nat
    decreases items.len(),
{
    if items.len() == 0 {
        0
    } else {
        batch_size(items.drop_last()) + pairs_size(items.last().input.pairs())
    }
}

/// The payload bytes of a part of a batch are no more than those of all.
proof fn lemma_batch_size_grows(items: Seq<InputItem>, n: int)
    requires
        0 <= n <= items.len(),
    ensures
        batch_size(items.take(n)) <= batch_size(items),
    decreases items.len(),
{
    if n < items.len() {
        lemma_batch_size_grows(items.drop_last(), n);
        assert(items.drop_last().take(n) =~= items.take(n));
    } else {
        assert(items.take(n) =~= items);
    }
}

/// The number of payload bytes in `data`, unless it is more than the machine
/// can count.
pub fn payload_size(data: &ModelData) -> (size: Option<usize>)
    ensures
        match size {
            Some(n) => n == pairs_size(data.pairs()),
            None => pairs_size(data.pairs()) > usize::MAX,
        },
{
    let entries = data.entries();
    let ghost pairs = data.pairs();
    let mut total: usize = 0;
    let mut i: usize = 0;
    while i < entries.len()
        invariant
            i <= entries.len(),
            pairs == data.pairs(),
            pairs == crate::inference::types::entry_pairs(entries@),
            total == pairs_size(pairs.take(i as int)),
        decreases entries.len() - i,
    {
        assert(pairs.take(i + 1).drop_last() =~= pairs.take(i as int));
        assert(pairs.take(i + 1).last() == pairs[i as int]);
        match total.checked_add(entries[i].value.len()) {
            Some(sum) => {
                total = sum;
            },
            None => {
                proof {
                    lemma_pairs_size_grows(pairs, i + 1);
                }
                return None;
            },
        }
        i += 1;
    }
    assert(pairs.take(i as int) =~= pairs);
    Some(total)
}

/// The payload bytes of a part of the pairs are no more than those of all.
proof fn lemma_pairs_size_grows(pairs: Seq<(Seq<char>, Seq<u8>)>, n: int)
    requires
        0 <= n <= pairs.len(),
    ensures
        pairs_size(pairs.take(n)) <= pairs_size(pairs),
    decreases pairs.len(),
{
    if n < pairs.len() {
        lemma_pairs_size_grows(pairs.drop_last(), n);
        assert(pairs.drop_last().take(n) =~= pairs.take(n));
    } else {
        assert(pairs.take(n) =~= pairs);
    }
}

/// Takes the payloads of each item of a batch, in order, and counts their
/// bytes.
pub fn preprocess_v1(inputs: Vec<InputItem>) -> (r: Result<(Vec<ModelData>, usize), PreprocessError>)
    ensures
        match r {
            Ok((batch, size)) => {
                &&& batch@ == inputs@.map_values(|item: InputItem| item.input)
                &&& size == batch_size(inputs@)
            },
            Err(e) => batch_size(inputs@) > usize::MAX,
        },
{
    let mut total_size_in_bytes: usize = 0;
    let mut batched_inputs: Vec<ModelData> = Vec::new();
    for input_item in it: inputs
        invariant
            it.seq() == inputs@,
            batched_inputs@ == inputs@.take(it.index() as int).map_values(
                |item: InputItem| item.input,
            ),
            total_size_in_bytes == batch_size(inputs@.take(it.index() as int)),
    {
        let ghost n = it.index() as int;
        assert(inputs@.take(n + 1).drop_last() =~= inputs@.take(n));
        assert(inputs@.take(n + 1).last() == input_item);
        let added = match payload_size(&input_item.input) {
            Some(size) => total_size_in_bytes.checked_add(size),
            None => None,
        };
        match added {
            Some(sum) => {
                total_size_in_bytes = sum;
            },
            None => {
                proof {
                    lemma_batch_size_grows(inputs@, n + 1);
                }
                return Err(PreprocessError::PayloadTooLarge);
            },
        }
        assert(batched_inputs@.push(input_item.input) =~= inputs@.take(n + 1).map_values(
            |item: InputItem| item.input,
        ));
        batched_inputs.push(input_item.input);
    }
    assert(inputs@.take(inputs@.len() as int) =~= inputs@);
    Ok((batched_inputs, total_size_in_bytes))
}

/// The input that a payload came from, given the kind of its source.
pub open spec fn restored_input(pair: (Seq<char>, Seq<u8>), kind: SourceKind) -> InputView {
    InputView {
        key: pair.0,
        source: Some(
            match kind {
                SourceKind::Text => SourceView::Text(decode_utf8(pair.1)),
                SourceKind::Data => SourceView::Data(pair.1),
            },
        ),
    }
}

/// The inputs that `pairs` came from, given the kind of each source.
pub open spec fn restored_inputs(
    pairs: Seq<(Seq<char>, Seq<u8>)>,
    kinds: Seq<SourceKind>,
) -> Seq<InputView> {
    Seq::new(pairs.len(), |i: int| restored_input(pairs[i], kinds[i]))
}

/// Whether every input has a source and no two inputs have one key.
pub open spec fn restorable(inputs: Seq<InputView>) -> bool {
    &&& forall|i: int| 0 <= i < inputs.len() ==> (#[trigger] inputs[i]).source is Some
    &&& forall|i: int, j: int|
        0 <= i < j < inputs.len() ==> (#[trigger] inputs[i]).key != (#[trigger] inputs[j]).key
}

/// The kinds of the sources of `inputs`, in order.
pub open spec fn source_kinds(inputs: Seq<InputView>) -> Seq<SourceKind> {
    Seq::new(inputs.len(), |i: int| source_kind(inputs[i].source.unwrap()))
}

/// What is collected from restorable inputs: one pair for each input, in order.
proof fn lemma_collected_pairs_of_restorable(inputs: Seq<InputView>)
    requires
        restorable(inputs),
    ensures
        collected_pairs(inputs).len() == inputs.len(),
        forall|i: int|
            0 <= i < inputs.len() ==> #[trigger] collected_pairs(inputs)[i] == (
                inputs[i].key,
                source_bytes(inputs[i].source.unwrap()),
            ),
    decreases inputs.len(),
{
    if inputs.len() > 0 {
        let front = inputs.drop_last();
        assert(restorable(front)) by {
            assert forall|i: int| 0 <= i < front.len() implies (#[trigger] front[i]).source
                is Some by {
                assert(front[i] == inputs[i]);
            }
            assert forall|i: int, j: int| 0 <= i < j < front.len() implies (
            #[trigger] front[i]).key != (#[trigger] front[j]).key by {
                assert(front[i] == inputs[i] && front[j] == inputs[j]);
            }
        }
        lemma_collected_pairs_of_restorable(front);
        let rest = collected_pairs(front);
        let last = inputs.last();
        assert(last == inputs[inputs.len() - 1]);
        assert(last.source is Some);
        if has_key(rest, last.key) {
            let i = index_of_key(rest, last.key);
            assert(rest[i].0 == last.key);
            assert(collected_pairs(front)[i] == (
                front[i].key,
                source_bytes(front[i].source.unwrap()),
            ));
            assert(front[i] == inputs[i]);
            assert(false);
        }
        assert forall|i: int| 0 <= i < inputs.len() implies #[trigger] collected_pairs(inputs)[i]
            == (inputs[i].key, source_bytes(inputs[i].source.unwrap())) by {
            if i < front.len() {
                assert(collected_pairs(front)[i] == (
                    front[i].key,
                    source_bytes(front[i].source.unwrap()),
                ));
                assert(front[i] == inputs[i]);
            }
        }
    }
}

/// Collecting loses nothing of restorable inputs: from what was collected and
/// the kinds of the sources, the very same inputs come back.
pub proof fn lemma_preprocess_round_trip(inputs: Seq<InputView>)
    requires
        restorable(inputs),
    ensures
        restored_inputs(collected_pairs(inputs), source_kinds(inputs)) == inputs,
{
    lemma_collected_pairs_of_restorable(inputs);
    let restored = restored_inputs(collected_pairs(inputs), source_kinds(inputs));
    assert forall|i: int| 0 <= i < inputs.len() implies restored[i] == inputs[i] by {
        let pair = collected_pairs(inputs)[i];
        match inputs[i].source.unwrap() {
            SourceView::Text(t) => {
                vstd::utf8::encode_utf8_decode_utf8(t);
            },
            SourceView::Data(d) => {},
        }
    }
    assert(restored =~= inputs);
}

} // verus!
