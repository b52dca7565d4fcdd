//! The embeddings client: which call an input list leads to, and how the
//! vectors of an answer are matched to the inputs.
//!
//! The library never looks inside an embedding vector, so the vector type is
//! a parameter `E` of every function that carries one.

use crate::error::{ClientError, ClientErrorView};
use crate::transport::API_URL;
use vstd::prelude::*;
use vstd::set_lib::*;
use vstd::string::*;

verus! {

/// The most inputs one call may carry.
pub const MAX_INPUTS: usize = 50;

/// What is reported when an answer does not hold one embedding per input.
pub const MISALIGNED: &'static str = "response does not hold one embedding per input";

/// The body of a direct embeddings call.
#[derive(Default, Debug, Clone, PartialEq, Eq)]
pub struct EmbeddingsRequest {
    pub content: Vec<String>,
}

/// The answer to a direct embeddings call.
#[derive(Debug, Clone, PartialEq)]
pub struct EmbeddingsResponse<E> {
    pub embeddings: Vec<E>,
    pub model: EmbeddingModel,
}

/// The supported embedding models.
#[derive(Default, Debug, Clone, Copy, PartialEq, Eq, Structural)]
pub enum EmbeddingModel {
    #[default]
    E5LargeUnsupervised,
    NRE002,
    NRE001,
    NVRetrievalQA,
}

/// The name under which the service knows `model`.
pub open spec fn model_name(model: EmbeddingModel) -> Seq<char> {
    match model {
        EmbeddingModel::E5LargeUnsupervised => "e5-large-unsupervised"@,
        EmbeddingModel::NRE001 => "nre-001"@,
        EmbeddingModel::NRE002 => "nre-002"@,
        EmbeddingModel::NVRetrievalQA => "NV RetrievalQA"@,
    }
}

/// The address of the direct embeddings call for `model`.
pub open spec fn embeddings_endpoint(model: EmbeddingModel) -> Seq<char> {
    API_URL@ + "/embeddings/"@ + model_name(model)
}

impl EmbeddingModel {
    /// The name under which the service knows this model.
    pub fn name(&self) -> (name: &'static str)
        ensures
            name@ == model_name(*self),
    {
        match self {
            EmbeddingModel::E5LargeUnsupervised => "e5-large-unsupervised",
            EmbeddingModel::NRE001 => "nre-001",
            EmbeddingModel::NRE002 => "nre-002",
            EmbeddingModel::NVRetrievalQA => "NV RetrievalQA",
        }
    }

    /// Whether this model is served by submitting a job and polling for it.
    pub fn is_polled(&self) -> (polled: bool)
        ensures
            polled == (*self == EmbeddingModel::NVRetrievalQA),
    {
        match self {
            EmbeddingModel::NVRetrievalQA => true,
            _ => false,
        }
    }
}

/// The body of a job submission.
#[derive(Debug, Clone, PartialEq, Eq)]
pub struct RQARequest {
    pub input: Vec<String>,
    pub model: String,
    pub encoding_format: String,
}

/// One embedding of a job's answer, with the position of the input it
/// belongs to.
#[derive(Debug, Clone, PartialEq)]
pub struct RQAEmbedding<E> {
    pub index: u32,
    pub embedding: E,
}

/// The token accounting of a job's answer.
#[derive(Debug, Clone, Copy, PartialEq, Eq, Structural)]
pub struct Usage {
    pub prompt_tokens: u32,
    pub total_tokens: u32,
}

/// The answer of a finished job.
#[derive(Debug, Clone, PartialEq)]
pub struct RQAResponse<E> {
    pub data: Vec<RQAEmbedding<E>>,
    pub usage: Option<Usage>,
}

/// The call that an input list leads to.
#[derive(Debug, Clone, PartialEq, Eq)]
pub enum EmbeddingCall {
    /// One POST to `endpoint` is answered with the vectors.
    Direct { endpoint: String, body: EmbeddingsRequest },
    /// A job is submitted and polled until it resolves.
    Job { body: RQARequest },
}

/// Whether `call` is the call that `model` makes for `content`.
pub open spec fn call_for(call: EmbeddingCall, model: EmbeddingModel, content: Vec<String>) -> bool {
    match model {
        EmbeddingModel::NVRetrievalQA => {
            &&& call matches EmbeddingCall::Job { body }
            &&& body.input == content
            &&& body.model@ == "passage"@
            &&& body.encoding_format@ == "float"@
        },
        _ => {
            &&& call matches EmbeddingCall::Direct { endpoint, body }
            &&& endpoint@ == embeddings_endpoint(model)
            &&& body.content == content
        },
    }
}

/// An embeddings client: a model and, optionally, the token to call it with.
#[derive(Debug, Clone, PartialEq, Eq)]
pub struct Embeddings {
    model: EmbeddingModel,
    token: Option<String>,
}

impl Embeddings {
    /// The model this client calls.
    pub closed spec fn spec_model(&self) -> EmbeddingModel {
        self.model
    }

    /// The token this client was given.
    pub closed spec fn spec_token(&self) -> Option<String> {
        self.token
    }

    /// Makes a client for `model`. This never fails.
    pub fn new(model: EmbeddingModel, token: Option<String>) -> (r: Result<Embeddings, ClientError>)
        ensures
            r matches Ok(e) && e.spec_model() == model && e.spec_token() == token,
    {
        Ok(Embeddings { model, token })
    }

    /// The model this client calls.
    pub fn model(&self) -> (model: EmbeddingModel)
        ensures
            model == self.spec_model(),
    {
        self.model
    }

    /// The token this client was given.
    pub fn token(&self) -> (token: &Option<String>)
        ensures
            *token == self.spec_token(),
    {
        &self.token
    }

    /// Decides which call `content` leads to. A list of more than
    /// [`MAX_INPUTS`] inputs is refused here, before anything is sent.
    pub fn prepare(&self, content: Vec<String>) -> (r: Result<EmbeddingCall, ClientError>)
        ensures
            content.len() > MAX_INPUTS ==> (r matches Err(e) && e@ == (ClientErrorView::Validation {
                given: content.len(),
                limit: MAX_INPUTS,
            })),
            content.len() <= MAX_INPUTS ==> (r matches Ok(call) && call_for(
                call,
                self.spec_model(),
                content,
            )),
    {
        if content.len() > MAX_INPUTS {
            return Err(ClientError::Validation { given: content.len(), limit: MAX_INPUTS });
        }
        if self.model.is_polled() {
            Ok(
                EmbeddingCall::Job {
                    body: RQARequest {
                        input: content,
                        model: String::from_str("passage"),
                        encoding_format: String::from_str("float"),
                    },
                },
            )
        } else {
            let mut endpoint = String::from_str(API_URL);
            endpoint.append("/embeddings/");
            endpoint.append(self.model.name());
            Ok(EmbeddingCall::Direct { endpoint, body: EmbeddingsRequest { content } })
        }
    }
}

/// The error for an answer that does not hold one embedding per input.
pub open spec fn misaligned() -> ClientErrorView {
    ClientErrorView::Transport { detail: MISALIGNED@ }
}

fn misaligned_error() -> (e: ClientError)
    ensures
        e@ == misaligned(),
{
    ClientError::Transport { detail: String::from_str(MISALIGNED) }
}

/// Matches the vectors of a direct answer to the inputs by position: the
/// answer must hold exactly one vector per input.
pub fn align<E>(expected: usize, embeddings: Vec<E>) -> (r: Result<Vec<E>, ClientError>)
    ensures
        embeddings.len() == expected ==> r == Ok::<Vec<E>, ClientError>(embeddings),
        embeddings.len() != expected ==> (r matches Err(e) && e@ == misaligned()),
        r matches Ok(v) ==> v.len() == expected && forall|i: int|
            0 <= i < expected ==> v@[i] == embeddings@[i],
{
    if embeddings.len() == expected {
        Ok(embeddings)
    } else {
        Err(misaligned_error())
    }
}

/// Whether `items` name each of `n` inputs exactly once: there are `n` of
/// them, each index is below `n`, and no index occurs twice.
pub open spec fn indices_cover<E>(items: Seq<RQAEmbedding<E>>, n: nat) -> bool {
    &&& items.len() == n
    &&& forall|j: int| 0 <= j < items.len() ==> (#[trigger] items[j]).index < n
    &&& forall|j: int, k: int|
        0 <= j < k < items.len() ==> (#[trigger] items[j]).index != (#[trigger] items[k]).index
}

/// Where in `items` the embedding of input `i` stands.
pub open spec fn position_of<E>(items: Seq<RQAEmbedding<E>>, i: int) -> int {
    choose|j: int| 0 <= j < items.len() && (#[trigger] items[j]).index == i
}

/// The embeddings of `items` in the order of the inputs: the one at place `i`
/// is the one whose index is `i`, wherever it arrived.
pub open spec fn reconciled<E>(items: Seq<RQAEmbedding<E>>, n: nat) -> Seq<E> {
    Seq::new(n, |i: int| items[position_of(items, i)].embedding)
}

/// Items that name each input exactly once leave no input without an
/// embedding.
pub proof fn law_covering_indices_reach_every_input<E>(items: Seq<RQAEmbedding<E>>, n: nat)
    requires
        indices_cover(items, n),
    ensures
        forall|i: int|
            0 <= i < n ==> 0 <= #[trigger] position_of(items, i) < items.len()
                && items[position_of(items, i)].index == i,
{
    let idx = Seq::new(items.len(), |j: int| items[j].index as int);
    assert forall|j: int, k: int| 0 <= j < idx.len() && 0 <= k < idx.len() && j != k implies idx[j]
        != idx[k] by {
        if j < k {
            assert(items[j].index != items[k].index);
        } else {
            assert(items[k].index != items[j].index);
        }
    }
    idx.unique_seq_to_set();
    lemma_int_range(0, n as int);
    let all = set_int_range(0, n as int);
    assert(idx.to_set().subset_of(all)) by {
        assert forall|v: int| idx.to_set().contains(v) implies all.contains(v) by {
            let j = choose|j: int| 0 <= j < idx.len() && idx[j] == v;
            assert(items[j].index < n);
        }
    }
    lemma_len_subset(idx.to_set(), all);
    lemma_subset_equality(idx.to_set(), all);
    assert forall|i: int| 0 <= i < n implies 0 <= #[trigger] position_of(items, i) < items.len()
        && items[position_of(items, i)].index == i by {
        assert(all.contains(i));
        assert(idx.to_set().contains(i));
        let j = choose|j: int| 0 <= j < idx.len() && idx[j] == i;
        assert(items[j].index == i);
    }
}

/// Reconciling gives one embedding per input, and the embedding at place `i`
/// is the one that arrived with the index `i`.
pub proof fn law_reconciled_matches_inputs<E>(items: Seq<RQAEmbedding<E>>, n: nat)
    requires
        indices_cover(items, n),
    ensures
        reconciled(items, n).len() == n,
        forall|j: int|
            0 <= j < items.len() ==> reconciled(items, n)[(#[trigger] items[j]).index as int]
                == items[j].embedding,
{
    law_covering_indices_reach_every_input(items, n);
    assert forall|j: int| 0 <= j < items.len() implies reconciled(items, n)[(
    #[trigger] items[j]).index as int] == items[j].embedding by {
        let p = position_of(items, items[j].index as int);
        if p < j {
            assert(items[p].index != items[j].index);
        } else if j < p {
            assert(items[j].index != items[p].index);
        }
    }
}

/// Matches the embeddings of a job's answer to the inputs by their explicit
/// indices, not by the order in which they arrived. The answer must name
/// each of the `expected` inputs exactly once.
pub fn reconcile_by_index<E>(expected: usize, items: Vec<RQAEmbedding<E>>) -> (r: Result<
    Vec<E>,
    ClientError,
>)
    ensures
        indices_cover(items@, expected as nat) ==> (r matches Ok(v) && v@ == reconciled(
            items@,
            expected as nat,
        )),
        !indices_cover(items@, expected as nat) ==> (r matches Err(e) && e@ == misaligned()),
        r matches Ok(v) ==> v.len() == expected && forall|j: int|
            0 <= j < items.len() ==> v@[(#[trigger] items@[j]).index as int]
                == items@[j].embedding,
{
    let ghost orig = items@;
    let n = expected;
    let mut rest = items;
    if rest.len() != n {
        return Err(misaligned_error());
    }
    // Slot `n - 1 - i` is for the input `i`, so that taking the slots from
    // the end yields the embeddings in the order of the inputs.
    let mut slots: Vec<Option<E>> = Vec::new();
    while slots.len() < n
        invariant
            slots.len() <= n,
            forall|s: int| 0 <= s < slots.len() ==> slots[s] is None,
        decreases n - slots.len(),
    {
        slots.push(None);
    }
    while rest.len() > 0
        invariant
            orig == items@,
            orig.len() == n,
            slots.len() == n,
            rest.len() <= n,
            rest@ == orig.take(rest.len() as int),
            forall|j: int| rest.len() <= j < n ==> (#[trigger] orig[j]).index < n,
            forall|j: int, k: int|
                rest.len() <= j < k < n ==> (#[trigger] orig[j]).index != (#[trigger] orig[k]).index,
            forall|j: int|
                rest.len() <= j < n ==> slots[n - 1 - (#[trigger] orig[j]).index] == Some(
                    orig[j].embedding,
                ),
            forall|s: int|
                0 <= s < n && (#[trigger] slots[s]) is Some ==> exists|j: int|
                    rest.len() <= j < n && (#[trigger] orig[j]).index == n - 1 - s,
        decreases rest.len(),
    {
        let ghost c = rest.len() - 1;
        let ghost filled = slots@;
        let item = match rest.pop() {
            Some(item) => item,
            None => {
                return Err(misaligned_error());
            },
        };
        assert(item == orig[c]);
        assert(rest@ =~= orig.take(c));
        let index = item.index as usize;
        if index >= n {
            return Err(misaligned_error());
        }
        let slot = n - 1 - index;
        if slots[slot].is_some() {
            proof {
                let j = choose|j: int| c < j < n && (#[trigger] orig[j]).index == n - 1 - slot;
                assert(orig[c].index == orig[j].index);
            }
            return Err(misaligned_error());
        }
        slots[slot] = Some(item.embedding);
        proof {
            assert forall|j: int| c <= j < n implies slots[n - 1 - (#[trigger] orig[j]).index]
                == Some(orig[j].embedding) by {
                if j > c {
                    assert(filled[n - 1 - orig[j].index] == Some(orig[j].embedding));
                    assert(orig[c].index != orig[j].index);
                }
            }
            assert forall|s: int| 0 <= s < n && (#[trigger] slots[s]) is Some implies exists|
                j: int,
            |
                c <= j < n && (#[trigger] orig[j]).index == n - 1 - s by {
                if s == slot {
                    assert(orig[c].index == n - 1 - s);
                } else {
                    assert(filled[s] is Some);
                    let j = choose|j: int| c < j < n && (#[trigger] orig[j]).index == n - 1 - s;
                    assert(orig[j].index == n - 1 - s);
                }
            }
        }
    }
    assert(indices_cover(orig, n as nat));
    proof {
        law_covering_indices_reach_every_input(orig, n as nat);
    }
    let ghost full = slots@;
    let mut out: Vec<E> = Vec::new();
    while slots.len() > 0
        invariant
            orig == items@,
            orig.len() == n,
            full.len() == n,
            indices_cover(orig, n as nat),
            slots@ == full.take(slots.len() as int),
            out.len() + slots.len() == n,
            forall|j: int|
                0 <= j < n ==> full[n - 1 - (#[trigger] orig[j]).index] == Some(orig[j].embedding),
            forall|i: int|
                0 <= i < n ==> 0 <= #[trigger] position_of(orig, i) < n && orig[position_of(
                    orig,
                    i,
                )].index == i,
            forall|i: int| 0 <= i < out.len() ==> out[i] == orig[position_of(orig, i)].embedding,
        decreases slots.len(),
    {
        let ghost i = out.len() as int;
        let ghost taken = slots.len() - 1;
        assert(slots@[taken] == full[taken]);
        assert(full[n - 1 - orig[position_of(orig, i)].index] == Some(
            orig[position_of(orig, i)].embedding,
        ));
        match slots.pop() {
            Some(Some(embedding)) => {
                out.push(embedding);
            },
            _ => {
                return Err(misaligned_error());
            },
        }
        assert(slots@ =~= full.take(taken));
    }
    assert(out@ =~= reconciled(orig, n as nat));
    proof {
        law_reconciled_matches_inputs(orig, n as nat);
    }
    Ok(out)
}

/// The order in which the embeddings arrive does not matter: two answers
/// that hold the same items reconcile to the same result.
pub proof fn law_arrival_order_is_irrelevant<E>(
    first: Seq<RQAEmbedding<E>>,
    second: Seq<RQAEmbedding<E>>,
    n: nat,
)
    requires
        indices_cover(first, n),
        first.to_multiset() == second.to_multiset(),
    ensures
        indices_cover(second, n),
        reconciled(first, n) == reconciled(second, n),
{
    first.to_multiset_ensures();
    second.to_multiset_ensures();
    law_covering_indices_reach_every_input(first, n);
    assert forall|k: int| 0 <= k < second.len() implies (#[trigger] second[k]).index < n by {
        assert(second.contains(second[k]));
        lemma_same_items(second, first, second[k]);
        let j = choose|j: int| 0 <= j < first.len() && first[j] == second[k];
        assert(first[j].index < n);
    }
    assert forall|i: int| 0 <= i < n implies 0 <= #[trigger] position_of(second, i) < second.len()
        && second[position_of(second, i)] == first[position_of(first, i)] by {
        let a = first[position_of(first, i)];
        assert(first.contains(a));
        lemma_same_items(first, second, a);
        let k = choose|k: int| 0 <= k < second.len() && second[k] == a;
        assert(second[k].index == i);
        let p = position_of(second, i);
        assert(second.contains(second[p]));
        lemma_same_items(second, first, second[p]);
        let j = choose|j: int| 0 <= j < first.len() && first[j] == second[p];
        assert(first[j].index == i);
        if j < position_of(first, i) {
            assert(first[j].index != first[position_of(first, i)].index);
        } else if position_of(first, i) < j {
            assert(first[position_of(first, i)].index != first[j].index);
        }
    }
    assert forall|j: int, k: int| 0 <= j < k < second.len() implies (#[trigger] second[j]).index != (
    #[trigger] second[k]).index by {
        lemma_indices_stay_distinct(first, second, n, j, k);
    }
    assert(reconciled(first, n) =~= reconciled(second, n));
}

proof fn lemma_same_items<E>(
    first: Seq<RQAEmbedding<E>>,
    second: Seq<RQAEmbedding<E>>,
    item: RQAEmbedding<E>,
)
    requires
        first.to_multiset() == second.to_multiset(),
        first.contains(item),
    ensures
        second.contains(item),
{
    first.to_multiset_ensures();
    second.to_multiset_ensures();
    assert(first.to_multiset().count(item) > 0);
    assert(second.to_multiset().count(item) > 0);
}

proof fn lemma_indices_stay_distinct<E>(
    first: Seq<RQAEmbedding<E>>,
    second: Seq<RQAEmbedding<E>>,
    n: nat,
    j: int,
    k: int,
)
    requires
        indices_cover(first, n),
        first.to_multiset() == second.to_multiset(),
        0 <= j < k < second.len(),
    ensures
        second[j].index != second[k].index,
{
    first.to_multiset_ensures();
    second.to_multiset_ensures();
    if second[j].index == second[k].index {
        // Both items occur in `first`, and there at one place, so they are
        // one item, which `second` then holds twice and `first` once.
        assert(second.contains(second[j]));
        assert(second.contains(second[k]));
        lemma_same_items(second, first, second[j]);
        lemma_same_items(second, first, second[k]);
        let a = choose|a: int| 0 <= a < first.len() && first[a] == second[j];
        let b = choose|b: int| 0 <= b < first.len() && first[b] == second[k];
        if a < b {
            assert(first[a].index != first[b].index);
        } else if b < a {
            assert(first[b].index != first[a].index);
        }
        lemma_counts_once(first, n, a);
        lemma_counts_twice(second, j, k);
    }
}

proof fn lemma_counts_once<E>(items: Seq<RQAEmbedding<E>>, n: nat, a: int)
    requires
        indices_cover(items, n),
        0 <= a < items.len(),
    ensures
        items.to_multiset().count(items[a]) == 1,
    decreases items.len(),
{
    items.to_multiset_ensures();
    let rest = items.remove(a);
    rest.to_multiset_ensures();
    assert(rest.to_multiset() =~= items.to_multiset().remove(items[a]));
    if rest.contains(items[a]) {
        let k = choose|k: int| 0 <= k < rest.len() && rest[k] == items[a];
        if k < a {
            assert(rest[k] == items[k]);
            assert(items[k].index != items[a].index);
        } else {
            assert(rest[k] == items[k + 1]);
            assert(items[a].index != items[k + 1].index);
        }
    }
    assert(rest.to_multiset().count(items[a]) == 0);
}

proof fn lemma_counts_twice<E>(items: Seq<RQAEmbedding<E>>, j: int, k: int)
    requires
        0 <= j < k < items.len(),
        items[j] == items[k],
    ensures
        items.to_multiset().count(items[j]) >= 2,
{
    items.to_multiset_ensures();
    let rest = items.remove(k);
    rest.to_multiset_ensures();
    assert(rest.to_multiset() =~= items.to_multiset().remove(items[k]));
    assert(rest[j] == items[j]);
    assert(rest.contains(items[j]));
    assert(rest.to_multiset().count(items[j]) > 0);
    assert(items.contains(items[k]));
    assert(items.to_multiset().count(items[k]) > 0);
}

} // verus!
