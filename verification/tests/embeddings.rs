use nemollm::embeddings::{
    align, reconcile_by_index, EmbeddingCall, EmbeddingModel, Embeddings, RQAEmbedding,
    MAX_INPUTS, MISALIGNED,
};
use nemollm::error::ClientError;

fn texts(n: usize) -> Vec<String> {
    (0..n).map(|i| format!("text {}", i)).collect()
}

fn misaligned() -> ClientError {
    ClientError::Transport { detail: MISALIGNED.to_string() }
}

#[test]
fn embeddings_test() {
    let e = Embeddings::new(EmbeddingModel::E5LargeUnsupervised, None).unwrap();
    let content = vec!["Rust embeddings test".to_string()];
    let call = e.prepare(content.clone()).unwrap();
    match call {
        EmbeddingCall::Direct { endpoint, body } => {
            assert_eq!(endpoint, "https://api.llm.ngc.nvidia.com/v1/embeddings/e5-large-unsupervised");
            assert_eq!(body.content, content);
        },
        EmbeddingCall::Job { .. } => panic!("a direct model was given a job"),
    }
    let vectors: Vec<Vec<f32>> = vec![vec![0.25, -1.5]];
    assert_eq!(align(content.len(), vectors.clone()).unwrap(), vectors);
}

#[test]
fn more_than_fifty_inputs_are_refused_before_any_call() {
    for model in [
        EmbeddingModel::E5LargeUnsupervised,
        EmbeddingModel::NRE001,
        EmbeddingModel::NRE002,
        EmbeddingModel::NVRetrievalQA,
    ] {
        let e = Embeddings::new(model, Some("t".to_string())).unwrap();
        assert_eq!(
            e.prepare(texts(51)),
            Err(ClientError::Validation { given: 51, limit: 50 })
        );
        assert!(e.prepare(texts(50)).is_ok());
        assert!(e.prepare(texts(1)).is_ok());
        assert!(e.prepare(texts(0)).is_ok());
    }
    assert_eq!(MAX_INPUTS, 50);
}

#[test]
fn model_names_are_those_of_the_service() {
    assert_eq!(EmbeddingModel::E5LargeUnsupervised.name(), "e5-large-unsupervised");
    assert_eq!(EmbeddingModel::NRE001.name(), "nre-001");
    assert_eq!(EmbeddingModel::NRE002.name(), "nre-002");
    assert_eq!(EmbeddingModel::NVRetrievalQA.name(), "NV RetrievalQA");
    assert_eq!(EmbeddingModel::default(), EmbeddingModel::E5LargeUnsupervised);
}

#[test]
fn polled_model_submits_every_input() {
    let e = Embeddings::new(EmbeddingModel::NVRetrievalQA, None).unwrap();
    assert!(e.model().is_polled());
    match e.prepare(texts(3)).unwrap() {
        EmbeddingCall::Job { body } => {
            assert_eq!(body.input, texts(3));
            assert_eq!(body.model, "passage");
            assert_eq!(body.encoding_format, "float");
        },
        EmbeddingCall::Direct { .. } => panic!("the polled model was given a direct call"),
    }
}

#[test]
fn client_keeps_its_model_and_token() {
    let e = Embeddings::new(EmbeddingModel::NRE002, Some("secret".to_string())).unwrap();
    assert_eq!(e.model(), EmbeddingModel::NRE002);
    assert_eq!(e.token(), &Some("secret".to_string()));
    assert!(!e.model().is_polled());
}

#[test]
fn align_wants_one_vector_per_input() {
    let v: Vec<Vec<f32>> = vec![vec![1.0], vec![2.0]];
    assert_eq!(align(2, v.clone()), Ok(v.clone()));
    assert_eq!(align(3, v.clone()), Err(misaligned()));
    assert_eq!(align(1, v), Err(misaligned()));
    assert_eq!(align(0, Vec::<Vec<f32>>::new()), Ok(vec![]));
}

#[test]
fn reconcile_orders_by_index_not_by_arrival() {
    let items = vec![
        RQAEmbedding { index: 2, embedding: vec![2.0f32, 2.5] },
        RQAEmbedding { index: 0, embedding: vec![0.0, 0.5] },
        RQAEmbedding { index: 1, embedding: vec![1.0, 1.5] },
    ];
    let out = reconcile_by_index(3, items).unwrap();
    assert_eq!(out, vec![vec![0.0f32, 0.5], vec![1.0, 1.5], vec![2.0, 2.5]]);
}

#[test]
fn reconcile_gives_the_same_result_for_any_arrival_order() {
    let a = vec![
        RQAEmbedding { index: 0, embedding: "zero" },
        RQAEmbedding { index: 1, embedding: "one" },
        RQAEmbedding { index: 2, embedding: "two" },
        RQAEmbedding { index: 3, embedding: "three" },
    ];
    let mut b = a.clone();
    b.reverse();
    let mut c = a.clone();
    c.swap(0, 2);
    c.swap(1, 3);
    let expected = vec!["zero", "one", "two", "three"];
    assert_eq!(reconcile_by_index(4, a), Ok(expected.clone()));
    assert_eq!(reconcile_by_index(4, b), Ok(expected.clone()));
    assert_eq!(reconcile_by_index(4, c), Ok(expected));
}

#[test]
fn reconcile_refuses_what_does_not_name_each_input_once() {
    let dup = vec![
        RQAEmbedding { index: 0, embedding: 1u8 },
        RQAEmbedding { index: 0, embedding: 2u8 },
    ];
    assert_eq!(reconcile_by_index(2, dup), Err(misaligned()));
    let out_of_range = vec![
        RQAEmbedding { index: 0, embedding: 1u8 },
        RQAEmbedding { index: 2, embedding: 2u8 },
    ];
    assert_eq!(reconcile_by_index(2, out_of_range), Err(misaligned()));
    let too_few = vec![RQAEmbedding { index: 0, embedding: 1u8 }];
    assert_eq!(reconcile_by_index(2, too_few), Err(misaligned()));
    let too_many = vec![
        RQAEmbedding { index: 0, embedding: 1u8 },
        RQAEmbedding { index: 1, embedding: 2u8 },
    ];
    assert_eq!(reconcile_by_index(1, too_many), Err(misaligned()));
    let huge = vec![RQAEmbedding { index: u32::MAX, embedding: 1u8 }];
    assert_eq!(reconcile_by_index(1, huge), Err(misaligned()));
}

#[test]
fn reconcile_of_nothing_is_nothing() {
    assert_eq!(reconcile_by_index(0, Vec::<RQAEmbedding<u8>>::new()), Ok(vec![]));
}

#[test]
fn reconcile_handles_a_full_call() {
    let n = 50usize;
    let items: Vec<RQAEmbedding<usize>> =
        (0..n).map(|k| RQAEmbedding { index: ((k * 7) % n) as u32, embedding: (k * 7) % n }).collect();
    let out = reconcile_by_index(n, items).unwrap();
    assert_eq!(out, (0..n).collect::<Vec<usize>>());
}
