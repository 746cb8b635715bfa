use izzy_lancedb::decode::ScoredId;
use izzy_lancedb::decode::ScoredRecord;
use izzy_lancedb::decode::VectorStoreError;
use izzy_lancedb::decode::lancedb_to_izzy_error;
use izzy_lancedb::decode::serde_to_izzy_error;
use izzy_lancedb::decode::usize_to_dec_string;
use izzy_lancedb::index::LanceDbVectorIndex;
use izzy_lancedb::index::filter_embeddings;
use izzy_lancedb::query::QueryOp;
use izzy_lancedb::query::QueryState;
use izzy_lancedb::query::apply_ops;
use izzy_lancedb::query::build_query_ops;
use izzy_lancedb::rows::JsonVal;
use izzy_lancedb::rows::Row;
use izzy_lancedb::seizzyh::DistanceType;
use izzy_lancedb::seizzyh::SeizzyhParams;
use izzy_lancedb::seizzyh::SeizzyhType;

fn row(fields: Vec<(&str, JsonVal)>) -> Row {
    Row { fields: fields.into_iter().map(|(k, v)| (k.to_string(), v)).collect() }
}

#[test]
fn unset_params_issue_no_calls() {
    let params = SeizzyhParams::default();
    let ops = build_query_ops(&params);
    assert!(ops.is_empty());
    let configured = apply_ops(QueryState::unconfigured(), &ops);
    assert_eq!(configured, QueryState::unconfigured());
}

#[test]
fn knobs_without_approximate_issue_no_calls() {
    let params = SeizzyhParams::default().nprobes(12).refine_factor(4);
    let ops = build_query_ops(&params);
    assert!(ops.is_empty());
}

#[test]
fn flat_never_applies_knobs() {
    let params = SeizzyhParams::default()
        .seizzyh_type(SeizzyhType::Flat)
        .nprobes(12)
        .refine_factor(4);
    let ops = build_query_ops(&params);
    assert_eq!(ops, vec![QueryOp::BypassVectorIndex]);
    let configured = apply_ops(QueryState::unconfigured(), &ops);
    assert!(configured.bypass_vector_index);
    assert_eq!(configured.nprobes, None);
    assert_eq!(configured.refine_factor, None);
}

#[test]
fn approximate_applies_knobs_in_order() {
    let params = SeizzyhParams::default()
        .distance_type(DistanceType::Cosine)
        .seizzyh_type(SeizzyhType::Approximate)
        .nprobes(12)
        .refine_factor(4);
    let ops = build_query_ops(&params);
    assert_eq!(
        ops,
        vec![
            QueryOp::DistanceType(DistanceType::Cosine),
            QueryOp::Nprobes(12),
            QueryOp::RefineFactor(4),
        ]
    );
    let configured = apply_ops(QueryState::unconfigured(), &ops);
    assert_eq!(configured.distance_type, Some(DistanceType::Cosine));
    assert_eq!(configured.nprobes, Some(12));
    assert_eq!(configured.refine_factor, Some(4));
    assert!(!configured.bypass_vector_index);
}

#[test]
fn full_params_build_the_whole_pipeline() {
    let params = SeizzyhParams::default()
        .distance_type(DistanceType::L2)
        .seizzyh_type(SeizzyhType::Approximate)
        .nprobes(20)
        .refine_factor(10)
        .post_filter(true)
        .column("vec_a");
    let ops = build_query_ops(&params);
    assert_eq!(
        ops,
        vec![
            QueryOp::DistanceType(DistanceType::L2),
            QueryOp::Nprobes(20),
            QueryOp::RefineFactor(10),
            QueryOp::Postfilter,
            QueryOp::Column("vec_a".to_string()),
        ]
    );
}

#[test]
fn post_filter_false_issues_no_call() {
    let params = SeizzyhParams::default().post_filter(false);
    let ops = build_query_ops(&params);
    assert!(ops.is_empty());
}

#[test]
fn applying_params_is_idempotent_and_pure() {
    let params = SeizzyhParams::default()
        .distance_type(DistanceType::Dot)
        .seizzyh_type(SeizzyhType::Approximate)
        .nprobes(3);
    let ops = build_query_ops(&params);
    let b1 = apply_ops(QueryState::unconfigured(), &ops);
    let b2 = apply_ops(QueryState::unconfigured(), &ops);
    assert_eq!(b1, b2);
    let twice = apply_ops(b1.clone(), &ops);
    assert_eq!(twice, b1);
}

#[test]
fn later_calls_overwrite_earlier_ones() {
    let ops = vec![
        QueryOp::DistanceType(DistanceType::L2),
        QueryOp::DistanceType(DistanceType::Hamming),
    ];
    let configured = apply_ops(QueryState::unconfigured(), &ops);
    assert_eq!(configured.distance_type, Some(DistanceType::Hamming));
}

#[test]
fn build_query_threads_the_builder_through() {
    let index = LanceDbVectorIndex::new(
        "id",
        SeizzyhParams::default()
            .distance_type(DistanceType::Cosine)
            .post_filter(true)
            .column("vec_b"),
    );
    let configured = index.build_query(QueryState::unconfigured());
    assert_eq!(configured.distance_type, Some(DistanceType::Cosine));
    assert!(configured.postfilter);
    assert_eq!(configured.column, Some("vec_b".to_string()));
    assert!(!configured.bypass_vector_index);
    assert_eq!(configured.nprobes, None);
}

#[test]
fn synthesized_ids_carry_multi_digit_positions() {
    let index = LanceDbVectorIndex::new("id", SeizzyhParams::default());
    let rows: Vec<Row> = (0..12).map(|_| row(vec![])).collect();
    let payloads: Vec<Result<(), String>> = rows.iter().map(|_| Ok(())).collect();
    let decoded = index.top_n_decode(&rows, payloads).unwrap();
    assert_eq!(decoded[10].id, "unknown10");
    assert_eq!(decoded[11].id, "unknown11");
}

#[derive(Debug, PartialEq)]
struct TextPayload {
    text: String,
}

#[test]
fn round_trip_row_decodes_to_scored_record() {
    let index = LanceDbVectorIndex::new("id", SeizzyhParams::default());
    let rows = vec![row(vec![
        ("_distance", JsonVal::Num(0.42f64.to_bits())),
        ("id", JsonVal::Str("rec-1".to_string())),
        ("text", JsonVal::Str("hello".to_string())),
    ])];
    let payloads = vec![Ok(TextPayload { text: "hello".to_string() })];
    let decoded = index.top_n_decode(&rows, payloads).unwrap();
    assert_eq!(decoded.len(), 1);
    assert_eq!(f64::from_bits(decoded[0].score_bits), 0.42);
    assert_eq!(decoded[0].id, "rec-1");
    assert_eq!(decoded[0].payload, TextPayload { text: "hello".to_string() });
}

#[test]
fn missing_score_defaults_to_zero() {
    let index = LanceDbVectorIndex::new("id", SeizzyhParams::default());
    let rows = vec![row(vec![("id", JsonVal::Str("rec-2".to_string()))])];
    let payloads: Vec<Result<(), String>> = vec![Ok(())];
    let decoded = index.top_n_decode(&rows, payloads).unwrap();
    assert_eq!(f64::from_bits(decoded[0].score_bits), 0.0);
    assert_eq!(decoded[0].id, "rec-2");
}

#[test]
fn non_numeric_score_defaults_to_zero() {
    let index = LanceDbVectorIndex::new("id", SeizzyhParams::default());
    let rows = vec![row(vec![
        ("_distance", JsonVal::Str("near".to_string())),
        ("id", JsonVal::Str("rec-9".to_string())),
    ])];
    let payloads: Vec<Result<(), String>> = vec![Ok(())];
    let decoded = index.top_n_decode(&rows, payloads).unwrap();
    assert_eq!(f64::from_bits(decoded[0].score_bits), 0.0);
}

#[test]
fn missing_id_is_synthesized_from_position_for_records() {
    let index = LanceDbVectorIndex::new("id", SeizzyhParams::default());
    let with_id = |n: u32| {
        row(vec![
            ("_distance", JsonVal::Num(0.1f64.to_bits())),
            ("id", JsonVal::Str(format!("rec-{n}"))),
        ])
    };
    let rows = vec![
        with_id(0),
        with_id(1),
        with_id(2),
        row(vec![("_distance", JsonVal::Num(0.1f64.to_bits()))]),
    ];
    let payloads: Vec<Result<(), String>> = vec![Ok(()), Ok(()), Ok(()), Ok(())];
    let decoded = index.top_n_decode(&rows, payloads).unwrap();
    assert_eq!(decoded[3].id, "unknown3");
    assert_eq!(f64::from_bits(decoded[3].score_bits), 0.1);
}

#[test]
fn missing_id_is_empty_for_id_only_rows() {
    let index = LanceDbVectorIndex::new("id", SeizzyhParams::default());
    let rows = vec![row(vec![("_distance", JsonVal::Num(0.1f64.to_bits()))])];
    let decoded = index.top_n_ids_decode(&rows);
    assert_eq!(decoded.len(), 1);
    assert_eq!(decoded[0].id, "");
}

#[test]
fn id_only_rows_read_the_distance_field() {
    let index = LanceDbVectorIndex::new("id", SeizzyhParams::default());
    let rows = vec![row(vec![
        ("distance", JsonVal::Num(0.25f64.to_bits())),
        ("id", JsonVal::Str("rec-7".to_string())),
    ])];
    let decoded = index.top_n_ids_decode(&rows);
    assert_eq!(
        decoded,
        vec![ScoredId { score_bits: 0.25f64.to_bits(), id: "rec-7".to_string() }]
    );
}

#[test]
fn malformed_payload_fails_the_whole_batch() {
    let index = LanceDbVectorIndex::new("id", SeizzyhParams::default());
    let rows = vec![
        row(vec![("id", JsonVal::Str("rec-0".to_string()))]),
        row(vec![("id", JsonVal::Str("rec-1".to_string()))]),
    ];
    let payloads: Vec<Result<TextPayload, String>> = vec![
        Ok(TextPayload { text: "fine".to_string() }),
        Err("missing field `text`".to_string()),
    ];
    let result = index.top_n_decode(&rows, payloads);
    assert_eq!(
        result,
        Err(VectorStoreError::JsonError("missing field `text`".to_string()))
    );
}

#[test]
fn first_payload_failure_wins() {
    let index = LanceDbVectorIndex::new("id", SeizzyhParams::default());
    let rows = vec![
        row(vec![]),
        row(vec![]),
        row(vec![]),
    ];
    let payloads: Vec<Result<(), String>> =
        vec![Ok(()), Err("first".to_string()), Err("second".to_string())];
    let result = index.top_n_decode(&rows, payloads);
    assert_eq!(result, Err(VectorStoreError::JsonError("first".to_string())));
}

#[test]
fn decoding_returns_one_record_per_row() {
    let index = LanceDbVectorIndex::new("id", SeizzyhParams::default());
    let n = 5;
    let rows: Vec<Row> = (0..3)
        .map(|i| {
            row(vec![
                ("_distance", JsonVal::Num((i as f64 / 10.0).to_bits())),
                ("id", JsonVal::Str(format!("rec-{i}"))),
            ])
        })
        .collect();
    assert!(rows.len() <= n);
    let request = index.top_n_query(
        n,
        vec!["id".to_string(), "text".to_string()],
        &Vec::new(),
    );
    assert_eq!(request.limit, n);
    let payloads: Vec<Result<(), String>> = rows.iter().map(|_| Ok(())).collect();
    let decoded = index.top_n_decode(&rows, payloads).unwrap();
    assert_eq!(decoded.len(), rows.len());
    assert!(decoded.len() <= n);
}

#[test]
fn concurrent_style_calls_do_not_leak_state() {
    let index = LanceDbVectorIndex::new("id", SeizzyhParams::default());
    let rows_a = vec![row(vec![
        ("distance", JsonVal::Num(0.5f64.to_bits())),
        ("id", JsonVal::Str("a".to_string())),
    ])];
    let rows_b = vec![row(vec![("id", JsonVal::Str("b".to_string()))])];
    let first_a = index.top_n_ids_decode(&rows_a);
    let _interleaved = index.top_n_ids_decode(&rows_b);
    let second_a = index.top_n_ids_decode(&rows_a);
    assert_eq!(first_a, second_a);
    assert_eq!(second_a[0].id, "a");
}

#[test]
fn top_n_query_excludes_embedding_columns() {
    let index = LanceDbVectorIndex::new("id", SeizzyhParams::default().nprobes(2));
    let request = index.top_n_query(
        7,
        vec![
            "id".to_string(),
            "embedding".to_string(),
            "text".to_string(),
        ],
        &vec!["embedding".to_string()],
    );
    assert_eq!(request.select, vec!["id".to_string(), "text".to_string()]);
    assert_eq!(request.limit, 7);
    assert!(request.ops.is_empty());
}

#[test]
fn top_n_ids_query_selects_only_the_id_column() {
    let index = LanceDbVectorIndex::new("doc_id", SeizzyhParams::default());
    let request = index.top_n_ids_query(3);
    assert_eq!(request.select, vec!["doc_id".to_string()]);
    assert_eq!(request.limit, 3);
}

#[test]
fn filter_embeddings_preserves_order() {
    let filtered = filter_embeddings(
        vec![
            "a".to_string(),
            "v1".to_string(),
            "b".to_string(),
            "v2".to_string(),
        ],
        &vec!["v1".to_string(), "v2".to_string()],
    );
    assert_eq!(filtered, vec!["a".to_string(), "b".to_string()]);
}

#[test]
fn decimal_rendering_is_exact() {
    assert_eq!(usize_to_dec_string(0), "0");
    assert_eq!(usize_to_dec_string(7), "7");
    assert_eq!(usize_to_dec_string(42), "42");
    assert_eq!(usize_to_dec_string(1203), "1203");
}

#[test]
fn builder_setters_override_one_field_each() {
    let params = SeizzyhParams::default()
        .distance_type(DistanceType::Cosine)
        .seizzyh_type(SeizzyhType::Approximate)
        .nprobes(8)
        .refine_factor(2)
        .post_filter(true)
        .column("embedding");
    assert_eq!(params.distance_type, Some(DistanceType::Cosine));
    assert!(matches!(params.seizzyh_type, Some(SeizzyhType::Approximate)));
    assert_eq!(params.nprobes, Some(8));
    assert_eq!(params.refine_factor, Some(2));
    assert_eq!(params.post_filter, Some(true));
    assert_eq!(params.column, Some("embedding".to_string()));
}

#[test]
fn error_mapping_preserves_context() {
    assert_eq!(
        lancedb_to_izzy_error("table gone".to_string()),
        VectorStoreError::DatastoreError("table gone".to_string())
    );
    assert_eq!(
        serde_to_izzy_error("bad shape".to_string()),
        VectorStoreError::JsonError("bad shape".to_string())
    );
}

#[test]
fn duplicate_field_names_use_the_first() {
    let index = LanceDbVectorIndex::new("id", SeizzyhParams::default());
    let rows = vec![row(vec![
        ("id", JsonVal::Str("first".to_string())),
        ("id", JsonVal::Str("second".to_string())),
    ])];
    let decoded = index.top_n_ids_decode(&rows);
    assert_eq!(decoded[0].id, "first");
}

#[test]
fn scored_record_carries_the_payload_through() {
    let index = LanceDbVectorIndex::new("id", SeizzyhParams::default());
    let rows = vec![row(vec![("id", JsonVal::Str("rec-1".to_string()))])];
    let payloads = vec![Ok(81u32)];
    let decoded = index.top_n_decode(&rows, payloads).unwrap();
    assert_eq!(
        decoded,
        vec![ScoredRecord { score_bits: 0, id: "rec-1".to_string(), payload: 81u32 }]
    );
}
