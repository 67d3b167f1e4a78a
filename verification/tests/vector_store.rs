use prior_notebook::engine::score::Score;
use prior_notebook::engine::vector_store::{
    search_results, Distance, IndexPoint, PayloadEntry, PayloadValue, PointKey, SearchResult,
    StoredPoint, VectorStore,
};

fn score(value: f32) -> Score {
    Score::from_bits(value.to_bits())
}

fn text(key: &str, value: &str) -> PayloadEntry {
    PayloadEntry { key: key.to_string(), value: PayloadValue::Text(value.to_string()) }
}

fn integer(key: &str, value: i64) -> PayloadEntry {
    PayloadEntry { key: key.to_string(), value: PayloadValue::Integer(value) }
}

const DOC: &str = "550e8400-e29b-41d4-a716-446655440000";
const DOC_ID: u128 = 0x550e8400_e29b_41d4_a716_446655440000;
const POINT: &str = "a1a2a3a4-b1b2-c1c2-d1d2-d3d4d5d6d7d8";
const POINT_ID: u128 = 0xa1a2a3a4_b1b2_c1c2_d1d2_d3d4d5d6d7d8;

fn stored(key: PointKey, payload: Vec<PayloadEntry>) -> StoredPoint {
    StoredPoint { key, score: score(0.5), payload }
}

#[test]
fn a_full_point_is_read() {
    let point = stored(
        PointKey::Uuid(POINT.to_string()),
        vec![text("content", "hello"), integer("chunk_index", 3), text("document_id", DOC)],
    );
    let result = SearchResult::from_stored(&point).unwrap();
    assert_eq!(result.id, POINT_ID);
    assert_eq!(result.document_id, DOC_ID);
    assert_eq!(result.chunk_index, 3);
    assert_eq!(result.content, "hello");
    assert_eq!(result.score.to_bits(), 0.5f32.to_bits());
}

#[test]
fn other_forms_of_identifier_are_read() {
    for form in [
        "550e8400e29b41d4a716446655440000",
        "550E8400-E29B-41D4-A716-446655440000",
        "urn:uuid:550e8400-e29b-41d4-a716-446655440000",
        "{550e8400-e29b-41d4-a716-446655440000}",
    ] {
        let point = stored(PointKey::Uuid(form.to_string()), vec![text("document_id", form)]);
        let result = SearchResult::from_stored(&point).unwrap();
        assert_eq!(result.id, DOC_ID);
        assert_eq!(result.document_id, DOC_ID);
    }
}

#[test]
fn missing_fields_get_defaults() {
    let point = stored(PointKey::Uuid(POINT.to_string()), vec![text("document_id", DOC)]);
    let result = SearchResult::from_stored(&point).unwrap();
    assert_eq!(result.chunk_index, 0);
    assert_eq!(result.content, "");
    let odd = stored(
        PointKey::Uuid(POINT.to_string()),
        vec![
            text("document_id", DOC),
            text("chunk_index", "7"),
            integer("content", 1),
            PayloadEntry { key: "extra".to_string(), value: PayloadValue::Other },
        ],
    );
    let result = SearchResult::from_stored(&odd).unwrap();
    assert_eq!(result.chunk_index, 0);
    assert_eq!(result.content, "");
}

#[test]
fn points_that_do_not_count_are_dropped() {
    assert!(SearchResult::from_stored(&stored(PointKey::Other, vec![text("document_id", DOC)])).is_none());
    assert!(SearchResult::from_stored(&stored(
        PointKey::Uuid("not an id".to_string()),
        vec![text("document_id", DOC)]
    ))
    .is_none());
    assert!(SearchResult::from_stored(&stored(PointKey::Uuid(POINT.to_string()), vec![])).is_none());
    assert!(SearchResult::from_stored(&stored(
        PointKey::Uuid(POINT.to_string()),
        vec![integer("document_id", 5)]
    ))
    .is_none());
    assert!(SearchResult::from_stored(&stored(
        PointKey::Uuid(POINT.to_string()),
        vec![text("document_id", "zzz")]
    ))
    .is_none());
}

#[test]
fn the_first_entry_of_a_name_counts() {
    let point = stored(
        PointKey::Uuid(POINT.to_string()),
        vec![text("document_id", DOC), text("content", "first"), text("content", "second")],
    );
    assert_eq!(SearchResult::from_stored(&point).unwrap().content, "first");
}

#[test]
fn negative_indexes_wrap() {
    let point = stored(
        PointKey::Uuid(POINT.to_string()),
        vec![text("document_id", DOC), integer("chunk_index", -1)],
    );
    assert_eq!(SearchResult::from_stored(&point).unwrap().chunk_index, (-1i64) as usize);
    let point = stored(
        PointKey::Uuid(POINT.to_string()),
        vec![text("document_id", DOC), integer("chunk_index", i64::MIN)],
    );
    assert_eq!(SearchResult::from_stored(&point).unwrap().chunk_index, i64::MIN as usize);
}

#[test]
fn search_results_keep_order() {
    let points = vec![
        stored(PointKey::Uuid(POINT.to_string()), vec![text("document_id", DOC), text("content", "a")]),
        stored(PointKey::Other, vec![text("document_id", DOC), text("content", "b")]),
        stored(PointKey::Uuid(DOC.to_string()), vec![text("document_id", DOC), text("content", "c")]),
    ];
    let results = search_results(&points);
    let contents: Vec<&str> = results.iter().map(|r| r.content.as_str()).collect();
    assert_eq!(contents, vec!["a", "c"]);
    assert!(search_results(&Vec::new()).is_empty());
    let store = VectorStore::new("c", 4);
    assert_eq!(store.search(&points).len(), 2);
}

#[test]
fn index_point_payload() {
    let point = IndexPoint {
        id: POINT_ID,
        document_id: DOC_ID,
        chunk_index: 12,
        content: "some text".to_string(),
        vector: vec![1, 2],
    };
    assert_eq!(point.key_text(), POINT);
    let payload = point.payload();
    assert_eq!(payload.len(), 3);
    assert_eq!(payload[0].key, "document_id");
    assert!(matches!(&payload[0].value, PayloadValue::Text(t) if t == DOC));
    assert_eq!(payload[1].key, "chunk_index");
    assert!(matches!(&payload[1].value, PayloadValue::Integer(12)));
    assert_eq!(payload[2].key, "content");
    assert!(matches!(&payload[2].value, PayloadValue::Text(t) if t == "some text"));
}

#[test]
fn huge_indexes_are_stored_as_their_bits() {
    let point = IndexPoint {
        id: 1,
        document_id: 2,
        chunk_index: usize::MAX,
        content: String::new(),
        vector: Vec::new(),
    };
    let payload = point.payload();
    assert!(matches!(&payload[1].value, PayloadValue::Integer(v) if *v == usize::MAX as i64));
}

#[test]
fn what_is_written_reads_back() {
    let store = VectorStore::new("notes", 384);
    let record = store.upsert(POINT_ID, DOC_ID, usize::MAX - 3, "héllo", vec![7, 8, 9]);
    assert_eq!(record.key, POINT);
    assert_eq!(record.vector, vec![7, 8, 9]);
    let point = StoredPoint {
        key: PointKey::Uuid(record.key.clone()),
        score: score(0.25),
        payload: record.payload.clone(),
    };
    let result = SearchResult::from_stored(&point).unwrap();
    assert_eq!(result.id, POINT_ID);
    assert_eq!(result.document_id, DOC_ID);
    assert_eq!(result.chunk_index, usize::MAX - 3);
    assert_eq!(result.content, "héllo");
}

#[test]
fn upserting_the_same_id_twice_yields_the_same_key() {
    let store = VectorStore::new("notes", 2);
    let first = store.upsert(POINT_ID, DOC_ID, 0, "old", vec![1, 2]);
    let second = store.upsert(POINT_ID, DOC_ID, 0, "new", vec![3, 4]);
    assert_eq!(first.key, second.key);
    assert!(matches!(&second.payload[2].value, PayloadValue::Text(t) if t == "new"));
}

#[test]
fn batches_keep_order() {
    let store = VectorStore::new("notes", 2);
    let points: Vec<IndexPoint> = (0..3)
        .map(|i| IndexPoint {
            id: i as u128,
            document_id: 9,
            chunk_index: i,
            content: format!("c{}", i),
            vector: vec![i as u32],
        })
        .collect();
    let records = store.upsert_batch(points);
    assert_eq!(records.len(), 3);
    assert_eq!(records[2].key, "00000000-0000-0000-0000-000000000002");
    assert_eq!(records[2].vector, vec![2]);
    assert!(store.upsert_batch(Vec::new()).is_empty());
}

#[test]
fn collection_is_created_once() {
    let store = VectorStore::new("notes", 384);
    assert_eq!(store.collection_name(), "notes");
    assert!(store.ensure_collection(true).is_none());
    let spec = store.ensure_collection(false).unwrap();
    assert_eq!(spec.name, "notes");
    assert_eq!(spec.size, 384);
    assert_eq!(spec.distance, Distance::Cosine);
}

#[test]
fn delete_matches_the_document() {
    let store = VectorStore::new("notes", 384);
    let filter = store.delete_by_document(DOC_ID);
    assert_eq!(filter.field, "document_id");
    assert_eq!(filter.value, DOC);
    assert_eq!(VectorStore::search_limit(10), 10);
}
