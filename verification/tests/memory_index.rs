use prior_notebook::engine::memory_index::MemoryIndex;
use prior_notebook::engine::score::Score;
use prior_notebook::engine::vector_store::IndexPoint;

fn point(id: u128, document_id: u128, content: &str) -> IndexPoint {
    IndexPoint {
        id,
        document_id,
        chunk_index: 0,
        content: content.to_string(),
        vector: vec![id as u32],
    }
}

fn scores(values: &[f32]) -> Vec<Score> {
    values.iter().map(|v| Score::from_bits(v.to_bits())).collect()
}

#[test]
fn upserting_an_id_twice_overwrites() {
    let mut index = MemoryIndex::new();
    assert_eq!(index.len(), 0);
    index.upsert(point(1, 10, "old"));
    index.upsert(point(2, 10, "other"));
    index.upsert(point(1, 10, "new"));
    assert_eq!(index.len(), 2);
    assert_eq!(index.content_of(1).as_deref(), Some("new"));
    assert_eq!(index.content_of(2).as_deref(), Some("other"));
    assert_eq!(index.content_of(3), None);
    let found = index.search(&scores(&[0.9, 0.8]), 10);
    let with_id: Vec<&str> =
        found.iter().filter(|r| r.id == 1).map(|r| r.content.as_str()).collect();
    assert_eq!(with_id, vec!["new"]);
}

#[test]
fn batches_are_written_in_order() {
    let mut index = MemoryIndex::new();
    index.upsert_batch(vec![point(1, 10, "a"), point(2, 10, "b"), point(1, 11, "c")]);
    assert_eq!(index.len(), 2);
    assert_eq!(index.content_of(1).as_deref(), Some("c"));
    index.upsert_batch(Vec::new());
    assert_eq!(index.len(), 2);
    let found = index.search(&scores(&[0.5, 0.5]), 2);
    assert_eq!(found[0].id, 1);
    assert_eq!(found[0].document_id, 11);
    assert_eq!(found[1].id, 2);
}

#[test]
fn search_ranks_by_score() {
    let mut index = MemoryIndex::new();
    index.upsert_batch(vec![
        point(1, 10, "a"),
        point(2, 10, "b"),
        point(3, 11, "c"),
        point(4, 11, "d"),
        point(5, 12, "e"),
    ]);
    let given = scores(&[0.1, 0.9, f32::NAN, 0.9, -0.5]);
    let found = index.search(&given, 10);
    let ids: Vec<u128> = found.iter().map(|r| r.id).collect();
    assert_eq!(ids, vec![2, 4, 1, 5, 3]);
    assert_eq!(found[0].score.to_bits(), 0.9f32.to_bits());
    assert_eq!(found[0].content, "b");
    let top: Vec<u128> = index.search(&given, 2).iter().map(|r| r.id).collect();
    assert_eq!(top, vec![2, 4]);
    assert!(index.search(&given, 0).is_empty());
    assert!(index.search(&scores(&[0.1]), 3).is_empty());
    assert!(MemoryIndex::new().search(&Vec::new(), 3).is_empty());
}

#[test]
fn a_documents_points_are_removed_together() {
    let mut index = MemoryIndex::new();
    index.upsert_batch(vec![
        point(1, 10, "a"),
        point(2, 11, "b"),
        point(3, 10, "c"),
        point(4, 12, "d"),
    ]);
    index.delete_by_document(10);
    assert_eq!(index.len(), 2);
    assert_eq!(index.content_of(1), None);
    assert_eq!(index.content_of(3), None);
    let ids: Vec<u128> = index.search(&scores(&[0.5, 0.5]), 5).iter().map(|r| r.id).collect();
    assert_eq!(ids, vec![2, 4]);
    index.delete_by_document(99);
    assert_eq!(index.len(), 2);
    index.upsert(point(1, 10, "again"));
    assert_eq!(index.len(), 3);
}
