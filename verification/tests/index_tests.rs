use cacherch::errors::CacherchError;
use cacherch::indexer::{index_dir, write_index, DirEntry, Document, Walk, WalkEvent, WalkRequest};
use cacherch::searcher::{query_index, within_nesting};
use cacherch::types::SearchResult;

fn file(path: &str) -> DirEntry {
    DirEntry { path: path.to_string(), is_dir: false, is_file: true }
}

fn dir(path: &str) -> DirEntry {
    DirEntry { path: path.to_string(), is_dir: true, is_file: false }
}

/// Walks a tree given as listings and contents, the way a caller would.
fn walk_over(root: &str, listings: &[(&str, Vec<DirEntry>)], contents: &[(&str, &str)]) -> Walk {
    let mut walk = index_dir(root, false);
    loop {
        let path = walk.current_path().cloned().unwrap_or_default();
        let event = match walk.request() {
            WalkRequest::Finish => return walk,
            WalkRequest::FlushCache => WalkEvent::CacheFlushed,
            WalkRequest::ListDir => {
                let found = listings.iter().find(|(p, _)| *p == path.as_str());
                match found {
                    Some((_, entries)) => WalkEvent::Listed(Ok(entries
                        .iter()
                        .map(|e| DirEntry { path: e.path.clone(), is_dir: e.is_dir, is_file: e.is_file })
                        .collect())),
                    None => WalkEvent::Listed(Err(format!("cannot list {}", path))),
                }
            }
            WalkRequest::ReadText | WalkRequest::ExtractPdf => {
                match contents.iter().find(|(p, _)| *p == path.as_str()) {
                    Some((_, text)) => WalkEvent::Content(Ok(text.to_string())),
                    None => WalkEvent::Content(Err(format!("cannot read {}", path))),
                }
            }
        };
        walk = walk.advance(event);
    }
}

fn fruit_walk() -> Walk {
    walk_over(
        "/fruit",
        &[("/fruit", vec![file("/fruit/a.txt"), file("/fruit/b.txt")])],
        &[("/fruit/a.txt", "apple banana"), ("/fruit/b.txt", "banana cherry")],
    )
}

fn titles(results: &[SearchResult]) -> Vec<String> {
    let mut titles: Vec<String> = results.iter().map(|r| r.title().clone()).collect();
    titles.sort();
    titles
}

#[test]
fn banana_matches_both_files_and_apple_only_one() {
    let index = tempfile::tempdir().unwrap();
    let at = index.path().to_str().unwrap();
    let built = fruit_walk().build(at).unwrap().unwrap();
    assert_eq!(built.indexed, 2);

    let banana = query_index(at, "banana", 5).unwrap();
    assert_eq!(titles(&banana), vec!["a.txt".to_string(), "b.txt".to_string()]);

    let apple = query_index(at, "apple", 5).unwrap();
    assert_eq!(apple.len(), 1);
    assert_eq!(apple[0].title(), "a.txt");
    assert_eq!(apple[0].path(), "/fruit/a.txt");
}

#[test]
fn csv_file_fails_the_build_and_leaves_the_index_untouched() {
    let index = tempfile::tempdir().unwrap();
    let at = index.path().to_str().unwrap();
    fruit_walk().build(at).unwrap().unwrap();

    let walk = walk_over(
        "/more",
        &[("/more", vec![file("/more/c.txt"), file("/more/table.csv")])],
        &[("/more/c.txt", "damson elderberry")],
    );
    assert_eq!(
        walk.build(at),
        Some(Err(CacherchError::UnsupportedExtension("csv".to_string())))
    );

    assert_eq!(query_index(at, "apple", 5).unwrap().len(), 1);
    assert_eq!(query_index(at, "banana", 5).unwrap().len(), 2);
    assert_eq!(query_index(at, "damson", 5).unwrap().len(), 0);
}

#[test]
fn rebuilding_with_flush_gives_the_same_count_and_results() {
    let index = tempfile::tempdir().unwrap();
    let at = index.path().to_str().unwrap();
    let mut walk = index_dir("/fruit", true);
    assert_eq!(walk.request(), WalkRequest::FlushCache);
    walk = walk.advance(WalkEvent::CacheFlushed);
    walk = walk.advance(WalkEvent::Listed(Ok(vec![file("/fruit/a.txt"), file("/fruit/b.txt")])));
    walk = walk.advance(WalkEvent::Content(Ok("apple banana".to_string())));
    walk = walk.advance(WalkEvent::Content(Ok("banana cherry".to_string())));
    assert!(walk.flush_before_build());
    let first = walk.build(at).unwrap().unwrap();
    let before = query_index(at, "banana", 5).unwrap();

    let mut walk = index_dir("/fruit", true);
    walk = walk.advance(WalkEvent::CacheFlushed);
    walk = walk.advance(WalkEvent::Listed(Ok(vec![file("/fruit/a.txt"), file("/fruit/b.txt")])));
    walk = walk.advance(WalkEvent::Content(Ok("apple banana".to_string())));
    walk = walk.advance(WalkEvent::Content(Ok("banana cherry".to_string())));
    let second = walk.build(at).unwrap().unwrap();
    let after = query_index(at, "banana", 5).unwrap();

    assert_eq!(first, second);
    assert_eq!(second.indexed, 2);
    assert_eq!(after.len(), 2);
    assert_eq!(titles(&before), titles(&after));
    let scores_before: Vec<u32> = before.iter().map(|r| r.score()).collect();
    let scores_after: Vec<u32> = after.iter().map(|r| r.score()).collect();
    assert_eq!(scores_before, scores_after);
}

#[test]
fn building_without_flush_keeps_what_was_there() {
    let index = tempfile::tempdir().unwrap();
    let at = index.path().to_str().unwrap();
    fruit_walk().build(at).unwrap().unwrap();
    let more = walk_over(
        "/more",
        &[("/more", vec![file("/more/c.txt")])],
        &[("/more/c.txt", "cherry damson")],
    );
    assert_eq!(more.build(at).unwrap().unwrap().indexed, 1);
    assert_eq!(query_index(at, "apple", 5).unwrap().len(), 1);
    assert_eq!(titles(&query_index(at, "cherry", 5).unwrap()), vec!["b.txt", "c.txt"]);
}

#[test]
fn unique_body_term_finds_its_document_with_positive_score() {
    let index = tempfile::tempdir().unwrap();
    let at = index.path().to_str().unwrap();
    fruit_walk().build(at).unwrap().unwrap();
    let found = query_index(at, "cherry", 1).unwrap();
    assert_eq!(found.len(), 1);
    assert_eq!(found[0].path(), "/fruit/b.txt");
    assert!(f32::from_bits(found[0].score()) > 0.0);
}

#[test]
fn title_is_searched_too() {
    let index = tempfile::tempdir().unwrap();
    let at = index.path().to_str().unwrap();
    let walk = walk_over(
        "/d",
        &[("/d", vec![file("/d/quince.txt"), file("/d/other.txt")])],
        &[("/d/quince.txt", "nothing here"), ("/d/other.txt", "nor here")],
    );
    walk.build(at).unwrap().unwrap();
    let found = query_index(at, "quince", 5).unwrap();
    assert_eq!(titles(&found), vec!["quince.txt"]);
}

#[test]
fn path_is_kept_but_not_searched() {
    let index = tempfile::tempdir().unwrap();
    let at = index.path().to_str().unwrap();
    let walk = walk_over(
        "/orchard",
        &[("/orchard", vec![file("/orchard/a.txt")])],
        &[("/orchard/a.txt", "apple")],
    );
    walk.build(at).unwrap().unwrap();
    assert_eq!(query_index(at, "orchard", 5).unwrap().len(), 0);
    assert_eq!(query_index(at, "apple", 5).unwrap()[0].path(), "/orchard/a.txt");
}

#[test]
fn no_match_is_an_empty_list_not_an_error() {
    let index = tempfile::tempdir().unwrap();
    let at = index.path().to_str().unwrap();
    fruit_walk().build(at).unwrap().unwrap();
    assert_eq!(query_index(at, "zucchini", 5), Ok(Vec::new()));
}

#[test]
fn limit_bounds_the_answer() {
    let index = tempfile::tempdir().unwrap();
    let at = index.path().to_str().unwrap();
    fruit_walk().build(at).unwrap().unwrap();
    assert_eq!(query_index(at, "banana", 1).unwrap().len(), 1);
    assert_eq!(query_index(at, "banana", 2).unwrap().len(), 2);
    assert_eq!(query_index(at, "banana", 0), Ok(Vec::new()));
}

#[test]
fn results_come_best_first() {
    let index = tempfile::tempdir().unwrap();
    let at = index.path().to_str().unwrap();
    let walk = walk_over(
        "/d",
        &[("/d", vec![file("/d/one.txt"), file("/d/many.txt")])],
        &[("/d/one.txt", "plum and a lot of other words around it"), ("/d/many.txt", "plum plum plum")],
    );
    walk.build(at).unwrap().unwrap();
    let found = query_index(at, "plum", 5).unwrap();
    assert_eq!(found.len(), 2);
    assert_eq!(found[0].title(), "many.txt");
    assert!(f32::from_bits(found[0].score()) >= f32::from_bits(found[1].score()));
}

#[test]
fn query_without_an_index_is_index_not_found() {
    let empty = tempfile::tempdir().unwrap();
    let at = empty.path().to_str().unwrap();
    assert_eq!(query_index(at, "banana", 5), Err(CacherchError::IndexNotFound));
    let nowhere = empty.path().join("absent");
    assert_eq!(
        query_index(nowhere.to_str().unwrap(), "banana", 5),
        Err(CacherchError::IndexNotFound)
    );
}

#[test]
fn malformed_query_is_a_parse_error() {
    let index = tempfile::tempdir().unwrap();
    let at = index.path().to_str().unwrap();
    fruit_walk().build(at).unwrap().unwrap();
    assert!(matches!(query_index(at, "nosuchfield:banana", 5), Err(CacherchError::QueryParse(_))));
    assert!(matches!(query_index(at, "title:[a TO", 5), Err(CacherchError::QueryParse(_))));
    assert!(matches!(query_index(at, "nosuchfield:banana", 0), Err(CacherchError::QueryParse(_))));
}

#[test]
fn writing_into_a_missing_directory_is_a_storage_error() {
    let base = tempfile::tempdir().unwrap();
    let nowhere = base.path().join("absent");
    let docs = vec![Document::for_file("/d/a.txt".to_string(), "apple".to_string()).unwrap()];
    assert!(matches!(
        write_index(nowhere.to_str().unwrap(), &docs, false),
        Err(CacherchError::IndexStorage(_))
    ));
}

#[test]
fn writing_no_documents_makes_an_empty_index() {
    let index = tempfile::tempdir().unwrap();
    let at = index.path().to_str().unwrap();
    assert_eq!(write_index(at, &Vec::new(), false).unwrap().indexed, 0);
    assert_eq!(query_index(at, "banana", 5), Ok(Vec::new()));
}

#[test]
fn flush_drops_what_the_index_held() {
    let index = tempfile::tempdir().unwrap();
    let at = index.path().to_str().unwrap();
    fruit_walk().build(at).unwrap().unwrap();
    let docs = vec![Document::for_file("/d/c.txt".to_string(), "cherry".to_string()).unwrap()];
    assert_eq!(write_index(at, &docs, true).unwrap().indexed, 1);
    assert_eq!(query_index(at, "apple", 5), Ok(Vec::new()));
    assert_eq!(titles(&query_index(at, "cherry", 5).unwrap()), vec!["c.txt"]);
}

#[test]
fn batch_publishes_nothing_before_its_commit() {
    let index = tempfile::tempdir().unwrap();
    let at = index.path().to_str().unwrap();
    fruit_walk().build(at).unwrap().unwrap();

    let mut batch = cacherch::indexer::IndexBatch::open(at, true).unwrap();
    let doc = Document::for_file("/d/c.txt".to_string(), "cherry damson".to_string()).unwrap();
    assert_eq!(batch.add(&doc), Ok(()));
    assert_eq!(query_index(at, "apple", 5).unwrap().len(), 1);
    assert_eq!(query_index(at, "damson", 5).unwrap().len(), 0);

    assert_eq!(batch.commit(), Ok(()));
    assert_eq!(query_index(at, "apple", 5).unwrap().len(), 0);
    assert_eq!(titles(&query_index(at, "damson", 5).unwrap()), vec!["c.txt"]);
}

#[test]
fn batch_that_is_dropped_leaves_the_index_as_it_was() {
    let index = tempfile::tempdir().unwrap();
    let at = index.path().to_str().unwrap();
    fruit_walk().build(at).unwrap().unwrap();
    {
        let mut batch = cacherch::indexer::IndexBatch::open(at, true).unwrap();
        let docs = vec![Document::for_file("/d/c.txt".to_string(), "damson".to_string()).unwrap()];
        assert_eq!(batch.add_all(&docs), Ok(()));
    }
    assert_eq!(query_index(at, "banana", 5).unwrap().len(), 2);
    assert_eq!(query_index(at, "damson", 5).unwrap().len(), 0);
}

#[test]
fn second_writer_on_one_index_is_a_storage_error() {
    let index = tempfile::tempdir().unwrap();
    let at = index.path().to_str().unwrap();
    let mut first = cacherch::indexer::IndexBatch::open(at, false).unwrap();
    assert!(matches!(
        cacherch::indexer::IndexBatch::open(at, false),
        Err(CacherchError::IndexStorage(_))
    ));
    assert_eq!(first.commit(), Ok(()));
}

#[test]
fn snapshot_does_not_see_later_commits() {
    let index = tempfile::tempdir().unwrap();
    let at = index.path().to_str().unwrap();
    fruit_walk().build(at).unwrap().unwrap();
    let snapshot = cacherch::searcher::IndexSnapshot::open(at).unwrap();
    assert_eq!(snapshot.query("banana", 5).unwrap().len(), 2);

    let docs = vec![Document::for_file("/d/c.txt".to_string(), "banana".to_string()).unwrap()];
    write_index(at, &docs, true).unwrap();
    assert_eq!(snapshot.query("banana", 5).unwrap().len(), 2);
    assert_eq!(query_index(at, "banana", 5).unwrap().len(), 1);
}

#[test]
fn snapshot_of_a_foreign_index_is_a_storage_error() {
    let index = tempfile::tempdir().unwrap();
    let at = index.path().to_str().unwrap();
    let mut builder = tantivy::schema::Schema::builder();
    builder.add_text_field("headline", tantivy::schema::TEXT);
    tantivy::Index::create_in_dir(at, builder.build()).unwrap();
    assert!(matches!(
        cacherch::searcher::IndexSnapshot::open(at),
        Err(CacherchError::IndexStorage(_))
    ));
    let docs = vec![Document::for_file("/d/c.txt".to_string(), "banana".to_string()).unwrap()];
    assert!(matches!(write_index(at, &docs, false), Err(CacherchError::IndexStorage(_))));
}

#[test]
fn title_match_outranks_body_match() {
    let index = tempfile::tempdir().unwrap();
    let at = index.path().to_str().unwrap();
    let walk = walk_over(
        "/d",
        &[("/d", vec![file("/d/notes.txt"), file("/d/plum.txt")])],
        &[("/d/notes.txt", "plum"), ("/d/plum.txt", "nothing of the kind")],
    );
    walk.build(at).unwrap().unwrap();
    let found = query_index(at, "plum", 5).unwrap();
    assert_eq!(found.len(), 2);
    assert_eq!(found[0].title(), "plum.txt");
    assert_eq!(found[1].title(), "notes.txt");
    assert!(f32::from_bits(found[0].score()) > f32::from_bits(found[1].score()));
    assert_eq!(cacherch::searcher::TITLE_BOOST, 2);
}

#[test]
fn same_query_on_same_index_gives_same_scores() {
    let index = tempfile::tempdir().unwrap();
    let at = index.path().to_str().unwrap();
    fruit_walk().build(at).unwrap().unwrap();
    let first = query_index(at, "banana apple", 5).unwrap();
    let second = query_index(at, "banana apple", 5).unwrap();
    assert_eq!(first, second);
    assert_eq!(first[0].title(), "a.txt");
}

#[test]
fn snapshot_answers_one_query_one_way() {
    let index = tempfile::tempdir().unwrap();
    let at = index.path().to_str().unwrap();
    fruit_walk().build(at).unwrap().unwrap();
    let snapshot = cacherch::searcher::IndexSnapshot::open(at).unwrap();
    let first = snapshot.query("banana cherry", 5).unwrap();
    let second = snapshot.query("banana cherry", 5).unwrap();
    assert_eq!(first, second);
    assert_eq!(first.len(), 2);
    assert_eq!(first[0].title(), "b.txt");
    let one = snapshot.query("banana cherry", 1).unwrap();
    assert_eq!(one.len(), 1);
    assert_eq!(one[0], first[0]);
    assert!(matches!(snapshot.query("nosuchfield:x", 5), Err(CacherchError::QueryParse(_))));
    assert!(matches!(snapshot.query("nosuchfield:x", 0), Err(CacherchError::QueryParse(_))));
}

#[test]
fn batch_can_be_filled_again_after_its_commit() {
    let index = tempfile::tempdir().unwrap();
    let at = index.path().to_str().unwrap();
    fruit_walk().build(at).unwrap().unwrap();
    let mut batch = cacherch::indexer::IndexBatch::open(at, true).unwrap();
    let c = Document::for_file("/d/c.txt".to_string(), "cherry".to_string()).unwrap();
    assert_eq!(batch.add(&c), Ok(()));
    assert_eq!(batch.commit(), Ok(()));
    assert_eq!(query_index(at, "banana", 5), Ok(Vec::new()));

    let d = Document::for_file("/d/d.txt".to_string(), "damson".to_string()).unwrap();
    assert_eq!(batch.add(&d), Ok(()));
    assert_eq!(batch.commit(), Ok(()));
    assert_eq!(titles(&query_index(at, "cherry", 5).unwrap()), vec!["c.txt"]);
    assert_eq!(titles(&query_index(at, "damson", 5).unwrap()), vec!["d.txt"]);
}

#[test]
fn adding_no_documents_succeeds() {
    let index = tempfile::tempdir().unwrap();
    let at = index.path().to_str().unwrap();
    let mut batch = cacherch::indexer::IndexBatch::open(at, false).unwrap();
    assert_eq!(batch.add_all(&Vec::new()), Ok(()));
    assert_eq!(batch.commit(), Ok(()));
}

#[test]
fn filled_batch_is_not_visible_until_committed() {
    let index = tempfile::tempdir().unwrap();
    let at = index.path().to_str().unwrap();
    fruit_walk().build(at).unwrap().unwrap();
    let docs = vec![Document::for_file("/d/c.txt".to_string(), "damson".to_string()).unwrap()];
    let mut batch = cacherch::indexer::fill_batch(at, &docs, true).unwrap();
    assert_eq!(query_index(at, "banana", 5).unwrap().len(), 2);
    assert_eq!(query_index(at, "damson", 5).unwrap().len(), 0);
    assert_eq!(batch.commit(), Ok(()));
    assert_eq!(query_index(at, "banana", 5).unwrap().len(), 0);
    assert_eq!(query_index(at, "damson", 5).unwrap().len(), 1);
}

#[test]
fn walk_fills_the_batch_that_the_build_commits() {
    let index = tempfile::tempdir().unwrap();
    let at = index.path().to_str().unwrap();
    let mut batch = fruit_walk().fill(at).unwrap().unwrap();
    assert_eq!(query_index(at, "banana", 5), Ok(Vec::new()));
    assert_eq!(batch.commit(), Ok(()));
    assert_eq!(query_index(at, "banana", 5).unwrap().len(), 2);
    assert!(index_dir("/r", false).fill(at).is_none());
}

#[test]
fn index_with_other_fields_is_refused_for_writing() {
    let index = tempfile::tempdir().unwrap();
    let at = index.path().to_str().unwrap();
    let mut builder = tantivy::schema::Schema::builder();
    builder.add_text_field("title", tantivy::schema::TEXT | tantivy::schema::STORED);
    builder.add_text_field("body", tantivy::schema::TEXT | tantivy::schema::STORED);
    builder.add_text_field("path", tantivy::schema::STORED);
    tantivy::Index::create_in_dir(at, builder.build()).unwrap();
    assert!(matches!(
        cacherch::indexer::IndexBatch::open(at, false),
        Err(CacherchError::IndexStorage(_))
    ));
}

#[test]
fn body_is_searched_but_not_kept() {
    let index = tempfile::tempdir().unwrap();
    let at = index.path().to_str().unwrap();
    fruit_walk().build(at).unwrap().unwrap();
    let opened = tantivy::Index::open_in_dir(at).unwrap();
    let schema = opened.schema();
    let names: Vec<(String, bool, bool)> = schema
        .fields()
        .map(|(_, entry)| (entry.name().to_string(), entry.is_indexed(), entry.is_stored()))
        .collect();
    assert_eq!(
        names,
        vec![
            ("title".to_string(), true, true),
            ("body".to_string(), true, false),
            ("path".to_string(), false, true),
        ]
    );
}

#[test]
fn flush_replaces_an_index_with_other_fields() {
    let index = tempfile::tempdir().unwrap();
    let at = index.path().to_str().unwrap();
    let mut builder = tantivy::schema::Schema::builder();
    let headline = builder.add_text_field("headline", tantivy::schema::TEXT | tantivy::schema::STORED);
    let foreign = tantivy::Index::create_in_dir(at, builder.build()).unwrap();
    {
        let mut writer: tantivy::IndexWriter = foreign.writer(50_000_000).unwrap();
        let mut doc = tantivy::TantivyDocument::default();
        doc.add_text(headline, "banana");
        writer.add_document(doc).unwrap();
        writer.commit().unwrap();
    }
    drop(foreign);
    let docs = vec![Document::for_file("/d/c.txt".to_string(), "cherry".to_string()).unwrap()];
    assert!(matches!(write_index(at, &docs, false), Err(CacherchError::IndexStorage(_))));
    assert_eq!(write_index(at, &docs, true).unwrap().indexed, 1);
    assert_eq!(titles(&query_index(at, "cherry", 5).unwrap()), vec!["c.txt"]);
    assert_eq!(query_index(at, "banana", 5), Ok(Vec::new()));
}

#[test]
fn query_that_nests_too_deep_is_a_parse_error() {
    let index = tempfile::tempdir().unwrap();
    let at = index.path().to_str().unwrap();
    fruit_walk().build(at).unwrap().unwrap();
    let eight = format!("{}banana{}", "(".repeat(8), ")".repeat(8));
    assert_eq!(query_index(at, &eight, 5).unwrap().len(), 2);
    let nine = format!("{}banana{}", "(".repeat(9), ")".repeat(9));
    assert_eq!(
        query_index(at, &nine, 5),
        Err(CacherchError::QueryParse("the query nests too deep".to_string()))
    );
    let deep = "(".repeat(100_000);
    assert!(matches!(query_index(at, &deep, 5), Err(CacherchError::QueryParse(_))));
    let negated = format!("banana {}apple", "NOT ".repeat(9));
    assert!(matches!(query_index(at, &negated, 5), Err(CacherchError::QueryParse(_))));
}

#[test]
fn words_that_hold_not_do_not_count_as_nesting() {
    assert!(within_nesting(""));
    assert!(within_nesting("NOTES NOTHING NOTICE NOTION NOTABLE NOTARY NOTCH NOTED NOTE"));
    assert!(within_nesting("NOT a NOT b (c) (d) (e) (f) NOT\tg NOT"));
    assert!(!within_nesting("NOT a NOT b (c) (d) (e) (f) NOT\tg NOT\nh NOT\ri"));
    assert!(within_nesting("(((((((("));
    assert!(!within_nesting("((((((((("));
    assert!(within_nesting("été (("));
}

#[test]
fn no_hits_load_as_an_empty_list() {
    let index = tempfile::tempdir().unwrap();
    let at = index.path().to_str().unwrap();
    fruit_walk().build(at).unwrap().unwrap();
    let snapshot = cacherch::searcher::IndexSnapshot::open(at).unwrap();
    assert_eq!(snapshot.load_results(&Vec::new(), 5), Ok(Vec::new()));
}
