use std::collections::HashMap;

use search_sync::batch::chunk_rows;
use search_sync::models::{Author, Book, ColumnValue, Genre, Sequence, SourceRow};
use search_sync::pipeline::{
    map_batch, plan_commands, reduce_outcomes, IndexCommand, LoadPhase, PipelineError,
};

fn book_row(id: i32, title: &str) -> SourceRow {
    SourceRow {
        columns: vec![
            ColumnValue::Int(id),
            ColumnValue::Text(title.to_string()),
            ColumnValue::Text("en".to_string()),
            ColumnValue::IntArray(vec![]),
        ],
    }
}

fn bad_row() -> SourceRow {
    SourceRow { columns: vec![ColumnValue::BigInt(0)] }
}

fn numbered_rows(n: i32) -> Vec<SourceRow> {
    let mut rows = Vec::new();
    let mut id: i32 = 0;
    while id < n {
        rows.push(book_row(id, "title"));
        id += 1;
    }
    rows
}

#[test]
fn chunking_exact_multiple_has_no_tail() {
    let items: Vec<i32> = (0..1024).collect();
    let batches = chunk_rows(items, 1024);
    assert_eq!(batches.len(), 1);
    assert_eq!(batches[0].len(), 1024);
    let items: Vec<i32> = (0..2048).collect();
    let batches = chunk_rows(items, 1024);
    assert_eq!(batches.len(), 2);
    assert_eq!(batches[0].len(), 1024);
    assert_eq!(batches[1].len(), 1024);
}

#[test]
fn chunking_one_over_gives_tail_of_one() {
    let items: Vec<i32> = (0..1025).collect();
    let batches = chunk_rows(items, 1024);
    assert_eq!(batches.len(), 2);
    assert_eq!(batches[0].len(), 1024);
    assert_eq!(batches[1].len(), 1);
    assert_eq!(batches[1][0], 1024);
}

#[test]
fn chunking_keeps_order_and_contents() {
    let items: Vec<i32> = vec![5, 4, 3, 2, 1];
    let batches = chunk_rows(items, 2);
    assert_eq!(batches, vec![vec![5, 4], vec![3, 2], vec![1]]);
    let empty: Vec<i32> = Vec::new();
    assert!(chunk_rows(empty, 3).is_empty());
}

#[test]
fn map_batch_maps_every_row_in_order() {
    let rows = vec![book_row(1, "a"), book_row(2, "b")];
    let records: Vec<Book> = map_batch(rows).unwrap();
    assert_eq!(records.len(), 2);
    assert_eq!(records[0].id, 1);
    assert_eq!(records[0].title, "a");
    assert_eq!(records[1].id, 2);
    assert_eq!(records[1].title, "b");
}

#[test]
fn map_batch_surfaces_malformed_row() {
    let rows = vec![book_row(1, "a"), bad_row(), book_row(2, "b")];
    let result: Result<Vec<Book>, PipelineError> = map_batch(rows);
    assert!(matches!(result, Err(PipelineError::Extraction)));
}

#[test]
fn plan_upserts_batches_then_configures_once() {
    let commands: Vec<IndexCommand<Book>> = plan_commands(numbered_rows(5), 2).unwrap();
    assert_eq!(commands.len(), 4);
    let mut configure_count = 0;
    for (i, command) in commands.iter().enumerate() {
        match command {
            IndexCommand::Upsert(batch) => {
                assert!(i < 3);
                let expected = if i < 2 { 2 } else { 1 };
                assert_eq!(batch.len(), expected);
            }
            IndexCommand::Configure(settings) => {
                assert_eq!(i, 3);
                configure_count += 1;
                assert_eq!(settings.searchable, vec!["title".to_string()]);
                assert_eq!(
                    settings.filterable,
                    vec!["lang".to_string(), "genres".to_string()]
                );
                assert_eq!(settings.ranking.len(), 6);
                assert_eq!(settings.ranking[0], "words");
                assert_eq!(settings.ranking[5], "exactness");
            }
        }
    }
    assert_eq!(configure_count, 1);
}

#[test]
fn plan_at_batch_boundary_splits_exactly() {
    let commands: Vec<IndexCommand<Book>> = plan_commands(numbered_rows(1024), 1024).unwrap();
    assert_eq!(commands.len(), 2);
    assert!(matches!(&commands[0], IndexCommand::Upsert(batch) if batch.len() == 1024));
    assert!(matches!(&commands[1], IndexCommand::Configure(_)));

    let commands: Vec<IndexCommand<Book>> = plan_commands(numbered_rows(1025), 1024).unwrap();
    assert_eq!(commands.len(), 3);
    assert!(matches!(&commands[0], IndexCommand::Upsert(batch) if batch.len() == 1024));
    assert!(matches!(&commands[1], IndexCommand::Upsert(batch) if batch.len() == 1));
    assert!(matches!(&commands[2], IndexCommand::Configure(_)));

    let commands: Vec<IndexCommand<Book>> = plan_commands(numbered_rows(2048), 1024).unwrap();
    assert_eq!(commands.len(), 3);
    assert!(matches!(&commands[0], IndexCommand::Upsert(batch) if batch.len() == 1024));
    assert!(matches!(&commands[1], IndexCommand::Upsert(batch) if batch.len() == 1024));
    assert!(matches!(&commands[2], IndexCommand::Configure(_)));
}

#[test]
fn plan_of_no_rows_only_configures() {
    let commands: Vec<IndexCommand<Book>> = plan_commands(Vec::new(), 1024).unwrap();
    assert_eq!(commands.len(), 1);
    assert!(matches!(commands[0], IndexCommand::Configure(_)));
}

#[test]
fn plan_fails_on_malformed_row_with_extraction_error() {
    let rows = vec![book_row(1, "a"), bad_row()];
    let result: Result<Vec<IndexCommand<Book>>, PipelineError> = plan_commands(rows, 2);
    assert!(matches!(result, Err(PipelineError::Extraction)));
}

fn apply_plan(index: &mut HashMap<i32, String>, commands: Vec<IndexCommand<Book>>) {
    for command in commands {
        if let IndexCommand::Upsert(batch) = command {
            for record in batch {
                index.insert(record.id, record.title);
            }
        }
    }
}

#[test]
fn successful_run_fills_index_with_exactly_the_source_keys() {
    let mut index: HashMap<i32, String> = HashMap::new();
    let commands = plan_commands::<Book>(numbered_rows(5), 2).unwrap();
    apply_plan(&mut index, commands);
    assert_eq!(index.len(), 5);
    let mut id: i32 = 0;
    while id < 5 {
        assert_eq!(index.get(&id), Some(&"title".to_string()));
        id += 1;
    }
}

#[test]
fn rerunning_the_same_plan_changes_nothing() {
    let mut index: HashMap<i32, String> = HashMap::new();
    apply_plan(&mut index, plan_commands::<Book>(numbered_rows(7), 3).unwrap());
    let first: HashMap<i32, String> = index.clone();
    apply_plan(&mut index, plan_commands::<Book>(numbered_rows(7), 3).unwrap());
    assert_eq!(index, first);
}

#[test]
fn reduce_outcomes_succeeds_only_when_all_succeed() {
    let all_ok: Vec<Result<(), PipelineError>> = vec![Ok(()), Ok(()), Ok(()), Ok(())];
    assert!(reduce_outcomes(&all_ok).is_ok());
    let empty: Vec<Result<(), PipelineError>> = Vec::new();
    assert!(reduce_outcomes(&empty).is_ok());
}

#[test]
fn reduce_outcomes_reports_first_error() {
    let outcomes: Vec<Result<(), PipelineError>> = vec![
        Ok(()),
        Err(PipelineError::Load(LoadPhase::Configure)),
        Err(PipelineError::Extraction),
        Ok(()),
    ];
    assert_eq!(
        reduce_outcomes(&outcomes),
        Err(PipelineError::Load(LoadPhase::Configure))
    );
}

#[test]
fn one_failed_entity_fails_the_run_without_blocking_siblings() {
    // the books extraction hits a malformed row mid-stream
    let books: Result<Vec<IndexCommand<Book>>, PipelineError> =
        plan_commands(vec![book_row(1, "a"), bad_row()], 1024);
    let authors: Result<Vec<IndexCommand<Author>>, PipelineError> =
        plan_commands(Vec::new(), 1024);
    let sequences: Result<Vec<IndexCommand<Sequence>>, PipelineError> =
        plan_commands(Vec::new(), 1024);
    let genres: Result<Vec<IndexCommand<Genre>>, PipelineError> =
        plan_commands(Vec::new(), 1024);

    // the sibling pipelines still produce their full plans
    assert!(authors.is_ok());
    assert!(sequences.is_ok());
    assert!(genres.is_ok());

    let outcomes: Vec<Result<(), PipelineError>> = vec![
        books.map(|_| ()),
        authors.map(|_| ()),
        sequences.map(|_| ()),
        genres.map(|_| ()),
    ];
    assert_eq!(reduce_outcomes(&outcomes), Err(PipelineError::Extraction));
}
