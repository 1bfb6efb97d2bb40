use apptuner::{build_change_batch, Bundler, EventKind, EventPath, RawEvent};

fn text_path(text: &str) -> EventPath {
    EventPath {
        text: Some(text.to_string()),
        components: text.split('/').map(|s| s.to_string()).collect(),
    }
}

#[test]
fn batch_carries_the_paths_and_the_timestamp() {
    let event = RawEvent {
        kind: EventKind::Modify,
        paths: vec![text_path("/proj/src/App.tsx")],
    };
    let batch = build_change_batch(&event, 1725029869);
    assert_eq!(batch.files, vec!["/proj/src/App.tsx"]);
    assert_eq!(batch.timestamp, 1725029869);
}

#[test]
fn batch_keeps_event_order_and_duplicates() {
    let event = RawEvent {
        kind: EventKind::Modify,
        paths: vec![
            text_path("/proj/a.ts"),
            text_path("/proj/b.ts"),
            text_path("/proj/a.ts"),
        ],
    };
    let batch = build_change_batch(&event, 7);
    assert_eq!(batch.files, vec!["/proj/a.ts", "/proj/b.ts", "/proj/a.ts"]);
}

#[test]
fn path_without_text_is_dropped_from_the_batch_only() {
    let event = RawEvent {
        kind: EventKind::Modify,
        paths: vec![
            text_path("/proj/a.ts"),
            EventPath { text: None, components: vec!["odd".to_string()] },
            text_path("/proj/b.ts"),
        ],
    };
    let batch = build_change_batch(&event, 0);
    assert_eq!(batch.files, vec!["/proj/a.ts", "/proj/b.ts"]);
}

#[test]
fn empty_event_gives_an_empty_batch() {
    let event = RawEvent { kind: EventKind::Modify, paths: vec![] };
    let batch = build_change_batch(&event, 3);
    assert!(batch.files.is_empty());
    assert_eq!(batch.timestamp, 3);
}

#[test]
fn bundler_records_the_project_path() {
    let bundler = Bundler::new("/proj".to_string());
    assert_eq!(bundler.project_path().as_str(), "/proj");
}
