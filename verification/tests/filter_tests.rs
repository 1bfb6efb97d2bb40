use apptuner::{
    is_ignored_path, path_passes, should_process_event, EventKind, EventPath, RawEvent,
    WatchConfig,
};

fn comps(parts: &[&str]) -> Vec<String> {
    parts.iter().map(|s| s.to_string()).collect()
}

fn event_path(text: &str, parts: &[&str]) -> EventPath {
    EventPath { text: Some(text.to_string()), components: comps(parts) }
}

fn proj_root() -> Vec<String> {
    comps(&["/", "proj"])
}

fn modify_on(text: &str, parts: &[&str]) -> RawEvent {
    RawEvent { kind: EventKind::Modify, paths: vec![event_path(text, parts)] }
}

#[test]
fn accepts_modify_on_source_file_under_root() {
    let event = modify_on("/proj/src/App.tsx", &["/", "proj", "src", "App.tsx"]);
    assert!(should_process_event(&event, &proj_root(), &WatchConfig::default()));
}

#[test]
fn accepts_create_on_source_file_under_root() {
    let event = RawEvent {
        kind: EventKind::Create,
        paths: vec![event_path("/proj/src/new.ts", &["/", "proj", "src", "new.ts"])],
    };
    assert!(should_process_event(&event, &proj_root(), &WatchConfig::default()));
}

#[test]
fn rejects_path_inside_ignored_directory() {
    let event = modify_on(
        "/proj/node_modules/lib/index.js",
        &["/", "proj", "node_modules", "lib", "index.js"],
    );
    assert!(!should_process_event(&event, &proj_root(), &WatchConfig::default()));
}

#[test]
fn rejects_ignored_directory_at_any_depth() {
    let event = modify_on(
        "/proj/src/node_modules/x.ts",
        &["/", "proj", "src", "node_modules", "x.ts"],
    );
    assert!(!should_process_event(&event, &proj_root(), &WatchConfig::default()));
}

#[test]
fn rejects_extension_not_in_allow_list() {
    let event = modify_on("/proj/README.md", &["/", "proj", "README.md"]);
    assert!(!should_process_event(&event, &proj_root(), &WatchConfig::default()));
}

#[test]
fn rejects_other_kinds_regardless_of_path() {
    let event = RawEvent {
        kind: EventKind::Other,
        paths: vec![event_path("/proj/src/App.tsx", &["/", "proj", "src", "App.tsx"])],
    };
    assert!(!should_process_event(&event, &proj_root(), &WatchConfig::default()));
}

#[test]
fn rejects_path_outside_watch_root() {
    let event = modify_on("/other/src/App.tsx", &["/", "other", "src", "App.tsx"]);
    assert!(!should_process_event(&event, &proj_root(), &WatchConfig::default()));
}

#[test]
fn one_qualifying_path_accepts_the_whole_event() {
    let event = RawEvent {
        kind: EventKind::Modify,
        paths: vec![
            event_path("/proj/README.md", &["/", "proj", "README.md"]),
            event_path("/proj/src/App.tsx", &["/", "proj", "src", "App.tsx"]),
        ],
    };
    assert!(should_process_event(&event, &proj_root(), &WatchConfig::default()));
}

#[test]
fn rejects_event_with_no_paths() {
    let event = RawEvent { kind: EventKind::Modify, paths: vec![] };
    assert!(!should_process_event(&event, &proj_root(), &WatchConfig::default()));
}

#[test]
fn extension_comparison_is_exact_not_suffix() {
    // The final extension of `a.tsx` is `.tsx`; an allow-list holding only
    // `.ts` must not match it, and `.b.ts` must not match a plain `.ts` file.
    let config = WatchConfig {
        debounce_ms: 300,
        extensions: vec![".ts".to_string()],
        ignored_dirs: vec![],
    };
    let tsx = modify_on("/proj/a.tsx", &["/", "proj", "a.tsx"]);
    assert!(!should_process_event(&tsx, &proj_root(), &config));
    let ts = modify_on("/proj/a.b.ts", &["/", "proj", "a.b.ts"]);
    assert!(should_process_event(&ts, &proj_root(), &config));
}

#[test]
fn dotfile_without_extension_is_rejected() {
    let config = WatchConfig {
        debounce_ms: 300,
        extensions: vec![".gitignore".to_string()],
        ignored_dirs: vec![],
    };
    // `.gitignore` has no final extension: the only `.` is its first character.
    let event = modify_on("/proj/.gitignore", &["/", "proj", ".gitignore"]);
    assert!(!should_process_event(&event, &proj_root(), &config));
}

#[test]
fn ignored_names_match_whole_components_only() {
    let ignored = vec!["node_modules".to_string()];
    assert!(is_ignored_path(&comps(&["src", "node_modules", "x.ts"]), &ignored));
    assert!(!is_ignored_path(&comps(&["src", "node_modules.ts"]), &ignored));
    assert!(!is_ignored_path(&comps(&["src", "app"]), &ignored));
    assert!(!is_ignored_path(&comps(&[]), &ignored));
}

#[test]
fn path_passes_checks_one_path() {
    let config = WatchConfig::default();
    let root = proj_root();
    let good = event_path("/proj/src/App.tsx", &["/", "proj", "src", "App.tsx"]);
    assert!(path_passes(&good, &root, &config));
    let ignored = event_path("/proj/dist/a.js", &["/", "proj", "dist", "a.js"]);
    assert!(!path_passes(&ignored, &root, &config));
    let wrong_ext = event_path("/proj/a.rs", &["/", "proj", "a.rs"]);
    assert!(!path_passes(&wrong_ext, &root, &config));
}
