use apptuner::WatchConfig;

#[test]
fn default_debounce_window_is_300_ms() {
    assert_eq!(WatchConfig::default().debounce_ms, 300);
}

#[test]
fn default_extensions_are_the_script_and_manifest_ones() {
    let config = WatchConfig::default();
    assert_eq!(config.extensions, vec![".js", ".jsx", ".ts", ".tsx", ".json"]);
}

#[test]
fn default_ignored_dirs_are_the_build_and_output_ones() {
    let config = WatchConfig::default();
    assert_eq!(
        config.ignored_dirs,
        vec![
            "node_modules",
            ".git",
            "ios",
            "android",
            "dist",
            "build",
            ".expo",
            "target",
            ".next",
            "coverage",
        ]
    );
}
