//! Immutable configuration of a watch session: the debounce window, the
//! extension allow-list and the ignored directory names, with their defaults.

use vstd::prelude::*;

verus! {

/// Configuration for file watching.
///
/// `extensions` holds each allowed extension with its leading separator
/// (the form `.ts`); `ignored_dirs` holds bare directory-component names,
/// not paths. Both are case-sensitive exact-match collections.
#[derive(Clone)]
pub struct WatchConfig {
    /// Debounce delay in milliseconds.
    pub debounce_ms: u64,
    /// File extensions to watch.
    pub extensions: Vec<String>,
    /// Directories to ignore.
    pub ignored_dirs: Vec<String>,
}

/// The default debounce window, in milliseconds.
pub open spec fn spec_default_debounce_ms() -> u64 {
    300
}

/// The default extension allow-list.
pub open spec fn spec_default_extensions() -> Seq<Seq<char>> {
    seq![".js"@, ".jsx"@, ".ts"@, ".tsx"@, ".json"@]
}

/// The default ignored directory names.
pub open spec fn spec_default_ignored_dirs() -> Seq<Seq<char>> {
    seq![
        "node_modules"@,
        ".git"@,
        "ios"@,
        "android"@,
        "dist"@,
        "build"@,
        ".expo"@,
        "target"@,
        ".next"@,
        "coverage"@,
    ]
}

impl Default for WatchConfig {
    /// The documented defaults: a 300 ms window, the script and manifest
    /// extensions, and the usual build/output directories ignored.
    fn default() -> (c: Self)
        ensures
            c.debounce_ms == spec_default_debounce_ms(),
            c.extensions.deep_view() == spec_default_extensions(),
            c.ignored_dirs.deep_view() == spec_default_ignored_dirs(),
    {
        let mut extensions: Vec<String> = Vec::new();
        extensions.push(".js".to_owned());
        extensions.push(".jsx".to_owned());
        extensions.push(".ts".to_owned());
        extensions.push(".tsx".to_owned());
        extensions.push(".json".to_owned());

        let mut ignored_dirs: Vec<String> = Vec::new();
        ignored_dirs.push("node_modules".to_owned());
        ignored_dirs.push(".git".to_owned());
        ignored_dirs.push("ios".to_owned());
        ignored_dirs.push("android".to_owned());
        ignored_dirs.push("dist".to_owned());
        ignored_dirs.push("build".to_owned());
        ignored_dirs.push(".expo".to_owned());
        ignored_dirs.push("target".to_owned());
        ignored_dirs.push(".next".to_owned());
        ignored_dirs.push("coverage".to_owned());

        proof {
            assert(extensions.deep_view() =~= spec_default_extensions());
            assert(ignored_dirs.deep_view() =~= spec_default_ignored_dirs());
        }

        WatchConfig { debounce_ms: 300, extensions, ignored_dirs }
    }
}

} // verus!
