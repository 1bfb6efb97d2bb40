//! A verified core for a recursive file-change notification pipeline.
//!
//! The library decides which filesystem events are relevant (kind gate,
//! watch-root prefix, ignored directory components, extension allow-list),
//! builds the change batches that are handed to a sink, and models the
//! start/stop lifecycle of the single watch session. The platform watcher,
//! the debounce timer and all I/O live outside the library and feed it
//! plain values.

pub mod bundler;
pub mod config;
pub mod dispatch;
pub mod filter;
pub mod paths;
pub mod session;

pub use bundler::Bundler;
pub use config::WatchConfig;
pub use dispatch::{build_change_batch, ChangeBatch};
pub use filter::{should_process_event, is_ignored_path, path_passes, EventKind, RawEvent};
pub use paths::EventPath;
pub use session::{
    delivery_allowed, start_watching, stop_watching, FileWatcherState, WatchError, WatchSession,
};
