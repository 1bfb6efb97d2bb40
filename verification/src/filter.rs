//! The event filter: decides whether a raw filesystem event is relevant,
//! given the watch root and a configuration of watched extensions and
//! ignored path segments. Pure; no state, no I/O.

use vstd::prelude::*;

use crate::config::WatchConfig;
use crate::paths::{
    list_contains, extension_of, spec_extension, spec_under, strip_prefix, EventPath,
};

verus! {

/// The kind of a raw filesystem notification.
#[derive(Clone, Copy, PartialEq, Eq, Structural)]
pub enum EventKind {
    Create,
    Modify,
    Other,
}

/// One native filesystem notification, already coalesced by the debounce
/// layer: a kind and the paths it bundles.
pub struct RawEvent {
    pub kind: EventKind,
    pub paths: Vec<EventPath>,
}

/// Only creations and modifications are eligible; every other kind
/// (deletions, renames, metadata-only notifications) is rejected.
pub open spec fn spec_kind_eligible(kind: EventKind) -> bool {
    kind is Create || kind is Modify
}

/// Some component of `rel` exactly matches an ignored directory name,
/// at any depth.
pub open spec fn spec_is_ignored(rel: Seq<Seq<char>>, ignored: Seq<Seq<char>>) -> bool {
    exists|i: int| 0 <= i < rel.len() && ignored.contains(rel[i])
}

/// A single path qualifies: it lies under the watch root, no component of
/// its relative form matches an ignored directory name, and its final
/// extension is an exact member of the allow-list.
pub open spec fn spec_path_passes(path: EventPath, root: Seq<Seq<char>>, config: WatchConfig) -> bool {
    let comps = path.components.deep_view();
    &&& spec_under(comps, root)
    &&& !spec_is_ignored(comps.skip(root.len() as int), config.ignored_dirs.deep_view())
    &&& comps.len() > 0
    &&& match spec_extension(comps.last()) {
        Some(e) => config.extensions.deep_view().contains(e),
        None => false,
    }
}

/// An event is forwarded when its kind is eligible and at least one of its
/// paths qualifies; the event as a whole is then forwarded.
pub open spec fn spec_should_process(event: RawEvent, root: Seq<Seq<char>>, config: WatchConfig) -> bool {
    &&& spec_kind_eligible(event.kind)
    &&& exists|i: int|
        0 <= i < event.paths@.len() && spec_path_passes(event.paths@[i], root, config)
}

/// Whether some component of the (relative) path exactly matches one of the
/// ignored directory names.
pub fn is_ignored_path(components: &Vec<String>, ignored_dirs: &Vec<String>) -> (r: bool)
    ensures
        r == spec_is_ignored(components.deep_view(), ignored_dirs.deep_view()),
{
    let n = components.len();
    let mut i: usize = 0;
    while i < n
        invariant
            n == components.len(),
            i <= n,
            forall|j: int|
                0 <= j < i ==> !ignored_dirs.deep_view().contains(
                    #[trigger] components.deep_view()[j],
                ),
        decreases n - i,
    {
        if list_contains(ignored_dirs, &components[i]) {
            proof {
                assert(ignored_dirs.deep_view().contains(components.deep_view()[i as int]));
            }
            return true;
        }
        i += 1;
    }
    false
}

/// Whether one path attached to an event qualifies: relative to the root,
/// outside every ignored directory, extension in the allow-list.
pub fn path_passes(path: &EventPath, watch_root: &Vec<String>, config: &WatchConfig) -> (r: bool)
    ensures
        r == spec_path_passes(*path, watch_root.deep_view(), *config),
{
    let rel = match strip_prefix(&path.components, watch_root) {
        Some(rel) => rel,
        None => {
            return false;
        },
    };
    if is_ignored_path(&rel, &config.ignored_dirs) {
        return false;
    }
    let n = path.components.len();
    if n == 0 {
        return false;
    }
    let last = &path.components[n - 1];
    proof {
        assert(path.components.deep_view().last() == path.components@[n - 1]@);
    }
    match extension_of(last.as_str()) {
        Some(ext) => {
            let ext_string: String = ext.to_owned();
            list_contains(&config.extensions, &ext_string)
        },
        None => false,
    }
}

/// Decides whether a raw event should be forwarded: the kind gate first,
/// then the per-path checks; one qualifying path accepts the whole event.
pub fn should_process_event(event: &RawEvent, watch_root: &Vec<String>, config: &WatchConfig) -> (r:
    bool)
    ensures
        r == spec_should_process(*event, watch_root.deep_view(), *config),
{
    match event.kind {
        EventKind::Create | EventKind::Modify => {},
        _ => {
            return false;
        },
    }
    let n = event.paths.len();
    let mut i: usize = 0;
    while i < n
        invariant
            n == event.paths.len(),
            i <= n,
            spec_kind_eligible(event.kind),
            forall|j: int|
                0 <= j < i ==> !spec_path_passes(
                    #[trigger] event.paths@[j],
                    watch_root.deep_view(),
                    *config,
                ),
        decreases n - i,
    {
        if path_passes(&event.paths[i], watch_root, config) {
            return true;
        }
        i += 1;
    }
    false
}

/// An eligible event with at least one qualifying path — under the root,
/// outside every ignored directory component, extension in the allow-list —
/// is accepted.
pub proof fn lemma_qualifying_path_accepted(
    event: RawEvent,
    root: Seq<Seq<char>>,
    config: WatchConfig,
    i: int,
)
    requires
        spec_kind_eligible(event.kind),
        0 <= i < event.paths@.len(),
        spec_path_passes(event.paths@[i], root, config),
    ensures
        spec_should_process(event, root, config),
{
}

/// An event is rejected, regardless of extensions, when every path that lies
/// under the root has an ignored directory component somewhere in its
/// relative form.
pub proof fn lemma_all_ignored_rejected(event: RawEvent, root: Seq<Seq<char>>, config: WatchConfig)
    requires
        forall|i: int|
            0 <= i < event.paths@.len() && spec_under(
                (#[trigger] event.paths@[i]).components.deep_view(),
                root,
            ) ==> spec_is_ignored(
                event.paths@[i].components.deep_view().skip(root.len() as int),
                config.ignored_dirs.deep_view(),
            ),
    ensures
        !spec_should_process(event, root, config),
{
    assert forall|i: int| 0 <= i < event.paths@.len() implies !spec_path_passes(
        event.paths@[i],
        root,
        config,
    ) by {
        if spec_under(event.paths@[i].components.deep_view(), root) {
            assert(spec_is_ignored(
                event.paths@[i].components.deep_view().skip(root.len() as int),
                config.ignored_dirs.deep_view(),
            ));
        }
    }
}

/// An event of any kind other than create or modify is rejected, regardless
/// of its paths.
pub proof fn lemma_other_kind_rejected(event: RawEvent, root: Seq<Seq<char>>, config: WatchConfig)
    requires
        !spec_kind_eligible(event.kind),
    ensures
        !spec_should_process(event, root, config),
{
}

} // verus!
