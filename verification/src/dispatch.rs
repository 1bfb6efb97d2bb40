//! Builds the externally visible payload from an event that passed the
//! filter: the textual paths, stamped with a caller-supplied wall-clock
//! time in seconds. Delivering the payload to the sink is a one-way push
//! performed outside the library.

use vstd::prelude::*;

use crate::filter::RawEvent;
use crate::paths::EventPath;

verus! {

/// The externally visible payload of one debounced, filtered batch.
pub struct ChangeBatch {
    /// The changed paths, in event order. No deduplication is promised.
    pub files: Vec<String>,
    /// Seconds since the epoch, as supplied by the caller.
    pub timestamp: u64,
}

/// The textual forms of the given paths, in order; a path without a textual
/// form is silently dropped from the batch, not the whole event.
pub open spec fn spec_batch_files(paths: Seq<EventPath>) -> Seq<Seq<char>>
    decreases paths.len(),
{
    if paths.len() == 0 {
        Seq::empty()
    } else {
        let rest = spec_batch_files(paths.drop_last());
        match paths.last().text {
            Some(t) => rest.push(t@),
            None => rest,
        }
    }
}

/// Packages a qualifying event into a `ChangeBatch`: the textual form of
/// each of its paths, stamped with the given time.
pub fn build_change_batch(event: &RawEvent, timestamp: u64) -> (b: ChangeBatch)
    ensures
        b.timestamp == timestamp,
        b.files.deep_view() == spec_batch_files(event.paths@),
{
    let n = event.paths.len();
    let mut files: Vec<String> = Vec::new();
    let mut i: usize = 0;
    while i < n
        invariant
            n == event.paths.len(),
            i <= n,
            files.deep_view() == spec_batch_files(event.paths@.subrange(0, i as int)),
        decreases n - i,
    {
        let ghost prev = files.deep_view();
        match &event.paths[i].text {
            Some(t) => {
                files.push(t.clone());
                proof {
                    assert(files.deep_view() =~= prev.push(event.paths@[i as int].text->Some_0@));
                }
            },
            None => {},
        }
        proof {
            assert(event.paths@.subrange(0, i + 1 as int).drop_last() =~= event.paths@.subrange(
                0,
                i as int,
            ));
            assert(event.paths@.subrange(0, i + 1 as int).last() == event.paths@[i as int]);
        }
        i += 1;
    }
    proof {
        assert(event.paths@.subrange(0, n as int) =~= event.paths@);
    }
    ChangeBatch { files, timestamp }
}

} // verus!
