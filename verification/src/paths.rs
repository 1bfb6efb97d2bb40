//! Paths as the filter reads them: a sequence of components, root first,
//! plus the textual form used for the outgoing batch. The helpers here
//! express a path relative to the watch root and extract the final
//! extension with its leading separator.

use vstd::prelude::*;
use vstd::string::StrSliceExecFns;

verus! {

/// One path attached to a filesystem event.
///
/// `components` is the path split into its components, in order, as the
/// platform reports them; `text` is the textual form of the whole path,
/// where one exists, used when the path is put into a batch.
pub struct EventPath {
    /// The textual form of the path, if it can be represented as text.
    pub text: Option<String>,
    /// The path's components, in order, root first.
    pub components: Vec<String>,
}

/// Whether `list` holds a string equal to `x`.
pub fn list_contains(list: &Vec<String>, x: &String) -> (r: bool)
    ensures
        r == list.deep_view().contains(x@),
{
    let n = list.len();
    let mut i: usize = 0;
    while i < n
        invariant
            n == list.len(),
            i <= n,
            forall|j: int| 0 <= j < i ==> list.deep_view()[j] != x@,
        decreases n - i,
    {
        if list[i].eq(x) {
            proof {
                assert(list.deep_view()[i as int] == x@);
            }
            return true;
        }
        i += 1;
    }
    false
}

/// `root` is a component-wise prefix of `path`: the path lies under the root.
pub open spec fn spec_under(path: Seq<Seq<char>>, root: Seq<Seq<char>>) -> bool {
    root.len() <= path.len() && path.subrange(0, root.len() as int) == root
}

/// Expresses `path` relative to `root`: the components left after the
/// root's, or nothing when the path does not lie under the root.
pub fn strip_prefix(path: &Vec<String>, root: &Vec<String>) -> (r: Option<Vec<String>>)
    ensures
        match r {
            Some(rel) => spec_under(path.deep_view(), root.deep_view()) && rel.deep_view()
                == path.deep_view().skip(root.deep_view().len() as int),
            None => !spec_under(path.deep_view(), root.deep_view()),
        },
{
    let rlen = root.len();
    let plen = path.len();
    if rlen > plen {
        return None;
    }
    let mut i: usize = 0;
    while i < rlen
        invariant
            rlen == root.len(),
            plen == path.len(),
            rlen <= plen,
            i <= rlen,
            forall|j: int| 0 <= j < i ==> path.deep_view()[j] == root.deep_view()[j],
        decreases rlen - i,
    {
        if !path[i].eq(&root[i]) {
            proof {
                assert(path.deep_view().subrange(0, rlen as int)[i as int]
                    == path.deep_view()[i as int]);
                assert(path.deep_view()[i as int] != root.deep_view()[i as int]);
            }
            return None;
        }
        i += 1;
    }
    proof {
        assert(path.deep_view().subrange(0, rlen as int) =~= root.deep_view());
    }
    let mut rel: Vec<String> = Vec::new();
    let mut j: usize = rlen;
    while j < plen
        invariant
            rlen == root.len(),
            plen == path.len(),
            rlen <= j <= plen,
            rel.deep_view() =~= path.deep_view().subrange(rlen as int, j as int),
        decreases plen - j,
    {
        let ghost prev = rel.deep_view();
        rel.push(path[j].clone());
        proof {
            assert(rel.deep_view() =~= prev.push(path.deep_view()[j as int]));
            assert(path.deep_view().subrange(rlen as int, j + 1 as int) =~= path.deep_view()
                .subrange(rlen as int, j as int)
                .push(path.deep_view()[j as int]));
        }
        j += 1;
    }
    proof {
        assert(rel.deep_view() =~= path.deep_view().skip(root.deep_view().len() as int));
    }
    Some(rel)
}

/// The index of the last `.` in `name`, or a negative value when there is none.
pub open spec fn spec_last_dot(name: Seq<char>) -> int
    decreases name.len(),
{
    if name.len() == 0 {
        -1
    } else if name[name.len() - 1] == '.' {
        name.len() - 1
    } else {
        spec_last_dot(name.drop_last())
    }
}

/// The final extension of a file name, with its leading separator: the part
/// of the name from the last `.` on, provided that `.` is not the first
/// character. A name without a `.` past its first character has none.
pub open spec fn spec_extension(name: Seq<char>) -> Option<Seq<char>> {
    let dot = spec_last_dot(name);
    if dot >= 1 {
        Some(name.subrange(dot, name.len() as int))
    } else {
        None
    }
}

/// Extracts the final extension of a file name, leading separator included.
pub fn extension_of<'a>(name: &'a str) -> (r: Option<&'a str>)
    ensures
        match r {
            Some(e) => spec_extension(name@) == Some(e@),
            None => spec_extension(name@) is None,
        },
{
    let n = name.unicode_len();
    let mut i: usize = 0;
    let mut last: usize = 0;
    let mut found = false;
    while i < n
        invariant
            n == name@.len(),
            i <= n,
            found ==> last < i && spec_last_dot(name@.subrange(0, i as int)) == last as int,
            !found ==> spec_last_dot(name@.subrange(0, i as int)) == -1,
        decreases n - i,
    {
        let c = name.get_char(i);
        proof {
            assert(name@.subrange(0, i + 1 as int).drop_last() =~= name@.subrange(0, i as int));
            assert(name@.subrange(0, i + 1 as int).last() == name@[i as int]);
        }
        if c == '.' {
            last = i;
            found = true;
        }
        i += 1;
    }
    proof {
        assert(name@.subrange(0, n as int) =~= name@);
    }
    if found && last >= 1 {
        Some(name.substring_char(last, n))
    } else {
        None
    }
}

} // verus!
