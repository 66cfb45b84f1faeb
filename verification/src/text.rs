//! Small operations on text that the handlers share.

use vstd::prelude::*;
use vstd::string::*;

verus! {

/// `first` followed by `second`.
pub fn join2(first: &str, second: &str) -> (text: String)
    ensures
        text@ == first@ + second@,
{
    let mut text = String::from_str(first);
    text.append(second);
    text
}

/// `first`, `second` and `third` in a row.
pub fn join3(first: &str, second: &str, third: &str) -> (text: String)
    ensures
        text@ == first@ + second@ + third@,
{
    let mut text = String::from_str(first);
    text.append(second);
    text.append(third);
    text
}

/// Where the last segment of `path` begins: behind the last `/`, or at the
/// start where `path` holds none.
pub open spec fn last_segment_start(path: Seq<char>) -> int
    decreases path.len(),
{
    if path.len() == 0 {
        0
    } else if path.last() == '/' {
        path.len() as int
    } else {
        last_segment_start(path.drop_last())
    }
}

/// What follows the last `/` of `path`; the whole of it where it holds none.
pub open spec fn last_segment_of(path: Seq<char>) -> Seq<char> {
    path.subrange(last_segment_start(path), path.len() as int)
}

/// The last segment starts within the path, holds no `/`, and stands right
/// behind one unless it starts the path.
pub proof fn lemma_last_segment(path: Seq<char>)
    ensures
        0 <= last_segment_start(path) <= path.len(),
        forall|i: int| last_segment_start(path) <= i < path.len() ==> path[i] != '/',
        last_segment_start(path) > 0 ==> path[last_segment_start(path) - 1] == '/',
    decreases path.len(),
{
    if path.len() > 0 && path.last() != '/' {
        let shorter = path.drop_last();
        lemma_last_segment(shorter);
        assert forall|i: int| last_segment_start(path) <= i < path.len() implies path[i]
            != '/' by {
            if i < shorter.len() {
                assert(shorter[i] == path[i]);
            }
        }
        if last_segment_start(path) > 0 {
            assert(shorter[last_segment_start(path) - 1] == path[last_segment_start(path) - 1]);
        }
    }
}

proof fn lemma_segment_from(path: Seq<char>, start: int)
    requires
        0 <= start <= path.len(),
        forall|i: int| start <= i < path.len() ==> path[i] != '/',
        start > 0 ==> path[start - 1] == '/',
    ensures
        last_segment_start(path) == start,
    decreases path.len(),
{
    if path.len() > 0 {
        if path.last() == '/' {
            assert(start == path.len());
        } else {
            assert(start < path.len());
            let shorter = path.drop_last();
            assert forall|i: int| start <= i < shorter.len() implies shorter[i] != '/' by {
                assert(shorter[i] == path[i]);
            }
            if start > 0 {
                assert(shorter[start - 1] == path[start - 1]);
            }
            lemma_segment_from(shorter, start);
        }
    }
}

/// The last segment of a `/`-separated path: the name of a document within
/// its full resource name.
pub fn last_segment(path: &str) -> (segment: String)
    ensures
        segment@ == last_segment_of(path@),
{
    let n = path.unicode_len();
    let mut start: usize = n;
    while start > 0 && path.get_char(start - 1) != '/'
        invariant
            start <= n,
            n == path@.len(),
            forall|i: int| start <= i < n ==> path@[i] != '/',
        decreases start,
    {
        start -= 1;
    }
    proof {
        lemma_segment_from(path@, start as int);
    }
    String::from_str(path.substring_char(start, n))
}

} // verus!
