//! Branch names, as derived from the name of the reference that HEAD points at.

use vstd::prelude::*;
use vstd::string::StringExecFns;
use vstd::string::StrSliceExecFns;

verus! {

/// The character that separates the segments of a reference name.
pub open spec fn separator() -> char {
    '/'
}

/// The name used when a reference gives no branch name of its own.
pub open spec fn default_branch() -> Seq<char> {
    "master"@
}

/// The prefix under which the branches of the remote `origin` are tracked.
pub open spec fn tracking_prefix() -> Seq<char> {
    "refs/remotes/origin/"@
}

/// Where the last segment of `name` starts: just behind the last separator,
/// or at 0 when `name` holds none.
pub open spec fn last_segment_start(name: Seq<char>) -> int
    decreases name.len(),
{
    if name.len() == 0 {
        0
    } else if name.last() == separator() {
        name.len() as int
    } else {
        last_segment_start(name.drop_last())
    }
}

/// What follows the last separator of `name`; all of `name` when it holds none.
pub open spec fn last_segment(name: Seq<char>) -> Seq<char> {
    name.subrange(last_segment_start(name), name.len() as int)
}

/// The branch that a reference name stands for: its last segment, or the
/// default branch when that segment is empty.
pub open spec fn branch_of_reference(name: Seq<char>) -> Seq<char> {
    if last_segment(name).len() == 0 {
        default_branch()
    } else {
        last_segment(name)
    }
}

/// The branch that HEAD stands for, given the name of the reference it points
/// at, if that name could be read.
pub open spec fn branch_of_head(name: Option<Seq<char>>) -> Seq<char> {
    match name {
        Some(n) => branch_of_reference(n),
        None => default_branch(),
    }
}

/// The remote tracking reference of `branch` on `origin`.
pub open spec fn tracking_reference(branch: Seq<char>) -> Seq<char> {
    tracking_prefix() + branch
}

/// The start of the last segment lies within the name, directly behind a
/// separator unless it is 0, and no separator follows it.
pub proof fn lemma_last_segment_start(name: Seq<char>)
    ensures
        0 <= last_segment_start(name) <= name.len(),
        last_segment_start(name) > 0 ==> name[last_segment_start(name) - 1] == separator(),
        forall|i: int| last_segment_start(name) <= i < name.len() ==> name[i] != separator(),
    decreases name.len(),
{
    if name.len() > 0 && name.last() != separator() {
        let shorter = name.drop_last();
        lemma_last_segment_start(shorter);
        assert forall|i: int| last_segment_start(name) <= i < name.len() implies name[i]
            != separator() by {
            if i < shorter.len() {
                assert(shorter[i] == name[i]);
            }
        }
    }
}

/// The last segment holds no separator, and the name is that segment,
/// preceded by whatever ends in the last separator.
pub proof fn lemma_last_segment_splits(name: Seq<char>)
    ensures
        !last_segment(name).contains(separator()),
        name == name.subrange(0, last_segment_start(name)) + last_segment(name),
        !name.contains(separator()) <==> last_segment_start(name) == 0,
        !name.contains(separator()) ==> last_segment(name) == name,
{
    lemma_last_segment_start(name);
    let start = last_segment_start(name);
    let segment = last_segment(name);
    assert forall|i: int| 0 <= i < segment.len() implies segment[i] != separator() by {
        assert(segment[i] == name[start + i]);
    }
    assert(name =~= name.subrange(0, start) + segment);
    if start > 0 {
        assert(name[start - 1] == separator());
    }
    if start == 0 {
        assert(segment =~= name);
    }
}

/// A branch name is never empty and never holds a separator.
pub proof fn lemma_branch_of_reference_is_a_segment(name: Seq<char>)
    ensures
        branch_of_reference(name).len() > 0,
        !branch_of_reference(name).contains(separator()),
{
    lemma_last_segment_splits(name);
    lemma_default_branch();
}

/// The default branch is a non-empty name without a separator.
pub proof fn lemma_default_branch()
    ensures
        default_branch().len() == 6,
        !default_branch().contains(separator()),
{
    reveal_strlit("master");
    let d = default_branch();
    assert forall|i: int| 0 <= i < d.len() implies d[i] != separator() by {
        assert(d[0] == 'm' && d[1] == 'a' && d[2] == 's' && d[3] == 't' && d[4] == 'e' && d[5]
            == 'r');
    }
}

/// Extending a name by one character moves the start of its last segment
/// behind that character if it is a separator, and leaves it otherwise.
proof fn lemma_last_segment_start_step(name: Seq<char>, upto: int)
    requires
        0 <= upto < name.len(),
    ensures
        last_segment_start(name.take(upto + 1)) == if name[upto] == separator() {
            upto + 1
        } else {
            last_segment_start(name.take(upto))
        },
{
    let longer = name.take(upto + 1);
    assert(longer.last() == name[upto]);
    assert(longer.drop_last() =~= name.take(upto));
}

/// Derives the branch name from the full name of a reference, such as
/// `refs/heads/main`.
pub fn branch_from_reference_name(name: &str) -> (branch: String)
    ensures
        branch@ == branch_of_reference(name@),
{
    let total = name.unicode_len();
    let mut start: usize = 0;
    let mut length: usize = 0;
    for c in it: name.chars()
        invariant
            it.seq() == name@,
            total == name@.len(),
            length == it.index(),
            start == last_segment_start(name@.take(length as int)),
            start <= length,
    {
        proof {
            lemma_last_segment_start_step(name@, length as int);
        }
        length += 1;
        if c == '/' {
            start = length;
        }
    }
    assert(name@.take(length as int) =~= name@);
    if start == length {
        String::from_str("master")
    } else {
        String::from_str(name.substring_char(start, length))
    }
}

/// The branch that HEAD stands for, given the name of the reference it points
/// at; the default branch when the name could not be read.
pub fn branch_from_head_name(name: Option<&str>) -> (branch: String)
    ensures
        branch@ == branch_of_head(
            match name {
                Some(n) => Some(n@),
                None => None,
            },
        ),
{
    match name {
        Some(n) => branch_from_reference_name(n),
        None => String::from_str("master"),
    }
}

/// Builds the name of the remote tracking reference of `branch` on `origin`.
pub fn remote_tracking_reference(branch: &str) -> (reference: String)
    ensures
        reference@ == tracking_reference(branch@),
{
    String::from_str("refs/remotes/origin/").concat(branch)
}

} // verus!
