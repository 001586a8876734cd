//! Names of files below the working directory, and the rule that keeps every
//! write inside it.
//!
//! A name is a byte string in which `/` separates segments, as archives and
//! file systems store it. The module gives a model of where a name leads
//! (`escapes_root`), the two rules that the pipeline enforces
//! (`is_safe_entry_name` for archive entries, `is_single_component` for the
//! files the pipeline itself creates) and the proofs that a name which passes
//! a rule never leads out of the directory it is resolved in.

use vstd::prelude::*;

verus! {

/// The separator of path segments, `/`.
pub const SLASH: u8 = 0x2f;

/// The byte `.`.
pub const DOT: u8 = 0x2e;

/// What the bytes since the last separator spell.
#[derive(Clone, Copy, Debug, PartialEq, Eq, Structural)]
pub enum Segment {
    /// No byte yet.
    Empty,
    /// Exactly `.`: the directory itself.
    Dot,
    /// Exactly `..`: the parent directory.
    DotDot,
    /// Anything else: an entry of the directory.
    Named,
}

/// The segment in progress after one more byte.
pub open spec fn segment_after(segment: Segment, byte: u8) -> Segment {
    if byte == SLASH {
        Segment::Empty
    } else if byte == DOT {
        match segment {
            Segment::Empty => Segment::Dot,
            Segment::Dot => Segment::DotDot,
            _ => Segment::Named,
        }
    } else {
        Segment::Named
    }
}

/// How many levels a finished segment leads down (up, if negative).
pub open spec fn levels(segment: Segment) -> int {
    match segment {
        Segment::DotDot => -1,
        Segment::Named => 1,
        _ => 0,
    }
}

/// The segment that the first `n` bytes of `name` end in.
pub open spec fn open_segment(name: Seq<u8>, n: int) -> Segment
    decreases n,
{
    if n <= 0 {
        Segment::Empty
    } else {
        segment_after(open_segment(name, n - 1), name[n - 1])
    }
}

/// The depth below the starting directory reached by the segments that a
/// separator among the first `n` bytes of `name` has closed.
pub open spec fn closed_depth(name: Seq<u8>, n: int) -> int
    decreases n,
{
    if n <= 0 {
        0
    } else if name[n - 1] == SLASH {
        closed_depth(name, n - 1) + levels(open_segment(name, n - 1))
    } else {
        closed_depth(name, n - 1)
    }
}

/// A segment of `name` ends just before offset `n`.
pub open spec fn ends_segment(name: Seq<u8>, n: int) -> bool {
    n == name.len() || name[n] == SLASH
}

/// The depth below the starting directory of what the first `n` bytes of
/// `name` lead to.
pub open spec fn depth_at(name: Seq<u8>, n: int) -> int {
    closed_depth(name, n) + levels(open_segment(name, n))
}

/// The name starts at the root of the file system.
pub open spec fn is_absolute(name: Seq<u8>) -> bool {
    name.len() > 0 && name[0] == SLASH
}

/// Resolved in a directory, the name leads out of it: it is absolute, or at
/// the end of one of its segments it has gone up more levels than down.
pub open spec fn escapes_root(name: Seq<u8>) -> bool {
    is_absolute(name) || exists|n: int|
        0 <= n <= name.len() && ends_segment(name, n) && #[trigger] depth_at(name, n) < 0
}

/// Two dots in a row occur somewhere in the name.
pub open spec fn contains_dot_dot(name: Seq<u8>) -> bool {
    exists|i: int| 0 <= i && i + 1 < name.len() && #[trigger] name[i] == DOT && name[i + 1] == DOT
}

/// One of the segments of the name is `..`.
pub open spec fn has_parent_segment(name: Seq<u8>) -> bool {
    exists|i: int|
        0 <= i && i + 1 < name.len() && (i == 0 || name[i - 1] == SLASH) && #[trigger] name[i]
            == DOT && name[i + 1] == DOT && ends_segment(name, i + 2)
}

/// The rule for the name of an archive entry: it is relative and holds no two
/// dots in a row.
pub open spec fn is_safe_entry_name(name: Seq<u8>) -> bool {
    !is_absolute(name) && !contains_dot_dot(name)
}

/// The rule for a file that the pipeline itself creates in the working
/// directory: one segment, which names an entry of that directory.
pub open spec fn is_single_component(name: Seq<u8>) -> bool {
    &&& name.len() > 0
    &&& forall|i: int| 0 <= i < name.len() ==> name[i] != SLASH
    &&& !(name.len() == 1 && name[0] == DOT)
    &&& !(name.len() == 2 && name[0] == DOT && name[1] == DOT)
}

/// Tells whether two dots in a row occur in `name`.
pub fn holds_dot_dot(name: &[u8]) -> (found: bool)
    ensures
        found == contains_dot_dot(name@),
{
    let mut i: usize = 1;
    while i < name.len()
        invariant
            1 <= i,
            forall|k: int| 0 <= k && k + 1 < i && k + 1 < name@.len() ==> !(#[trigger] name@[k]
                == DOT && name@[k + 1] == DOT),
        decreases name.len() - i,
    {
        if name[i - 1] == DOT && name[i] == DOT {
            assert(name@[i - 1] == DOT && name@[i - 1 + 1] == DOT);
            return true;
        }
        i += 1;
    }
    false
}

/// Applies the rule for archive entries to `name`.
pub fn entry_name_is_safe(name: &[u8]) -> (safe: bool)
    ensures
        safe == is_safe_entry_name(name@),
{
    if name.len() > 0 && name[0] == SLASH {
        return false;
    }
    !holds_dot_dot(name)
}

/// Applies the rule for the pipeline's own files to `name`.
pub fn name_is_single_component(name: &[u8]) -> (single: bool)
    ensures
        single == is_single_component(name@),
{
    let n = name.len();
    if n == 0 || (n == 1 && name[0] == DOT) || (n == 2 && name[0] == DOT && name[1] == DOT) {
        return false;
    }
    let mut i: usize = 0;
    while i < n
        invariant
            i <= n == name@.len(),
            forall|k: int| 0 <= k < i ==> name@[k] != SLASH,
        decreases n - i,
    {
        if name[i] == SLASH {
            return false;
        }
        i += 1;
    }
    true
}

/// In a name without two dots in a row no segment is `..`, so the walk never
/// goes up.
pub proof fn lemma_walk_without_dot_dot(name: Seq<u8>, n: int)
    requires
        !contains_dot_dot(name),
        0 <= n <= name.len(),
    ensures
        open_segment(name, n) != Segment::DotDot,
        open_segment(name, n) == Segment::Dot ==> n >= 1 && name[n - 1] == DOT,
        closed_depth(name, n) >= 0,
        depth_at(name, n) >= 0,
    decreases n,
{
    if n > 0 {
        lemma_walk_without_dot_dot(name, n - 1);
        if open_segment(name, n) == Segment::DotDot {
            assert(name[n - 2] == DOT && name[n - 2 + 1] == DOT);
        }
    }
}

/// A `..` segment is two dots in a row.
pub proof fn lemma_parent_segment_holds_dot_dot(name: Seq<u8>)
    requires
        has_parent_segment(name),
    ensures
        contains_dot_dot(name),
{
    let i = choose|i: int|
        0 <= i && i + 1 < name.len() && (i == 0 || name[i - 1] == SLASH) && #[trigger] name[i]
            == DOT && name[i + 1] == DOT && ends_segment(name, i + 2);
    assert(name[i] == DOT && name[i + 1] == DOT);
}

/// The guard is sound: a name that passes the rule for archive entries stays
/// inside the directory it is resolved in, and none of its segments is `..`.
pub proof fn lemma_safe_entry_name_stays_inside(name: Seq<u8>)
    requires
        is_safe_entry_name(name),
    ensures
        !escapes_root(name),
        !has_parent_segment(name),
{
    assert forall|n: int| 0 <= n <= name.len() implies #[trigger] depth_at(name, n) >= 0 by {
        lemma_walk_without_dot_dot(name, n);
    }
    if has_parent_segment(name) {
        lemma_parent_segment_holds_dot_dot(name);
    }
}

/// The guard is complete for what it must refuse: a name with a `..` segment,
/// or one that leads out of the directory, does not pass.
pub proof fn lemma_traversal_is_refused(name: Seq<u8>)
    requires
        has_parent_segment(name) || contains_dot_dot(name) || escapes_root(name),
    ensures
        !is_safe_entry_name(name),
{
    if is_safe_entry_name(name) {
        lemma_safe_entry_name_stays_inside(name);
    }
}

/// In a name without a separator the segment in progress is the whole name.
pub proof fn lemma_walk_of_single_segment(name: Seq<u8>, n: int)
    requires
        forall|i: int| 0 <= i < name.len() ==> name[i] != SLASH,
        0 <= n <= name.len(),
    ensures
        closed_depth(name, n) == 0,
        open_segment(name, n) == Segment::Empty <==> n == 0,
        open_segment(name, n) == Segment::Dot <==> n == 1 && name[0] == DOT,
        open_segment(name, n) == Segment::DotDot <==> n == 2 && name[0] == DOT && name[1] == DOT,
    decreases n,
{
    if n > 0 {
        lemma_walk_of_single_segment(name, n - 1);
    }
}

/// A single component names an entry of the directory: it leads one level
/// down and never out.
pub proof fn lemma_single_component_stays_inside(name: Seq<u8>)
    requires
        is_single_component(name),
    ensures
        !escapes_root(name),
        !has_parent_segment(name),
        depth_at(name, name.len() as int) == 1,
{
    assert forall|n: int| 0 <= n <= name.len() && ends_segment(name, n) implies #[trigger] depth_at(
        name,
        n,
    ) >= 0 by {
        lemma_walk_of_single_segment(name, n);
    }
    lemma_walk_of_single_segment(name, name.len() as int);
    if has_parent_segment(name) {
        let i = choose|i: int|
            0 <= i && i + 1 < name.len() && (i == 0 || name[i - 1] == SLASH) && #[trigger] name[i]
                == DOT && name[i + 1] == DOT && ends_segment(name, i + 2);
        assert(i == 0);
        assert(name.len() == 2);
    }
}

} // verus!
