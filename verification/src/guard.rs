//! The path guard: a purely syntactic containment check for sub-paths.
//!
//! A sub-path is decomposed into the segments between `/` separators.  The
//! first component must be the current-directory segment `.` or a normal
//! segment; a parent-directory segment `..` or an absolute-path marker there
//! is rejected outright.  Walking the components, a running *depth level*
//! starts at 0, is left unchanged by `.`, decremented by `..`, and
//! incremented by a normal segment.  The sub-path is accepted exactly when
//! the final level is at least 0; the level may dip below 0 in the middle,
//! only the final value decides.
//!
//! The check is a pure decision over the characters of the path: no storage
//! is touched, and symbolic links are not resolved, so the guard protects
//! against lexical `..` traversal only.

use vstd::prelude::*;

verus! {

/// The kind of one path segment, as the containment check classifies it.
#[derive(Clone, Copy, PartialEq, Eq, Structural, Debug)]
pub enum SegKind {
    /// A run of zero characters between two separators.
    Empty,
    /// The current-directory segment `.`.
    Cur,
    /// The parent-directory segment `..`.
    Parent,
    /// Any other non-empty segment.
    Normal,
}

/// The segments of a path: the maximal runs of characters between `/`
/// separators, in order.  A path always has at least one segment; the empty
/// path has a single empty segment.
pub open spec fn segments(s: Seq<char>) -> Seq<Seq<char>>
    decreases s.len(),
{
    if s.len() == 0 {
        seq![Seq::<char>::empty()]
    } else if s.last() == '/' {
        segments(s.drop_last()).push(Seq::<char>::empty())
    } else {
        let init = segments(s.drop_last());
        init.update(init.len() - 1, init.last().push(s.last()))
    }
}

pub proof fn lemma_segments_nonempty(s: Seq<char>)
    ensures
        segments(s).len() >= 1,
    decreases s.len(),
{
    if s.len() > 0 {
        lemma_segments_nonempty(s.drop_last());
    }
}

/// How the containment check classifies one segment.
pub open spec fn seg_kind(seg: Seq<char>) -> SegKind {
    if seg.len() == 0 {
        SegKind::Empty
    } else if seg.len() == 1 && seg[0] == '.' {
        SegKind::Cur
    } else if seg.len() == 2 && seg[0] == '.' && seg[1] == '.' {
        SegKind::Parent
    } else {
        SegKind::Normal
    }
}

/// The kinds of the non-empty segments, in order.  Empty segments come from
/// repeated, leading or trailing separators and denote no component.
pub open spec fn nonempty_kinds(segs: Seq<Seq<char>>) -> Seq<SegKind>
    decreases segs.len(),
{
    if segs.len() == 0 {
        Seq::<SegKind>::empty()
    } else if seg_kind(segs.last()) == SegKind::Empty {
        nonempty_kinds(segs.drop_last())
    } else {
        nonempty_kinds(segs.drop_last()).push(seg_kind(segs.last()))
    }
}

/// The components of a path: the kinds of its non-empty segments.
pub open spec fn components(s: Seq<char>) -> Seq<SegKind> {
    nonempty_kinds(segments(s))
}

/// How one component moves the depth level.
pub open spec fn level_change(k: SegKind) -> int {
    match k {
        SegKind::Cur => 0,
        SegKind::Parent => -1,
        SegKind::Normal => 1,
        SegKind::Empty => 0,
    }
}

/// The depth level after walking a whole component sequence, starting at 0.
pub open spec fn final_level(cs: Seq<SegKind>) -> int
    decreases cs.len(),
{
    if cs.len() == 0 {
        0
    } else {
        final_level(cs.drop_last()) + level_change(cs.last())
    }
}

/// The containment decision.  A sub-path is accepted exactly when it is not
/// absolute (no leading separator), it has at least one component, its first
/// component is `.` or a normal segment, and the final depth level is at
/// least 0.
pub open spec fn path_accepted(s: Seq<char>) -> bool {
    let cs = components(s);
    &&& !(s.len() > 0 && s[0] == '/')
    &&& cs.len() > 0
    &&& (cs[0] == SegKind::Cur || cs[0] == SegKind::Normal)
    &&& final_level(cs) >= 0
}

/// Whether every character of a segment is a dot.  A segment of at most two
/// characters is classified by this alone.
spec fn all_dots(seg: Seq<char>) -> bool {
    forall|j: int| 0 <= j < seg.len() ==> seg[j] == '.'
}

/// The components of the path completed strictly before the segment still in
/// progress after reading `i` characters.
spec fn done_at(s: Seq<char>, i: int) -> Seq<SegKind> {
    nonempty_kinds(segments(s.subrange(0, i)).drop_last())
}

/// Classifies a segment from its length and whether it is all dots.
fn classify(len: usize, dots: bool, Ghost(seg): Ghost<Seq<char>>) -> (k: SegKind)
    requires
        len == seg.len(),
        dots == all_dots(seg),
    ensures
        k == seg_kind(seg),
{
    if len == 0 {
        SegKind::Empty
    } else if dots && len == 1 {
        proof {
            assert(seg[0] == '.');
        }
        SegKind::Cur
    } else if dots && len == 2 {
        proof {
            assert(seg[0] == '.' && seg[1] == '.');
        }
        SegKind::Parent
    } else {
        proof {
            if len <= 2 {
                assert(!all_dots(seg));
                let j = choose|j: int| 0 <= j < seg.len() && seg[j] != '.';
                assert(seg[j] != '.');
            }
        }
        SegKind::Normal
    }
}

/// How reading one more character extends the segment decomposition: a
/// separator opens a fresh empty segment, any other character grows the
/// segment in progress.
proof fn lemma_segments_step(s: Seq<char>, i: int)
    requires
        0 <= i < s.len(),
    ensures
        s[i] == '/' ==> segments(s.subrange(0, i + 1)) == segments(s.subrange(0, i)).push(
            Seq::<char>::empty(),
        ),
        s[i] != '/' ==> segments(s.subrange(0, i + 1)) == segments(s.subrange(0, i)).update(
            segments(s.subrange(0, i)).len() - 1,
            segments(s.subrange(0, i)).last().push(s[i]),
        ),
{
    let pre = s.subrange(0, i);
    let post = s.subrange(0, i + 1);
    lemma_segments_nonempty(pre);
    assert(post.drop_last() =~= pre);
    assert(post.last() == s[i]);
}

/// Runs the containment check of [`path_accepted`] on a sub-path.
///
/// The decision is pure: no storage is consulted, and both outcomes are
/// reached without panicking for every possible path.
pub fn check_path(path: &str) -> (r: bool)
    ensures
        r == path_accepted(path@),
{
    let n = path.unicode_len();
    let mut i: usize = 0;
    let mut seg_len: usize = 0;
    let mut dots: bool = true;
    let mut level: i128 = 0;
    let mut have_first: bool = false;
    let mut first_ok: bool = false;
    proof {
        assert(path@.subrange(0, 0) =~= Seq::<char>::empty());
    }
    while i < n
        invariant
            n == path@.len(),
            i <= n,
            seg_len <= i,
            seg_len as int == segments(path@.subrange(0, i as int)).last().len(),
            dots == all_dots(segments(path@.subrange(0, i as int)).last()),
            level as int == final_level(done_at(path@, i as int)),
            -(i as int) <= level as int <= i as int,
            have_first == (done_at(path@, i as int).len() > 0),
            have_first ==> first_ok == (done_at(path@, i as int)[0] == SegKind::Cur
                || done_at(path@, i as int)[0] == SegKind::Normal),
        decreases n - i,
    {
        let c: char = path.get_char(i);
        let ghost pre = segments(path@.subrange(0, i as int));
        proof {
            lemma_segments_nonempty(path@.subrange(0, i as int));
            lemma_segments_step(path@, i as int);
        }
        if c == '/' {
            let k = classify(seg_len, dots, Ghost(pre.last()));
            proof {
                assert(pre.push(Seq::<char>::empty()).drop_last() =~= pre);
                assert(done_at(path@, i + 1) == nonempty_kinds(pre));
                assert(pre.drop_last().push(pre.last()) =~= pre);
                if k != SegKind::Empty {
                    assert(nonempty_kinds(pre) == done_at(path@, i as int).push(k));
                    assert(nonempty_kinds(pre).drop_last() =~= done_at(path@, i as int));
                }
            }
            if !(k == SegKind::Empty) {
                if !have_first {
                    have_first = true;
                    first_ok = k == SegKind::Cur || k == SegKind::Normal;
                }
                if k == SegKind::Parent {
                    level = level - 1;
                } else if k == SegKind::Normal {
                    level = level + 1;
                }
            }
            seg_len = 0;
            dots = true;
        } else {
            proof {
                let post = segments(path@.subrange(0, i + 1));
                assert(post.drop_last() =~= pre.drop_last());
                assert(post.last() == pre.last().push(c));
                let grown = pre.last().push(c);
                if dots && c == '.' {
                    assert forall|j: int| 0 <= j < grown.len() implies grown[j] == '.' by {
                        if j < pre.last().len() {
                            assert(grown[j] == pre.last()[j]);
                        } else {
                            assert(grown[j] == c);
                        }
                    }
                } else if dots {
                    assert(grown[grown.len() - 1] == c);
                    assert(!all_dots(grown));
                } else {
                    let j = choose|j: int| 0 <= j < pre.last().len() && pre.last()[j] != '.';
                    assert(grown[j] == pre.last()[j]);
                    assert(!all_dots(grown));
                }
            }
            seg_len = seg_len + 1;
            dots = dots && c == '.';
        }
        i = i + 1;
    }
    proof {
        assert(path@.subrange(0, n as int) =~= path@);
    }
    let k = classify(seg_len, dots, Ghost(segments(path@).last()));
    proof {
        lemma_segments_nonempty(path@);
        assert(segments(path@).drop_last().push(segments(path@).last()) =~= segments(path@));
        if k != SegKind::Empty {
            assert(components(path@) == done_at(path@, n as int).push(k));
            assert(components(path@).drop_last() =~= done_at(path@, n as int));
        } else {
            assert(components(path@) == done_at(path@, n as int));
        }
    }
    if !(k == SegKind::Empty) {
        if !have_first {
            have_first = true;
            first_ok = k == SegKind::Cur || k == SegKind::Normal;
        }
        if k == SegKind::Parent {
            level = level - 1;
        } else if k == SegKind::Normal {
            level = level + 1;
        }
    }
    let absolute: bool = if n == 0 {
        false
    } else {
        path.get_char(0) == '/'
    };
    !absolute && have_first && first_ok && level >= 0
}

} // verus!
