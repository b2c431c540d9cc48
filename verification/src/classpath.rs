//! Splitting a Ruby class path into its modules and class.
//!
//! A configuration names the class by its full constant path, for example
//! `Foo::Bar::Baz`. When bindings are generated, each leading segment becomes
//! a module to define and the final segment the class itself. [`split_path`]
//! states the splitting mathematically — leftmost separator first, exactly as
//! the textual path reads — and [`split_class_path`] computes it.

use vstd::prelude::*;
use vstd::string::*;

verus! {

/// The segments of `s`, split on each leftmost occurrence of `::`.
///
/// The result always has at least one segment ([`lemma_split_path_nonempty`]),
/// no segment contains `::` ([`lemma_split_path_segments_sep_free`]), and
/// joining the segments back with `::` restores `s`
/// ([`lemma_join_split_path`]).
pub open spec fn split_path(s: Seq<char>) -> Seq<Seq<char>>
    decreases s.len(),
{
    if s.len() < 2 {
        seq![s]
    } else if s[0] == ':' && s[1] == ':' {
        seq![Seq::<char>::empty()] + split_path(s.skip(2))
    } else {
        let rest = split_path(s.skip(1));
        seq![seq![s[0]] + rest[0]] + rest.skip(1)
    }
}

/// The segments joined back together with `::` between them.
pub open spec fn join_path(parts: Seq<Seq<char>>) -> Seq<char>
    decreases parts.len(),
{
    if parts.len() == 0 {
        Seq::empty()
    } else if parts.len() == 1 {
        parts[0]
    } else {
        parts[0] + seq![':', ':'] + join_path(parts.skip(1))
    }
}

/// True when `p` contains `::` somewhere.
pub open spec fn has_sep(p: Seq<char>) -> bool {
    exists|i: int| 0 <= i && i + 2 <= p.len() && #[trigger] p[i] == ':' && p[i + 1] == ':'
}

/// A split never yields zero segments: even the empty path has the one empty
/// segment.
pub proof fn lemma_split_path_nonempty(s: Seq<char>)
    ensures
        split_path(s).len() >= 1,
    decreases s.len(),
{
    if s.len() < 2 {
    } else if s[0] == ':' && s[1] == ':' {
        lemma_split_path_nonempty(s.skip(2));
    } else {
        lemma_split_path_nonempty(s.skip(1));
    }
}

/// When the path does not itself open with a separator, the first segment
/// starts with the path's first character.
proof fn lemma_split_path_head_char(s: Seq<char>)
    requires
        s.len() >= 1,
        !(s.len() >= 2 && s[0] == ':' && s[1] == ':'),
    ensures
        split_path(s)[0].len() >= 1,
        split_path(s)[0][0] == s[0],
{
    if s.len() < 2 {
        assert(split_path(s)[0] == s);
    } else {
        let rest = split_path(s.skip(1));
        lemma_split_path_nonempty(s.skip(1));
        assert(split_path(s)[0] == seq![s[0]] + rest[0]);
        assert((seq![s[0]] + rest[0])[0] == s[0]);
    }
}

/// No segment of a split contains the separator.
pub proof fn lemma_split_path_segments_sep_free(s: Seq<char>)
    ensures
        forall|k: int| 0 <= k < split_path(s).len() ==> !has_sep(#[trigger] split_path(s)[k]),
    decreases s.len(),
{
    if s.len() < 2 {
        assert(!has_sep(s));
    } else if s[0] == ':' && s[1] == ':' {
        lemma_split_path_segments_sep_free(s.skip(2));
        lemma_split_path_nonempty(s.skip(2));
        let parts = split_path(s);
        let rest = split_path(s.skip(2));
        assert(parts[0] == Seq::<char>::empty());
        assert(!has_sep(Seq::<char>::empty()));
        assert forall|k: int| 1 <= k < parts.len() implies !has_sep(parts[k]) by {
            assert(parts[k] == rest[k - 1]);
        }
    } else {
        lemma_split_path_segments_sep_free(s.skip(1));
        lemma_split_path_nonempty(s.skip(1));
        let rest = split_path(s.skip(1));
        let parts = split_path(s);
        let head = seq![s[0]] + rest[0];
        assert(parts[0] == head);
        // A separator in the first segment would have to start at its first
        // character; the tail of the segment is separator-free by induction.
        assert(!has_sep(head)) by {
            if has_sep(head) {
                let i = choose|i: int|
                    0 <= i && i + 2 <= head.len() && #[trigger] head[i] == ':' && head[i + 1]
                        == ':';
                if i == 0 {
                    // head[0] == s[0] and head[1] is the first character of
                    // the next segment, which cannot continue a separator.
                    assert(head[0] == s[0]);
                    assert(rest[0].len() >= 1 && head[1] == rest[0][0]);
                    if s[0] == ':' {
                        // The character after s[0] is not ':', and it is also
                        // the first character of rest[0].
                        assert(s.skip(1).len() >= 1);
                        assert(!(s.skip(1).len() >= 2 && s.skip(1)[0] == ':' && s.skip(1)[1]
                            == ':'));
                        lemma_split_path_head_char(s.skip(1));
                        assert(rest[0][0] == s.skip(1)[0]);
                        assert(s.skip(1)[0] == s[1]);
                        assert(head[1] != ':');
                    }
                } else {
                    assert(head[i] == rest[0][i - 1] && head[i + 1] == rest[0][i]);
                    assert(has_sep(rest[0]));
                }
            }
        }
        assert forall|k: int| 1 <= k < parts.len() implies !has_sep(parts[k]) by {
            assert(parts[k] == rest.skip(1)[k - 1]);
            assert(rest.skip(1)[k - 1] == rest[k]);
        }
    }
}

/// Joining the segments of a split with `::` restores the path: the split
/// loses nothing.
pub proof fn lemma_join_split_path(s: Seq<char>)
    ensures
        join_path(split_path(s)) == s,
    decreases s.len(),
{
    if s.len() < 2 {
    } else if s[0] == ':' && s[1] == ':' {
        lemma_join_split_path(s.skip(2));
        lemma_split_path_nonempty(s.skip(2));
        let rest = split_path(s.skip(2));
        let parts = split_path(s);
        assert(parts.len() >= 2);
        assert(parts[0] == Seq::<char>::empty());
        assert(parts.skip(1) =~= rest);
        assert(join_path(parts) == Seq::<char>::empty() + seq![':', ':'] + join_path(rest));
        assert(Seq::<char>::empty() + seq![':', ':'] + s.skip(2) =~= s);
    } else {
        lemma_join_split_path(s.skip(1));
        lemma_split_path_nonempty(s.skip(1));
        let rest = split_path(s.skip(1));
        let parts = split_path(s);
        assert(parts[0] == seq![s[0]] + rest[0]);
        if rest.len() == 1 {
            assert(join_path(rest) == rest[0]);
            assert(parts.len() == 1);
            assert(join_path(parts) == seq![s[0]] + rest[0]);
            assert(seq![s[0]] + s.skip(1) =~= s);
        } else {
            assert(parts.len() >= 2);
            assert(parts.skip(1) =~= rest.skip(1));
            assert(join_path(parts) == parts[0] + seq![':', ':'] + join_path(rest.skip(1)));
            assert(join_path(rest) == rest[0] + seq![':', ':'] + join_path(rest.skip(1)));
            assert(parts[0] + seq![':', ':'] + join_path(rest.skip(1)) =~= seq![s[0]] + (rest[0]
                + seq![':', ':'] + join_path(rest.skip(1))));
            assert(seq![s[0]] + s.skip(1) =~= s);
        }
    }
}

/// A segment under construction, put back on the front of the segments of the
/// unscanned remainder.
spec fn prepend_head(p: Seq<char>, parts: Seq<Seq<char>>) -> Seq<Seq<char>>
    recommends
        parts.len() >= 1,
{
    seq![p + parts[0]] + parts.skip(1)
}

proof fn lemma_prepend_head_empty(parts: Seq<Seq<char>>)
    requires
        parts.len() >= 1,
    ensures
        prepend_head(Seq::empty(), parts) == parts,
{
    assert(Seq::<char>::empty() + parts[0] =~= parts[0]);
    assert(prepend_head(Seq::empty(), parts) =~= parts);
}

/// Splits a class path on `::`, exactly as [`split_path`] says.
pub fn split_class_path<'a>(path: &'a str) -> (r: Vec<&'a str>)
    ensures
        r.deep_view() == split_path(path@),
{
    let n = path.unicode_len();
    let mut parts: Vec<&'a str> = Vec::new();
    let mut start: usize = 0;
    let mut i: usize = 0;
    proof {
        lemma_split_path_nonempty(path@);
        lemma_prepend_head_empty(split_path(path@));
        assert(path@.skip(0) =~= path@);
        assert(path@.subrange(0, 0) =~= Seq::<char>::empty());
    }
    while i < n
        invariant
            n == path@.len(),
            start <= i <= n,
            split_path(path@.skip(i as int)).len() >= 1,
            split_path(path@) == parts.deep_view() + prepend_head(
                path@.subrange(start as int, i as int),
                split_path(path@.skip(i as int)),
            ),
        decreases n - i,
    {
        let ghost cur = path@.subrange(start as int, i as int);
        let ghost tail = path@.skip(i as int);
        if i + 1 < n && path.get_char(i) == ':' && path.get_char(i + 1) == ':' {
            let ghost old_dv = parts.deep_view();
            let seg = path.substring_char(start, i);
            parts.push(seg);
            proof {
                let rest = split_path(path@.skip(i as int + 2));
                lemma_split_path_nonempty(path@.skip(i as int + 2));
                assert(tail.len() >= 2 && tail[0] == ':' && tail[1] == ':');
                assert(tail.skip(2) =~= path@.skip(i as int + 2));
                assert(split_path(tail) == seq![Seq::<char>::empty()] + rest);
                assert(prepend_head(cur, split_path(tail)) =~= seq![cur] + rest) by {
                    assert((seq![Seq::<char>::empty()] + rest)[0] == Seq::<char>::empty());
                    assert(cur + Seq::<char>::empty() =~= cur);
                    assert((seq![Seq::<char>::empty()] + rest).skip(1) =~= rest);
                }
                assert(parts.deep_view() =~= old_dv.push(cur));
                lemma_prepend_head_empty(rest);
                assert(path@.subrange(i as int + 2, i as int + 2) =~= Seq::<char>::empty());
                assert(parts.deep_view() + prepend_head(
                    path@.subrange(i as int + 2, i as int + 2),
                    rest,
                ) =~= old_dv + prepend_head(cur, split_path(tail)));
            }
            start = i + 2;
            i = i + 2;
        } else {
            proof {
                let cur2 = path@.subrange(start as int, i as int + 1);
                assert(cur2 =~= cur + seq![path@[i as int]]);
                assert(tail[0] == path@[i as int]);
                if tail.len() == 1 {
                    assert(split_path(tail) == seq![tail]);
                    assert(path@.skip(i as int + 1) =~= Seq::<char>::empty());
                    assert(split_path(path@.skip(i as int + 1)) == seq![Seq::<char>::empty()]);
                    assert(prepend_head(cur, split_path(tail)) =~= prepend_head(
                        cur2,
                        split_path(path@.skip(i as int + 1)),
                    )) by {
                        assert(cur + tail =~= cur2 + Seq::<char>::empty());
                        assert((seq![tail]).skip(1) =~= (seq![Seq::<char>::empty()]).skip(1));
                    }
                } else {
                    assert(tail.len() >= 2);
                    assert(tail[1] == path@[i as int + 1]);
                    assert(!(tail[0] == ':' && tail[1] == ':'));
                    let rest = split_path(tail.skip(1));
                    lemma_split_path_nonempty(tail.skip(1));
                    assert(tail.skip(1) =~= path@.skip(i as int + 1));
                    assert(split_path(tail) == seq![seq![tail[0]] + rest[0]] + rest.skip(1));
                    assert(prepend_head(cur, split_path(tail)) =~= prepend_head(cur2, rest)) by {
                        assert((seq![seq![tail[0]] + rest[0]] + rest.skip(1))[0] == seq![tail[0]]
                            + rest[0]);
                        assert(cur + (seq![tail[0]] + rest[0]) =~= cur2 + rest[0]);
                        assert((seq![seq![tail[0]] + rest[0]] + rest.skip(1)).skip(1)
                            =~= rest.skip(1));
                    }
                }
            }
            i = i + 1;
        }
    }
    let ghost old_dv = parts.deep_view();
    let seg = path.substring_char(start, n);
    proof {
        let tail = path@.skip(n as int);
        assert(tail =~= Seq::<char>::empty());
        assert(split_path(tail) == seq![Seq::<char>::empty()]);
        let cur = path@.subrange(start as int, n as int);
        assert(split_path(tail)[0] == Seq::<char>::empty());
        assert(prepend_head(cur, split_path(tail)) =~= seq![cur]) by {
            assert(cur + Seq::<char>::empty() =~= cur);
            assert((seq![Seq::<char>::empty()]).skip(1) =~= Seq::<Seq<char>>::empty());
        }
        assert(split_path(path@) =~= old_dv + seq![cur]);
    }
    parts.push(seg);
    proof {
        assert(parts.deep_view() =~= old_dv.push(seg@));
        assert(parts.deep_view() =~= split_path(path@));
    }
    parts
}

/// Splits a class path into the modules to define and the class itself: the
/// modules are every segment but the last, the class the last segment.
pub fn split_modules_and_class<'a>(path: &'a str) -> (r: (Vec<&'a str>, &'a str))
    ensures
        r.0.deep_view() == split_path(path@).drop_last(),
        r.1@ == split_path(path@).last(),
{
    let mut parts = split_class_path(path);
    proof {
        lemma_split_path_nonempty(path@);
    }
    let cls = parts.pop().unwrap();
    proof {
        assert(parts.deep_view() =~= split_path(path@).drop_last());
    }
    (parts, cls)
}

} // verus!
