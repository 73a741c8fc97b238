//! Hierarchical subject and reply addressing.
//!
//! Addresses are strings segmented by `.`.  A reply address embeds the
//! correlation id as its final segment (`"<base>.<id>"`), and the reply
//! dispatcher recovers the id by taking the trailing dot-delimited segment.
//! The intercom variant prefixes subjects with `post`, `request` or `reply`.

use vstd::prelude::*;

verus! {

/// `base`, a dot, and `segment`.
pub open spec fn spec_with_segment(base: Seq<char>, segment: Seq<char>) -> Seq<char> {
    base + seq!['.'] + segment
}

/// The position just after the last `'.'` of `s`, or `0` if `s` has none.
pub open spec fn spec_tail_start(s: Seq<char>) -> int
    decreases s.len(),
{
    if s.len() == 0 {
        0
    } else if s[s.len() - 1] == '.' {
        s.len() as int
    } else {
        spec_tail_start(s.drop_last())
    }
}

/// The final dot-delimited segment of `s`: what follows the last `'.'`,
/// or all of `s` if it holds no dot.
pub open spec fn spec_trailing_segment(s: Seq<char>) -> Seq<char> {
    s.subrange(spec_tail_start(s), s.len() as int)
}

/// Appends `.` and `segment` to `base`.  Reply addresses and delayed-call
/// subjects embed the correlation id as such a trailing segment.
pub fn with_segment(base: &str, segment: &str) -> (r: String)
    ensures
        r@ == spec_with_segment(base@, segment@),
{
    let mut r = base.to_owned();
    r.append(".");
    r.append(segment);
    proof {
        reveal_strlit(".");
        assert(r@ =~= spec_with_segment(base@, segment@));
    }
    r
}

/// Where the trailing segment of `s` starts.
fn tail_start(s: &str) -> (r: usize)
    ensures
        r == spec_tail_start(s@),
        r <= s@.len(),
{
    let n = s.unicode_len();
    proof {
        assert(s@.take(n as int) =~= s@);
    }
    let mut i: usize = n;
    while i > 0
        invariant
            i <= n,
            n == s@.len(),
            spec_tail_start(s@) == spec_tail_start(s@.take(i as int)),
        decreases i,
    {
        if s.get_char(i - 1) == '.' {
            proof {
                assert(s@.take(i as int).last() == s@[i - 1]);
                assert(spec_tail_start(s@.take(i as int)) == i);
            }
            return i;
        }
        proof {
            assert(s@.take(i as int).last() == s@[i - 1]);
            assert(s@.take(i as int).drop_last() =~= s@.take(i as int - 1));
        }
        i = i - 1;
    }
    proof {
        assert(s@.take(0) =~= Seq::<char>::empty());
    }
    0
}

/// The final dot-delimited segment of `s`.  The reply dispatcher uses this
/// to recover the correlation id embedded in a reply address.
pub fn trailing_segment(s: &str) -> (r: String)
    ensures
        r@ == spec_trailing_segment(s@),
{
    let n = s.unicode_len();
    let start = tail_start(s);
    let seg = s.substring_char(start, n);
    seg.to_owned()
}

/// Appending a dot-free segment to the right of `s` leaves the position of
/// the last dot alone.
proof fn lemma_tail_start_append_no_dots(s: Seq<char>, t: Seq<char>)
    requires
        forall|j: int| 0 <= j < t.len() ==> t[j] != '.',
    ensures
        spec_tail_start(s + t) == spec_tail_start(s),
    decreases t.len(),
{
    if t.len() == 0 {
        assert(s + t =~= s);
    } else {
        assert((s + t).last() == t[t.len() - 1]);
        assert((s + t).drop_last() =~= s + t.drop_last());
        lemma_tail_start_append_no_dots(s, t.drop_last());
    }
}

/// Addressing round trip: the reply address computed for a dot-free
/// correlation id hands that id back as its trailing segment.
pub proof fn lemma_with_segment_round_trip(base: Seq<char>, id: Seq<char>)
    requires
        !id.contains('.'),
    ensures
        spec_trailing_segment(spec_with_segment(base, id)) == id,
{
    let stem = base + seq!['.'];
    assert(forall|j: int| 0 <= j < id.len() ==> id[j] != '.');
    lemma_tail_start_append_no_dots(stem, id);
    assert(stem.last() == '.');
    assert(spec_tail_start(stem) == stem.len());
    assert(spec_with_segment(base, id) == stem + id);
    assert(spec_trailing_segment(stem + id) =~= id);
}

/// The segments, joined by dots: the inverse reading of a subject split.
pub open spec fn spec_join_dots(segs: Seq<Seq<char>>) -> Seq<char>
    decreases segs.len(),
{
    if segs.len() == 0 {
        Seq::empty()
    } else if segs.len() == 1 {
        segs[0]
    } else {
        segs[0] + seq!['.'] + spec_join_dots(segs.drop_first())
    }
}

/// Extending the last segment by a character extends the join by it.
proof fn lemma_join_extend_last(segs: Seq<Seq<char>>, last: Seq<char>, c: char)
    ensures
        spec_join_dots(segs.push(last.push(c))) == spec_join_dots(segs.push(last)).push(c),
    decreases segs.len(),
{
    if segs.len() == 0 {
        assert(segs.push(last.push(c))[0] == last.push(c));
        assert(segs.push(last)[0] == last);
    } else {
        assert(segs.push(last).drop_first() =~= segs.drop_first().push(last));
        assert(segs.push(last.push(c)).drop_first() =~= segs.drop_first().push(last.push(c)));
        assert(segs.push(last.push(c))[0] == segs[0]);
        assert(segs.push(last)[0] == segs[0]);
        lemma_join_extend_last(segs.drop_first(), last, c);
        assert((segs[0] + seq!['.'] + spec_join_dots(segs.drop_first().push(last))).push(c)
            =~= segs[0] + seq!['.'] + spec_join_dots(segs.drop_first().push(last)).push(c));
    }
}

/// Opening a fresh empty segment appends a dot to the join.
proof fn lemma_join_open_segment(segs: Seq<Seq<char>>, last: Seq<char>)
    ensures
        spec_join_dots(segs.push(last).push(Seq::empty())) == spec_join_dots(
            segs.push(last),
        ).push('.'),
    decreases segs.len(),
{
    if segs.len() == 0 {
        let a = segs.push(last).push(Seq::<char>::empty());
        assert(a.len() == 2);
        assert(a[0] == last);
        assert(a.drop_first() =~= Seq::empty().push(Seq::<char>::empty()));
        assert(a.drop_first().len() == 1);
        assert(a.drop_first()[0] =~= Seq::<char>::empty());
        assert(spec_join_dots(a.drop_first()) =~= Seq::<char>::empty());
        assert(spec_join_dots(a) =~= last + seq!['.'] + Seq::<char>::empty());
        assert(spec_join_dots(a) =~= last.push('.'));
        assert(segs.push(last)[0] == last);
        assert(spec_join_dots(segs.push(last)) == last);
    } else {
        assert(segs.push(last).push(Seq::empty()).drop_first() =~= segs.drop_first().push(
            last,
        ).push(Seq::empty()));
        assert(segs.push(last).drop_first() =~= segs.drop_first().push(last));
        assert(segs.push(last).push(Seq::empty())[0] == segs[0]);
        assert(segs.push(last)[0] == segs[0]);
        lemma_join_open_segment(segs.drop_first(), last);
        assert((segs[0] + seq!['.'] + spec_join_dots(segs.drop_first().push(last))).push('.')
            =~= segs[0] + seq!['.'] + spec_join_dots(segs.drop_first().push(last)).push('.'));
    }
}

/// Splits a subject at its dots.  The result is the one reading of `s` as
/// dot-free segments whose dot-join is `s` again: what a handler matches
/// its routing patterns against.
pub fn split_subject(s: &str) -> (r: Vec<String>)
    ensures
        r@.len() >= 1,
        forall|i: int| 0 <= i < r@.len() ==> !(#[trigger] r@[i]@).contains('.'),
        spec_join_dots(r@.map_values(|seg: String| seg@)) == s@,
{
    let n = s.unicode_len();
    let mut done: Vec<String> = Vec::new();
    let mut start: usize = 0;
    let mut i: usize = 0;
    proof {
        assert(done@.map_values(|seg: String| seg@).push(s@.subrange(0, 0)) =~= Seq::empty().push(
            s@.subrange(0, 0),
        ));
        assert(s@.subrange(0, 0) =~= Seq::<char>::empty());
        assert(s@.take(0) =~= Seq::<char>::empty());
    }
    while i < n
        invariant
            i <= n,
            start <= i,
            n == s@.len(),
            forall|j: int| start <= j < i ==> s@[j] != '.',
            forall|j: int| 0 <= j < done@.len() ==> !(#[trigger] done@[j]@).contains('.'),
            spec_join_dots(
                done@.map_values(|seg: String| seg@).push(
                    s@.subrange(start as int, i as int),
                ),
            ) == s@.take(i as int),
        decreases n - i,
    {
        let ghost segs = done@.map_values(|seg: String| seg@);
        let ghost cur = s@.subrange(start as int, i as int);
        let c = s.get_char(i);
        if c == '.' {
            proof {
                assert forall|k: int| 0 <= k < cur.len() implies cur[k] != '.' by {
                    assert(cur[k] == s@[start + k]);
                }
                assert(!cur.contains('.'));
            }
            let seg = s.substring_char(start, i).to_owned();
            done.push(seg);
            start = i + 1;
            proof {
                assert(done@.map_values(|seg_: String| seg_@) =~= segs.push(cur));
                lemma_join_open_segment(segs, cur);
                assert(s@.subrange(i as int + 1, i as int + 1) =~= Seq::<char>::empty());
                assert(s@.take(i as int).push('.') =~= s@.take(i as int + 1));
            }
        } else {
            proof {
                assert(s@.subrange(start as int, i as int + 1) =~= cur.push(c));
                lemma_join_extend_last(segs, cur, c);
                assert(s@.take(i as int).push(c) =~= s@.take(i as int + 1));
            }
        }
        i = i + 1;
    }
    let ghost segs = done@.map_values(|seg: String| seg@);
    let ghost cur = s@.subrange(start as int, n as int);
    proof {
        assert forall|k: int| 0 <= k < cur.len() implies cur[k] != '.' by {
            assert(cur[k] == s@[start + k]);
        }
        assert(!cur.contains('.'));
        assert(s@.take(n as int) =~= s@);
    }
    let last = s.substring_char(start, n).to_owned();
    done.push(last);
    proof {
        assert(done@.map_values(|seg: String| seg@) =~= segs.push(cur));
    }
    done
}

/// The intercom subject for fire-and-forget delivery to `actor_name`:
/// `"post.<actor_name>"`.
pub fn post_subject(actor_name: &str) -> (r: String)
    ensures
        r@ == spec_with_segment("post"@, actor_name@),
{
    let mut r = String::from_str("post.");
    r.append(actor_name);
    proof {
        reveal_strlit("post.");
        reveal_strlit("post");
        assert(r@ =~= spec_with_segment("post"@, actor_name@));
    }
    r
}

/// The intercom subject for a delivery to `actor_name` that expects a
/// reply: `"request.<actor_name>"`.
pub fn request_subject(actor_name: &str) -> (r: String)
    ensures
        r@ == spec_with_segment("request"@, actor_name@),
{
    let mut r = String::from_str("request.");
    r.append(actor_name);
    proof {
        reveal_strlit("request.");
        reveal_strlit("request");
        assert(r@ =~= spec_with_segment("request"@, actor_name@));
    }
    r
}

/// The intercom reply address for `actor_name` and a correlation id:
/// `"reply.<actor_name>.<id>"`.
pub fn reply_subject(actor_name: &str, id: &str) -> (r: String)
    ensures
        r@ == spec_with_segment(spec_with_segment("reply"@, actor_name@), id@),
{
    let mut r = String::from_str("reply.");
    r.append(actor_name);
    r.append(".");
    r.append(id);
    proof {
        reveal_strlit("reply.");
        reveal_strlit("reply");
        reveal_strlit(".");
        assert(r@ =~= spec_with_segment(spec_with_segment("reply"@, actor_name@), id@));
    }
    r
}

} // verus!
