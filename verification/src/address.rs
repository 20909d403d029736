//! The address codec: a wire address is a '/'-separated string; matching and
//! message building work on its non-empty segments.

use vstd::prelude::*;
use crate::text::{append_i32_dec, append_u32_dec, dec_digits, dec_i32, is_dec_digit,
    lemma_dec_digits_value};

verus! {

/// Index of the first '/' in `s`, or `s.len()` if there is none.
pub open spec fn first_slash(s: Seq<char>) -> nat
    decreases s.len(),
{
    if s.len() == 0 {
        0
    } else if s[0] == '/' {
        0
    } else {
        1 + first_slash(s.drop_first())
    }
}

/// The non-empty segments of `s`, in order: separators at either end and
/// doubled separators contribute nothing.
pub open spec fn split_segments(s: Seq<char>) -> Seq<Seq<char>>
    decreases s.len(),
    via split_segments_decreases
{
    if s.len() == 0 {
        seq![]
    } else if s[0] == '/' {
        split_segments(s.drop_first())
    } else {
        let k = first_slash(s);
        seq![s.subrange(0, k as int)] + split_segments(s.subrange(k as int, s.len() as int))
    }
}

#[via_fn]
proof fn split_segments_decreases(s: Seq<char>) {
    lemma_first_slash(s);
}

/// A string that can stand as one segment of an address.
pub open spec fn seg_ok(s: Seq<char>) -> bool {
    s.len() > 0 && forall|j: int| 0 <= j < s.len() ==> s[j] != '/'
}

pub proof fn lemma_first_slash(s: Seq<char>)
    ensures
        first_slash(s) <= s.len(),
        forall|j: int| 0 <= j < first_slash(s) ==> s[j] != '/',
        first_slash(s) < s.len() ==> s[first_slash(s) as int] == '/',
    decreases s.len(),
{
    if s.len() > 0 && s[0] != '/' {
        let t = s.drop_first();
        lemma_first_slash(t);
        assert forall|j: int| 0 <= j < first_slash(s) implies s[j] != '/' by {
            if j >= 1 {
                assert(t[j - 1] == s[j]);
                assert(t[j - 1] != '/');
            }
        }
    }
}

pub proof fn lemma_first_slash_is(s: Seq<char>, k: int)
    requires
        0 <= k <= s.len(),
        forall|j: int| 0 <= j < k ==> s[j] != '/',
        k < s.len() ==> s[k] == '/',
    ensures
        first_slash(s) == k,
    decreases s.len(),
{
    if k == 0 {
    } else {
        assert(s[0] != '/');
        let t = s.drop_first();
        assert(forall|j: int| 0 <= j < k - 1 ==> t[j] == s[j + 1] && t[j] != '/');
        assert(k - 1 < t.len() ==> t[k - 1] == s[k]);
        lemma_first_slash_is(t, k - 1);
    }
}

/// Splitting cut at a separator: the segments of `a + "/" + b` are the
/// segments of `a` followed by those of `b`.
pub proof fn lemma_split_concat_slash(a: Seq<char>, b: Seq<char>)
    ensures
        split_segments(a + seq!['/'] + b) == split_segments(a) + split_segments(b),
    decreases a.len(),
{
    let s = a + seq!['/'] + b;
    if a.len() == 0 {
        assert(s[0] == '/');
        assert(s.drop_first() =~= b);
        assert(split_segments(s) == split_segments(b));
        assert(split_segments(a) == Seq::<Seq<char>>::empty());
        assert(split_segments(a) + split_segments(b) =~= split_segments(b));
    } else if a[0] == '/' {
        assert(s[0] == '/');
        assert(s.drop_first() =~= a.drop_first() + seq!['/'] + b);
        lemma_split_concat_slash(a.drop_first(), b);
        assert(split_segments(s) == split_segments(a.drop_first()) + split_segments(b));
        assert(split_segments(a) == split_segments(a.drop_first()));
    } else {
        lemma_first_slash(a);
        let k = first_slash(a) as int;
        assert(s[0] == a[0]);
        assert forall|j: int| 0 <= j < k implies s[j] != '/' by {
            assert(s[j] == a[j]);
        }
        assert(k < s.len() && s[k] == '/') by {
            if k < a.len() {
                assert(s[k] == a[k]);
            }
        }
        lemma_first_slash_is(s, k);
        assert(split_segments(s) == seq![s.subrange(0, k)] + split_segments(
            s.subrange(k, s.len() as int),
        ));
        assert(s.subrange(0, k) =~= a.subrange(0, k));
        if k < a.len() {
            let arest = a.subrange(k, a.len() as int);
            assert(s.subrange(k, s.len() as int) =~= arest + seq!['/'] + b);
            lemma_split_concat_slash(arest, b);
            assert(split_segments(a) == seq![a.subrange(0, k)] + split_segments(arest));
            assert(split_segments(s) =~= split_segments(a) + split_segments(b));
        } else {
            assert(s.subrange(k, s.len() as int) =~= Seq::<char>::empty() + seq!['/'] + b);
            lemma_split_concat_slash(Seq::<char>::empty(), b);
            assert(split_segments(Seq::<char>::empty() + seq!['/'] + b)
                == split_segments(Seq::<char>::empty()) + split_segments(b));
            assert(split_segments(Seq::<char>::empty()) + split_segments(b) =~= split_segments(b));
            assert(a.subrange(k, a.len() as int) =~= Seq::<char>::empty());
            assert(split_segments(a) == seq![a.subrange(0, k)] + split_segments(
                a.subrange(k, a.len() as int),
            ));
            assert(split_segments(s) =~= split_segments(a) + split_segments(b));
        }
    }
}

/// A separator-free, non-empty string is one whole segment.
pub proof fn lemma_split_single(s: Seq<char>)
    requires
        seg_ok(s),
    ensures
        split_segments(s) == seq![s],
{
    lemma_first_slash_is(s, s.len() as int);
    assert(s.subrange(0, s.len() as int) =~= s);
    assert(s.subrange(s.len() as int, s.len() as int) =~= Seq::<char>::empty());
    assert(split_segments(Seq::<char>::empty()) == Seq::<Seq<char>>::empty());
    assert(split_segments(s) == seq![s] + Seq::<Seq<char>>::empty());
    assert(seq![s] + Seq::<Seq<char>>::empty() =~= seq![s]);
}

/// Every segment produced by splitting is non-empty and separator-free.
pub proof fn lemma_split_segments_wellformed(s: Seq<char>)
    ensures
        forall|k: int| 0 <= k < split_segments(s).len() ==> seg_ok(#[trigger] split_segments(s)[k]),
    decreases s.len(),
{
    if s.len() == 0 {
        assert(split_segments(s) == Seq::<Seq<char>>::empty());
    } else if s[0] == '/' {
        lemma_split_segments_wellformed(s.drop_first());
        assert(split_segments(s) == split_segments(s.drop_first()));
    } else {
        lemma_first_slash(s);
        let k = first_slash(s) as int;
        let head = s.subrange(0, k);
        let rest = s.subrange(k, s.len() as int);
        assert(k >= 1);
        assert forall|j: int| 0 <= j < head.len() implies head[j] != '/' by {
            assert(head[j] == s[j]);
        }
        assert(seg_ok(head));
        lemma_split_segments_wellformed(rest);
        assert(split_segments(s) == seq![head] + split_segments(rest));
        assert forall|j: int| 0 <= j < split_segments(s).len() implies seg_ok(
            #[trigger] split_segments(s)[j],
        ) by {
            if j == 0 {
                assert(split_segments(s)[0] == head);
            } else {
                assert(split_segments(s)[j] == split_segments(rest)[j - 1]);
                assert(seg_ok(split_segments(rest)[j - 1]));
            }
        }
    }
}

/// Splits a wire address into its non-empty segments.
pub fn parse_osc_address(addr: &str) -> (r: Vec<String>)
    ensures
        r.deep_view() == split_segments(addr@),
{
    let n = addr.unicode_len();
    let mut segs: Vec<String> = Vec::new();
    let mut i: usize = 0;
    proof {
        assert(addr@.subrange(0, n as int) =~= addr@);
        assert(segs.deep_view() =~= Seq::<Seq<char>>::empty());
        assert(segs.deep_view() + split_segments(addr@) =~= split_segments(addr@));
    }
    while i < n
        invariant
            n == addr@.len(),
            0 <= i <= n,
            split_segments(addr@) == segs.deep_view() + split_segments(
                addr@.subrange(i as int, n as int),
            ),
        decreases n - i,
    {
        let ghost pre = segs.deep_view();
        let c = addr.get_char(i);
        if c == '/' {
            proof {
                let t = addr@.subrange(i as int, n as int);
                assert(t[0] == '/');
                assert(t.drop_first() =~= addr@.subrange(i + 1, n as int));
            }
            i += 1;
        } else {
            let start = i;
            let mut j: usize = i;
            while j < n && addr.get_char(j) != '/'
                invariant
                    n == addr@.len(),
                    i <= j <= n,
                    forall|t: int| i <= t < j ==> addr@[t] != '/',
                decreases n - j,
            {
                j += 1;
            }
            let seg = addr.substring_char(start, j);
            segs.push(String::from_str(seg));
            proof {
                let t = addr@.subrange(start as int, n as int);
                assert(t[0] != '/');
                assert(forall|u: int| 0 <= u < j - start ==> t[u] == addr@[u + start] && t[u]
                    != '/');
                assert(j - start < t.len() ==> t[j - start] == addr@[j as int]);
                lemma_first_slash_is(t, j - start);
                assert(t.subrange(0, j - start) =~= addr@.subrange(start as int, j as int));
                assert(t.subrange(j - start, t.len() as int) =~= addr@.subrange(
                    j as int,
                    n as int,
                ));
                assert(split_segments(t) == seq![seg@] + split_segments(
                    addr@.subrange(j as int, n as int),
                ));
                assert(segs.deep_view() =~= pre.push(seg@));
                assert(segs.deep_view() + split_segments(addr@.subrange(j as int, n as int)) =~= (
                pre + split_segments(addr@.subrange(start as int, n as int))));
            }
            i = j;
        }
    }
    proof {
        assert(addr@.subrange(n as int, n as int) =~= Seq::<char>::empty());
        assert(segs.deep_view() =~= split_segments(addr@));
    }
    segs
}

/// The shape of a three-segment parameter address.
pub open spec fn spec_addr3(head: Seq<char>, guid: Seq<char>, tail: Seq<char>) -> Seq<char> {
    seq!['/'] + head + seq!['/'] + guid + seq!['/'] + tail
}

/// The shape of a five-segment routing-connection address; `idx` is the
/// rendered index segment.
pub open spec fn spec_addr5(
    head: Seq<char>,
    guid: Seq<char>,
    mid: Seq<char>,
    idx: Seq<char>,
    tail: Seq<char>,
) -> Seq<char> {
    seq!['/'] + head + seq!['/'] + guid + seq!['/'] + mid + seq!['/'] + idx + seq!['/'] + tail
}

pub proof fn lemma_split_addr3(head: Seq<char>, guid: Seq<char>, tail: Seq<char>)
    requires
        seg_ok(head),
        seg_ok(guid),
        seg_ok(tail),
    ensures
        split_segments(spec_addr3(head, guid, tail)) == seq![head, guid, tail],
{
    let b = guid + seq!['/'] + tail;
    assert(spec_addr3(head, guid, tail) =~= (Seq::<char>::empty() + seq!['/'] + head) + seq!['/']
        + b);
    lemma_split_concat_slash(Seq::<char>::empty() + seq!['/'] + head, b);
    lemma_split_concat_slash(Seq::<char>::empty(), head);
    assert(Seq::<char>::empty() + seq!['/'] + head =~= (Seq::<char>::empty() + seq!['/']) + head);
    lemma_split_concat_slash(guid, tail);
    lemma_split_single(head);
    lemma_split_single(guid);
    lemma_split_single(tail);
    assert(split_segments(spec_addr3(head, guid, tail)) =~= seq![head, guid, tail]);
}

pub proof fn lemma_split_addr5(
    head: Seq<char>,
    guid: Seq<char>,
    mid: Seq<char>,
    idx: Seq<char>,
    tail: Seq<char>,
)
    requires
        seg_ok(head),
        seg_ok(guid),
        seg_ok(mid),
        seg_ok(idx),
        seg_ok(tail),
    ensures
        split_segments(spec_addr5(head, guid, mid, idx, tail)) == seq![head, guid, mid, idx, tail],
{
    let a = Seq::<char>::empty() + seq!['/'] + head + seq!['/'] + guid + seq!['/'] + mid + seq![
        '/',
    ] + idx;
    assert(spec_addr5(head, guid, mid, idx, tail) =~= a + seq!['/'] + tail);
    lemma_split_concat_slash(a, tail);
    let a2 = Seq::<char>::empty() + seq!['/'] + head + seq!['/'] + guid + seq!['/'] + mid;
    assert(a =~= a2 + seq!['/'] + idx);
    lemma_split_concat_slash(a2, idx);
    let a3 = Seq::<char>::empty() + seq!['/'] + head + seq!['/'] + guid;
    assert(a2 =~= a3 + seq!['/'] + mid);
    lemma_split_concat_slash(a3, mid);
    let a4 = Seq::<char>::empty() + seq!['/'] + head;
    assert(a3 =~= a4 + seq!['/'] + guid);
    lemma_split_concat_slash(a4, guid);
    lemma_split_concat_slash(Seq::<char>::empty(), head);
    assert(a4 =~= (Seq::<char>::empty() + seq!['/']) + head);
    lemma_split_single(head);
    lemma_split_single(guid);
    lemma_split_single(mid);
    lemma_split_single(idx);
    lemma_split_single(tail);
    assert(split_segments(spec_addr5(head, guid, mid, idx, tail)) =~= seq![head, guid, mid, idx,
        tail]);
}

/// A rendered decimal number can stand as an address segment.
pub proof fn lemma_seg_ok_dec_i32(v: int)
    ensures
        seg_ok(dec_i32(v)),
        seg_ok(dec_digits(if v >= 0 {
            v as nat
        } else {
            (-v) as nat
        })),
{
    if v >= 0 {
        lemma_dec_digits_value(v as nat);
        assert(forall|j: int| 0 <= j < dec_i32(v).len() ==> is_dec_digit(#[trigger] dec_i32(v)[j]));
    } else {
        lemma_dec_digits_value((-v) as nat);
        let d = dec_digits((-v) as nat);
        assert(forall|j: int| 0 <= j < d.len() ==> is_dec_digit(#[trigger] d[j]) && d[j] != '/');
        assert(forall|j: int| 0 <= j < dec_i32(v).len() ==> #[trigger] dec_i32(v)[j] == (if j == 0 {
            '-'
        } else {
            d[j - 1]
        }));
    }
}

/// Builds "/track/{guid}/{tail}".
pub fn build_addr3(guid: &str, tail: &str) -> (r: String)
    ensures
        r@ == spec_addr3("track"@, guid@, tail@),
{
    proof {
        reveal_strlit("/track/");
        reveal_strlit("track");
        reveal_strlit("/");
    }
    let mut s = String::from_str("/track/");
    s.append(guid);
    s.append("/");
    s.append(tail);
    proof {
        assert(s@ =~= spec_addr3("track"@, guid@, tail@));
    }
    s
}

/// Builds "/track/{guid}/send/{idx}/{tail}" with the canonical rendering of
/// a signed index.
pub fn build_addr5_i32(guid: &str, idx: i32, tail: &str) -> (r: String)
    ensures
        r@ == spec_addr5("track"@, guid@, "send"@, dec_i32(idx as int), tail@),
{
    proof {
        reveal_strlit("/track/");
        reveal_strlit("/send/");
        reveal_strlit("track");
        reveal_strlit("send");
        reveal_strlit("/");
    }
    let mut s = String::from_str("/track/");
    s.append(guid);
    s.append("/send/");
    append_i32_dec(&mut s, idx);
    s.append("/");
    s.append(tail);
    proof {
        assert(s@ =~= spec_addr5("track"@, guid@, "send"@, dec_i32(idx as int), tail@));
    }
    s
}

/// Builds "/track/{guid}/send/{idx}/{tail}" with the canonical rendering of
/// an unsigned index.
pub fn build_addr5_u32(guid: &str, idx: u32, tail: &str) -> (r: String)
    ensures
        r@ == spec_addr5("track"@, guid@, "send"@, dec_digits(idx as nat), tail@),
{
    proof {
        reveal_strlit("/track/");
        reveal_strlit("/send/");
        reveal_strlit("track");
        reveal_strlit("send");
        reveal_strlit("/");
    }
    let mut s = String::from_str("/track/");
    s.append(guid);
    s.append("/send/");
    append_u32_dec(&mut s, idx);
    s.append("/");
    s.append(tail);
    proof {
        assert(s@ =~= spec_addr5("track"@, guid@, "send"@, dec_digits(idx as nat), tail@));
    }
    s
}

} // verus!
