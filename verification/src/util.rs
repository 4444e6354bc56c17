//! Path and query composition on plain strings.
//!
//! A request URL is composed from an origin (`scheme://host[:port]`), a list
//! of path segments and a list of query pairs.  The spec functions here give
//! the exact string each part composes to: every segment is preceded by one
//! `/`, query pairs are rendered `?k=v&k2=v2` in insertion order.

use vstd::prelude::*;
use vstd::string::StrSliceExecFns;
use vstd::string::StringExecFns;

verus! {

/// Characters that may stand in a path segment, a query key or a query value.
/// Printable ASCII without the characters that structure a URL: `/`, `?`,
/// `#`, `&`, `=` and `%` (no escape sequences are produced, so `%` is out).
pub open spec fn component_char(c: char) -> bool {
    &&& ' ' < c <= '~'
    &&& c != '/'
    &&& c != '?'
    &&& c != '#'
    &&& c != '&'
    &&& c != '='
    &&& c != '%'
}

/// Characters that may stand in an origin `scheme://host[:port]`: printable
/// ASCII without space, `?` and `#` (so appending a path or query can never
/// change how the origin reads).
pub open spec fn origin_char(c: char) -> bool {
    &&& ' ' < c <= '~'
    &&& c != '?'
    &&& c != '#'
}

/// An origin as the URL parser serializes it: non-empty, no trailing `/`,
/// every character an `origin_char`.
pub open spec fn valid_origin(s: Seq<char>) -> bool {
    &&& s.len() > 0
    &&& s.last() != '/'
    &&& forall|i: int| 0 <= i < s.len() ==> origin_char(#[trigger] s[i])
}

/// A path segment or query key: non-empty, every character allowed.
pub open spec fn valid_component(s: Seq<char>) -> bool {
    &&& s.len() > 0
    &&& forall|i: int| 0 <= i < s.len() ==> component_char(#[trigger] s[i])
}

/// A query value: possibly empty, every character allowed.
pub open spec fn valid_value(s: Seq<char>) -> bool {
    forall|i: int| 0 <= i < s.len() ==> component_char(#[trigger] s[i])
}

/// The path that a list of segments composes to: one `/` before each
/// segment, nothing else.
pub open spec fn path_string(segs: Seq<Seq<char>>) -> Seq<char>
    decreases segs.len(),
{
    if segs.len() == 0 {
        Seq::empty()
    } else {
        path_string(segs.drop_last()) + seq!['/'] + segs.last()
    }
}

/// One rendered query pair, `key=value`.
pub open spec fn query_pair(kv: (Seq<char>, Seq<char>)) -> Seq<char> {
    kv.0 + seq!['='] + kv.1
}

/// The rendered pairs joined by `&`, without the leading `?`.
pub open spec fn query_items(q: Seq<(Seq<char>, Seq<char>)>) -> Seq<char>
    decreases q.len(),
{
    if q.len() == 0 {
        Seq::empty()
    } else if q.len() == 1 {
        query_pair(q[0])
    } else {
        query_items(q.drop_last()) + seq!['&'] + query_pair(q.last())
    }
}

/// The full query string: empty when there are no pairs, else `?` and the
/// pairs in insertion order.
pub open spec fn query_string(q: Seq<(Seq<char>, Seq<char>)>) -> Seq<char> {
    if q.len() == 0 {
        Seq::empty()
    } else {
        seq!['?'] + query_items(q)
    }
}

/// One segment appended to a path: a `/` goes in between unless the path
/// already ends in one (or unless there is no path yet — the composed path
/// then begins with `/`).  Exactly one separator, regardless of the base.
pub open spec fn join_one(path: Seq<char>, seg: Seq<char>) -> Seq<char> {
    if path.len() > 0 && path.last() == '/' {
        path + seg
    } else {
        path + seq!['/'] + seg
    }
}

/// A whole segment list appended to a base, left to right, normalizing the
/// separator at each step.  With no segments the base is unchanged.
pub open spec fn joined_path(base: Seq<char>, segs: Seq<Seq<char>>) -> Seq<char>
    decreases segs.len(),
{
    if segs.len() == 0 {
        base
    } else {
        join_one(joined_path(base, segs.drop_last()), segs.last())
    }
}

/// No two `/` stand next to each other in `s`.
pub open spec fn no_adjacent_slashes(s: Seq<char>) -> bool {
    forall|i: int| 0 <= i < s.len() - 1 ==> !(#[trigger] s[i] == '/' && s[i + 1] == '/')
}

/// Composing a path distributes over concatenation of segment lists.
pub proof fn lemma_path_string_concat(a: Seq<Seq<char>>, b: Seq<Seq<char>>)
    ensures
        path_string(a + b) == path_string(a) + path_string(b),
    decreases b.len(),
{
    if b.len() == 0 {
        assert(a + b =~= a);
        assert(path_string(a) + path_string(b) =~= path_string(a));
    } else {
        assert((a + b).drop_last() =~= a + b.drop_last());
        assert((a + b).last() == b.last());
        lemma_path_string_concat(a, b.drop_last());
        assert(path_string(a) + (path_string(b.drop_last()) + seq!['/'] + b.last()) =~= (
        path_string(a) + path_string(b.drop_last())) + seq!['/'] + b.last());
    }
}

/// The path of valid segments has exactly one `/` before each segment:
/// no doubled separators, a leading `/` when there is any segment, and
/// never a trailing `/`.
pub proof fn lemma_path_string_separators(segs: Seq<Seq<char>>)
    requires
        forall|i: int| 0 <= i < segs.len() ==> valid_component(#[trigger] segs[i]),
    ensures
        no_adjacent_slashes(path_string(segs)),
        path_string(segs).len() > 0 ==> path_string(segs).first() == '/' && path_string(
            segs,
        ).last() != '/',
    decreases segs.len(),
{
    if segs.len() > 0 {
        lemma_path_string_separators(segs.drop_last());
        let p = path_string(segs.drop_last());
        let t = segs.last();
        let s = path_string(segs);
        assert(s == p + seq!['/'] + t);
        assert(t.len() > 0 && forall|j: int| 0 <= j < t.len() ==> component_char(#[trigger] t[j]));
        assert(s.last() == t.last());
        assert(component_char(t.last()));
        assert(s.last() != '/');
        assert forall|i: int| 0 <= i < s.len() - 1 implies !(#[trigger] s[i] == '/' && s[i + 1]
            == '/') by {
            if i < p.len() - 1 {
                assert(s[i] == p[i] && s[i + 1] == p[i + 1]);
            } else if p.len() > 0 && i == p.len() - 1 {
                assert(s[i] == p.last());
            } else if i == p.len() {
                assert(s[i + 1] == t[0]);
                assert(component_char(t[0]));
            } else {
                assert(s[i] == t[i - p.len() - 1]);
                assert(component_char(t[i - p.len() - 1]));
            }
        }
    }
}

/// On a base that does not end in `/`, normalization never fires: the
/// composed path is the base followed by one `/` before each segment.
pub proof fn lemma_joined_path_of_unslashed(base: Seq<char>, segs: Seq<Seq<char>>)
    requires
        base.len() == 0 || base.last() != '/',
        forall|i: int| 0 <= i < segs.len() ==> valid_component(#[trigger] segs[i]),
    ensures
        joined_path(base, segs) == base + path_string(segs),
    decreases segs.len(),
{
    if segs.len() == 0 {
        assert(base + path_string(segs) =~= base);
    } else {
        lemma_joined_path_of_unslashed(base, segs.drop_last());
        let p = joined_path(base, segs.drop_last());
        let t = segs.last();
        if segs.drop_last().len() > 0 {
            let q = path_string(segs.drop_last());
            assert(q.last() == segs.drop_last().last().last());
            assert(component_char(q.last()));
            assert(p.last() == q.last());
        }
        assert(join_one(p, t) == p + seq!['/'] + t);
        assert(base + path_string(segs.drop_last()) + seq!['/'] + t =~= base + path_string(segs));
    }
}

/// Valid segments never introduce doubled separators, whatever the base
/// ends in: when the base holds no two adjacent `/`, neither does the
/// composed path, and with any segment appended it does not end in `/`.
pub proof fn lemma_joined_path_separators(base: Seq<char>, segs: Seq<Seq<char>>)
    requires
        no_adjacent_slashes(base),
        forall|i: int| 0 <= i < segs.len() ==> valid_component(#[trigger] segs[i]),
    ensures
        no_adjacent_slashes(joined_path(base, segs)),
        segs.len() > 0 ==> joined_path(base, segs).last() != '/',
    decreases segs.len(),
{
    if segs.len() > 0 {
        lemma_joined_path_separators(base, segs.drop_last());
        let p = joined_path(base, segs.drop_last());
        let t = segs.last();
        let s = joined_path(base, segs);
        assert(t.len() > 0 && forall|j: int| 0 <= j < t.len() ==> component_char(#[trigger] t[j]));
        assert(s.last() == t.last());
        assert(component_char(t.last()));
        if p.len() > 0 && p.last() == '/' {
            assert(s == p + t);
            assert forall|i: int| 0 <= i < s.len() - 1 implies !(#[trigger] s[i] == '/' && s[i
                + 1] == '/') by {
                if i < p.len() - 1 {
                    assert(s[i] == p[i] && s[i + 1] == p[i + 1]);
                } else if i == p.len() - 1 {
                    assert(s[i + 1] == t[0]);
                    assert(component_char(t[0]));
                } else {
                    assert(s[i] == t[i - p.len()]);
                    assert(component_char(t[i - p.len()]));
                }
            }
        } else {
            assert(s == p + seq!['/'] + t);
            assert forall|i: int| 0 <= i < s.len() - 1 implies !(#[trigger] s[i] == '/' && s[i
                + 1] == '/') by {
                if i < p.len() - 1 {
                    assert(s[i] == p[i] && s[i + 1] == p[i + 1]);
                } else if p.len() > 0 && i == p.len() - 1 {
                    assert(s[i] == p.last());
                } else if i == p.len() {
                    assert(s[i + 1] == t[0]);
                    assert(component_char(t[0]));
                } else {
                    assert(s[i] == t[i - p.len() - 1]);
                    assert(component_char(t[i - p.len() - 1]));
                }
            }
        }
    }
}

/// Whether two string slices hold the same characters.
pub fn str_eq(a: &str, b: &str) -> (r: bool)
    ensures
        r == (a@ == b@),
{
    String::from_str(a).eq(&String::from_str(b))
}

/// Checks every character of `s` against `component_char`.
pub fn component_chars_ok(s: &str) -> (b: bool)
    ensures
        b == valid_value(s@),
{
    let n = s.unicode_len();
    for i in 0..n
        invariant
            n == s@.len(),
            forall|j: int| 0 <= j < i ==> component_char(#[trigger] s@[j]),
    {
        let c = s.get_char(i);
        if !(' ' < c && c <= '~') || c == '/' || c == '?' || c == '#' || c == '&' || c == '='
            || c == '%' {
            return false;
        }
    }
    true
}

/// Checks that `s` can stand as a path segment or query key.
pub fn is_valid_component(s: &str) -> (b: bool)
    ensures
        b == valid_component(s@),
{
    s.unicode_len() > 0 && component_chars_ok(s)
}

/// Appends each segment to `base` with exactly one `/` between the base
/// path and each segment, whether or not the base already ends in one.
/// With no segments the result is `base` unchanged.  The base is taken
/// verbatim as text (an origin, or an origin plus path; any query a caller
/// embeds in it stays where it is), and the composer itself is total:
/// segments with characters that cannot stand in a URL are rejected at the
/// navigation steps, which poison the chain instead.
pub fn url_join(base: &str, segments: &Vec<String>) -> (r: String)
    ensures
        r@ == joined_path(base@, segments.deep_view()),
        segments.len() == 0 ==> r@ == base@,
{
    let mut out = String::from_str(base);
    let n = segments.len();
    assert(segments.deep_view().subrange(0, 0) =~= Seq::<Seq<char>>::empty());
    for i in 0..n
        invariant
            n == segments.len(),
            out@ == joined_path(base@, segments.deep_view().subrange(0, i as int)),
    {
        let len = out.as_str().unicode_len();
        let ends_in_slash = len > 0 && out.as_str().get_char(len - 1) == '/';
        if !ends_in_slash {
            out.append("/");
        }
        out.append(segments[i].as_str());
        proof {
            reveal_strlit("/");
            assert("/"@ =~= seq!['/']);
            let dv = segments.deep_view();
            assert(dv.subrange(0, i + 1).drop_last() =~= dv.subrange(0, i as int));
            assert(dv.subrange(0, i + 1).last() == dv[i as int]);
        }
    }
    assert(segments.deep_view().subrange(0, n as int) =~= segments.deep_view());
    out
}

/// Renders the query pairs: the empty string for no pairs, else `?k=v&...`
/// in the order of the list.
pub fn render_query(q: &Vec<(String, String)>) -> (r: String)
    ensures
        r@ == query_string(q.deep_view()),
{
    let mut out = String::new();
    let n = q.len();
    if n == 0 {
        assert(out@ =~= query_string(q.deep_view()));
        return out;
    }
    for i in 0..n
        invariant
            n == q.len(),
            n > 0,
            i == 0 ==> out@ =~= Seq::<char>::empty(),
            i > 0 ==> out@ == seq!['?'] + query_items(q.deep_view().subrange(0, i as int)),
    {
        if i == 0 {
            out.append("?");
        } else {
            out.append("&");
        }
        out.append(q[i].0.as_str());
        out.append("=");
        out.append(q[i].1.as_str());
        proof {
            reveal_strlit("?");
            reveal_strlit("&");
            reveal_strlit("=");
            assert("?"@ =~= seq!['?']);
            assert("&"@ =~= seq!['&']);
            assert("="@ =~= seq!['=']);
            let dv = q.deep_view();
            assert(dv.subrange(0, i + 1).drop_last() =~= dv.subrange(0, i as int));
            assert(dv.subrange(0, i + 1).last() == dv[i as int]);
            assert(dv[i as int].0 == q@[i as int].0@);
            assert(dv[i as int].1 == q@[i as int].1@);
            if i == 0 {
                assert(query_items(dv.subrange(0, 1)) =~= query_pair(dv[0]));
            }
        }
    }
    proof {
        assert(q.deep_view().subrange(0, n as int) =~= q.deep_view());
    }
    out
}

} // verus!
