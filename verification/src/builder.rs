//! The request under construction.
//!
//! A `Builder` owns everything one chain accumulates: the origin, the path
//! segments, the query pairs and the request headers — or the error that
//! poisoned the chain.  Navigation is specified by a small step machine:
//! `nav_step` is the exact effect of one navigation call on the state, and
//! `nav_run` folds a whole chain.  Every navigation method's contract says
//! it performs one `nav_step`; the laws at the bottom then hold of every
//! chain any caller can build.
//!
//! Once poisoned, a state is inert: every later step returns it unchanged,
//! and `build` surfaces the carried error instead of a request.

use vstd::prelude::*;
use vstd::string::StringExecFns;

use crate::error::Error;
use crate::error::ErrorSpec;
use crate::util::component_chars_ok;
use crate::util::is_valid_component;
use crate::util::joined_path;
use crate::util::lemma_joined_path_of_unslashed;
use crate::util::path_string;
use crate::util::query_string;
use crate::util::render_query;
use crate::util::url_join;
use crate::util::valid_component;
use crate::util::valid_origin;
use crate::util::valid_value;

verus! {

/// The spec-level contents of a live (not poisoned) request state.
pub ghost struct PartsView {
    pub origin: Seq<char>,
    pub segments: Seq<Seq<char>>,
    pub query: Seq<(Seq<char>, Seq<char>)>,
    pub headers: Seq<(Seq<char>, Seq<char>)>,
}

/// One navigation call, as the spec sees it: appending a path segment, or
/// setting a query pair.
pub ghost enum NavStep {
    Path(Seq<char>),
    Query(Seq<char>, Seq<char>),
}

/// Whether some pair of `q` has key `k`.
pub open spec fn has_key(q: Seq<(Seq<char>, Seq<char>)>, k: Seq<char>) -> bool
    decreases q.len(),
{
    if q.len() == 0 {
        false
    } else {
        q.first().0 == k || has_key(q.drop_first(), k)
    }
}

/// The value of the first pair of `q` with key `k`, if any.
pub open spec fn query_lookup(q: Seq<(Seq<char>, Seq<char>)>, k: Seq<char>) -> Option<Seq<char>>
    decreases q.len(),
{
    if q.len() == 0 {
        None
    } else if q.first().0 == k {
        Some(q.first().1)
    } else {
        query_lookup(q.drop_first(), k)
    }
}

/// `q` without its first pair keyed `k` (and without any pair keyed `k`,
/// whenever keys are distinct).
pub open spec fn remove_key(q: Seq<(Seq<char>, Seq<char>)>, k: Seq<char>) -> Seq<
    (Seq<char>, Seq<char>),
>
    decreases q.len(),
{
    if q.len() == 0 {
        q
    } else if q.first().0 == k {
        q.drop_first()
    } else {
        seq![q.first()] + remove_key(q.drop_first(), k)
    }
}

/// Setting a query pair: the previous pair with that key leaves, the new
/// pair goes to the end.  Last write wins.
pub open spec fn query_set(
    q: Seq<(Seq<char>, Seq<char>)>,
    k: Seq<char>,
    v: Seq<char>,
) -> Seq<(Seq<char>, Seq<char>)> {
    remove_key(q, k).push((k, v))
}

/// The exact effect of one navigation step on a request state.  A poisoned
/// state is returned unchanged; an invalid part poisons the state with a
/// composition error naming that part.
pub open spec fn nav_step(
    b: Result<PartsView, ErrorSpec>,
    step: NavStep,
) -> Result<PartsView, ErrorSpec> {
    match b {
        Err(e) => Err(e),
        Ok(v) => match step {
            NavStep::Path(seg) => if valid_component(seg) {
                Ok(PartsView { segments: v.segments.push(seg), ..v })
            } else {
                Err(ErrorSpec::Composition { part: seg })
            },
            NavStep::Query(k, val) => if !valid_component(k) {
                Err(ErrorSpec::Composition { part: k })
            } else if !valid_value(val) {
                Err(ErrorSpec::Composition { part: val })
            } else {
                Ok(PartsView { query: query_set(v.query, k, val), ..v })
            },
        },
    }
}

/// A whole chain of navigation steps, folded left to right.
pub open spec fn nav_run(
    b: Result<PartsView, ErrorSpec>,
    steps: Seq<NavStep>,
) -> Result<PartsView, ErrorSpec>
    decreases steps.len(),
{
    if steps.len() == 0 {
        b
    } else {
        nav_run(nav_step(b, steps.first()), steps.drop_first())
    }
}

/// The path steps that append each segment of `segs` in order.
pub open spec fn path_steps(segs: Seq<Seq<char>>) -> Seq<NavStep> {
    Seq::new(segs.len(), |i: int| NavStep::Path(segs[i]))
}

/// The URL a state composes to: the origin with the segments appended,
/// one normalized separator each, then the query.
pub open spec fn full_url(v: PartsView) -> Seq<char> {
    joined_path(v.origin, v.segments) + query_string(v.query)
}

/// On the origins the client validates — never ending in `/` — the
/// composed URL is literally the origin, one `/` before each segment, and
/// the query: normalization never fires.
pub proof fn lemma_full_url_of_valid_origin(v: PartsView)
    requires
        valid_origin(v.origin),
        forall|i: int| 0 <= i < v.segments.len() ==> valid_component(#[trigger] v.segments[i]),
    ensures
        full_url(v) == v.origin + path_string(v.segments) + query_string(v.query),
{
    lemma_joined_path_of_unslashed(v.origin, v.segments);
}

/// The live contents of a request under construction.
pub struct RequestParts {
    origin: String,
    segments: Vec<String>,
    query: Vec<(String, String)>,
    headers: Vec<(String, String)>,
}

impl View for RequestParts {
    type V = PartsView;

    closed spec fn view(&self) -> PartsView {
        PartsView {
            origin: self.origin@,
            segments: self.segments.deep_view(),
            query: self.query.deep_view(),
            headers: self.headers.deep_view(),
        }
    }
}

/// A request under construction, or the error that poisoned it.
pub struct Builder {
    inner: Result<RequestParts, Error>,
}

impl View for Builder {
    type V = Result<PartsView, ErrorSpec>;

    closed spec fn view(&self) -> Result<PartsView, ErrorSpec> {
        match self.inner {
            Ok(p) => Ok(p@),
            Err(e) => Err(e@),
        }
    }
}

/// One finalized GET request: the composed URL and the headers to send.
pub struct Request {
    pub url: String,
    pub headers: Vec<(String, String)>,
}

impl Request {
    /// Every request of this read-only client uses one method.
    pub fn method(&self) -> (m: &'static str)
        ensures
            m@ == "GET"@,
    {
        "GET"
    }
}

impl Builder {
    /// A fresh state: the given origin, no segments, no query pairs, the
    /// given headers.
    pub fn start(origin: String, headers: Vec<(String, String)>) -> (b: Builder)
        ensures
            b@ == Ok::<PartsView, ErrorSpec>(
                PartsView {
                    origin: origin@,
                    segments: Seq::<Seq<char>>::empty(),
                    query: Seq::<(Seq<char>, Seq<char>)>::empty(),
                    headers: headers.deep_view(),
                },
            ),
    {
        let b = Builder {
            inner: Ok(
                RequestParts { origin, segments: Vec::new(), query: Vec::new(), headers },
            ),
        };
        proof {
            assert(b@->Ok_0.segments =~= Seq::<Seq<char>>::empty());
            assert(b@->Ok_0.query =~= Seq::<(Seq<char>, Seq<char>)>::empty());
        }
        b
    }

    /// A state born poisoned, carrying `e`.
    pub fn poisoned(e: Error) -> (b: Builder)
        ensures
            b@ == Err::<PartsView, ErrorSpec>(e@),
    {
        Builder { inner: Err(e) }
    }

    /// Appends one path segment: exactly one `nav_step` with a path step.
    pub fn join_path(self, seg: &str) -> (r: Builder)
        ensures
            r@ == nav_step(self@, NavStep::Path(seg@)),
    {
        match self.inner {
            Err(e) => Builder { inner: Err(e) },
            Ok(mut p) => {
                if is_valid_component(seg) {
                    let ghost old_segments = p.segments.deep_view();
                    p.segments.push(String::from_str(seg));
                    proof {
                        assert(p.segments.deep_view() =~= old_segments.push(seg@));
                    }
                    Builder { inner: Ok(p) }
                } else {
                    Builder { inner: Err(Error::Composition { part: String::from_str(seg) }) }
                }
            },
        }
    }

    /// Appends each segment in order.  An empty list leaves the state
    /// unchanged.
    pub fn join_segments(self, segs: &Vec<String>) -> (r: Builder)
        ensures
            r@ == nav_run(self@, path_steps(segs.deep_view())),
            segs.len() == 0 ==> r@ == self@,
    {
        let ghost dv = segs.deep_view();
        let mut b = self;
        let ghost b0 = b@;
        let n = segs.len();
        proof {
            assert(path_steps(dv.subrange(0, 0)) =~= Seq::<NavStep>::empty());
        }
        for i in 0..n
            invariant
                n == segs.len(),
                dv == segs.deep_view(),
                b@ == nav_run(b0, path_steps(dv.subrange(0, i as int))),
        {
            b = b.join_path(segs[i].as_str());
            proof {
                let prefix = path_steps(dv.subrange(0, i as int));
                let next = path_steps(dv.subrange(0, i + 1));
                assert(next =~= prefix.push(NavStep::Path(dv[i as int])));
                lemma_nav_run_push(b0, prefix, NavStep::Path(dv[i as int]));
            }
        }
        proof {
            assert(dv.subrange(0, n as int) =~= dv);
        }
        b
    }

    /// Sets one query pair: exactly one `nav_step` with a query step.
    pub fn set_query(self, key: &str, value: &str) -> (r: Builder)
        ensures
            r@ == nav_step(self@, NavStep::Query(key@, value@)),
    {
        match self.inner {
            Err(e) => Builder { inner: Err(e) },
            Ok(mut p) => {
                if !is_valid_component(key) {
                    return Builder {
                        inner: Err(Error::Composition { part: String::from_str(key) }),
                    };
                }
                if !component_chars_ok(value) {
                    return Builder {
                        inner: Err(Error::Composition { part: String::from_str(value) }),
                    };
                }
                let key_string = String::from_str(key);
                let ghost old_query = p.query.deep_view();
                let hit = find_key(&p.query, &key_string);
                match hit {
                    Some(i) => {
                        p.query.remove(i);
                        proof {
                            assert(p.query.deep_view() =~= old_query.remove(i as int));
                            lemma_remove_key_at(old_query, key@, i as int);
                        }
                    },
                    None => {
                        proof {
                            lemma_remove_key_absent(old_query, key@);
                        }
                    },
                }
                let ghost removed = p.query.deep_view();
                p.query.push((key_string, String::from_str(value)));
                proof {
                    assert(p.query.deep_view() =~= removed.push((key@, value@)));
                }
                Builder { inner: Ok(p) }
            },
        }
    }

    /// Finalizes the state: the composed URL for a live state, the carried
    /// error for a poisoned one.  No further mutation is possible.
    pub fn build(self) -> (r: Result<Request, Error>)
        ensures
            self@ matches Err(e) ==> r is Err && r->Err_0@ == e,
            self@ matches Ok(v) ==> r is Ok && r->Ok_0.url@ == full_url(v)
                && r->Ok_0.headers.deep_view() == v.headers,
    {
        match self.inner {
            Err(e) => Err(e),
            Ok(p) => {
                let mut url = url_join(p.origin.as_str(), &p.segments);
                let qs = render_query(&p.query);
                url.append(qs.as_str());
                Ok(Request { url, headers: p.headers })
            },
        }
    }
}

/// The first index of `q` whose key equals `k`.
fn find_key(q: &Vec<(String, String)>, k: &String) -> (r: Option<usize>)
    ensures
        r matches Some(i) ==> i < q.len() && q.deep_view()[i as int].0 == k@ && (forall|j: int|
            0 <= j < i ==> #[trigger] q.deep_view()[j].0 != k@),
        r is None ==> forall|j: int| 0 <= j < q.len() ==> #[trigger] q.deep_view()[j].0 != k@,
{
    let n = q.len();
    for i in 0..n
        invariant
            n == q.len(),
            forall|j: int| 0 <= j < i ==> #[trigger] q.deep_view()[j].0 != k@,
    {
        proof {
            assert(q.deep_view()[i as int].0 == q@[i as int].0@);
        }
        if q[i].0.eq(k) {
            return Some(i);
        }
    }
    None
}

/// Removing the first pair keyed `k` is removing at its index, when nothing
/// before that index has key `k`.
proof fn lemma_remove_key_at(q: Seq<(Seq<char>, Seq<char>)>, k: Seq<char>, idx: int)
    requires
        0 <= idx < q.len(),
        q[idx].0 == k,
        forall|j: int| 0 <= j < idx ==> #[trigger] q[j].0 != k,
    ensures
        remove_key(q, k) =~= q.remove(idx),
    decreases idx,
{
    if idx == 0 {
        assert(q.drop_first() =~= q.remove(0));
    } else {
        lemma_remove_key_at(q.drop_first(), k, idx - 1);
        assert(seq![q.first()] + q.drop_first().remove(idx - 1) =~= q.remove(idx));
    }
}

/// Without a pair keyed `k`, `remove_key` is the identity.
proof fn lemma_remove_key_absent(q: Seq<(Seq<char>, Seq<char>)>, k: Seq<char>)
    requires
        forall|j: int| 0 <= j < q.len() ==> #[trigger] q[j].0 != k,
    ensures
        remove_key(q, k) =~= q,
    decreases q.len(),
{
    if q.len() > 0 {
        lemma_remove_key_absent(q.drop_first(), k);
        assert(seq![q.first()] + q.drop_first() =~= q);
    }
}

/// Every key of `q` appears once.  Fresh states have it, and every
/// navigation step keeps it.
pub open spec fn distinct_keys(q: Seq<(Seq<char>, Seq<char>)>) -> bool
    decreases q.len(),
{
    q.len() == 0 || (!has_key(q.drop_first(), q.first().0) && distinct_keys(q.drop_first()))
}

proof fn lemma_has_key_cons(p: (Seq<char>, Seq<char>), q: Seq<(Seq<char>, Seq<char>)>, k: Seq<char>)
    ensures
        has_key(seq![p] + q, k) == (p.0 == k || has_key(q, k)),
        query_lookup(seq![p] + q, k) == (if p.0 == k {
            Some(p.1)
        } else {
            query_lookup(q, k)
        }),
{
    assert((seq![p] + q).first() == p);
    assert((seq![p] + q).drop_first() =~= q);
}

proof fn lemma_has_key_push(q: Seq<(Seq<char>, Seq<char>)>, p: (Seq<char>, Seq<char>), k: Seq<char>)
    ensures
        has_key(q.push(p), k) == (has_key(q, k) || p.0 == k),
        query_lookup(q.push(p), k) == (if has_key(q, k) {
            query_lookup(q, k)
        } else if p.0 == k {
            Some(p.1)
        } else {
            None
        }),
    decreases q.len(),
{
    if q.len() == 0 {
        let emp = Seq::<(Seq<char>, Seq<char>)>::empty();
        assert(q.push(p).first() == p);
        assert(q.push(p).drop_first() =~= emp);
        assert(!has_key(emp, k));
        assert(query_lookup(emp, k) is None);
        assert(!has_key(q, k));
        assert(query_lookup(q, k) is None);
    } else {
        assert(q.push(p).first() == q.first());
        assert(q.push(p).drop_first() =~= q.drop_first().push(p));
        lemma_has_key_push(q.drop_first(), p, k);
    }
}

proof fn lemma_lookup_some_iff_has_key(q: Seq<(Seq<char>, Seq<char>)>, k: Seq<char>)
    ensures
        has_key(q, k) <==> query_lookup(q, k) is Some,
    decreases q.len(),
{
    if q.len() > 0 && q.first().0 != k {
        lemma_lookup_some_iff_has_key(q.drop_first(), k);
    }
}

proof fn lemma_remove_key_same(q: Seq<(Seq<char>, Seq<char>)>, k: Seq<char>)
    requires
        distinct_keys(q),
    ensures
        !has_key(remove_key(q, k), k),
    decreases q.len(),
{
    if q.len() > 0 {
        if q.first().0 == k {
        } else {
            lemma_remove_key_same(q.drop_first(), k);
            lemma_has_key_cons(q.first(), remove_key(q.drop_first(), k), k);
        }
    }
}

proof fn lemma_remove_key_other(q: Seq<(Seq<char>, Seq<char>)>, k: Seq<char>, k2: Seq<char>)
    requires
        k2 != k,
    ensures
        has_key(remove_key(q, k), k2) == has_key(q, k2),
        query_lookup(remove_key(q, k), k2) == query_lookup(q, k2),
    decreases q.len(),
{
    if q.len() > 0 {
        if q.first().0 == k {
        } else {
            lemma_remove_key_other(q.drop_first(), k, k2);
            lemma_has_key_cons(q.first(), remove_key(q.drop_first(), k), k2);
        }
    }
}

proof fn lemma_remove_key_distinct(q: Seq<(Seq<char>, Seq<char>)>, k: Seq<char>)
    requires
        distinct_keys(q),
    ensures
        distinct_keys(remove_key(q, k)),
    decreases q.len(),
{
    if q.len() > 0 {
        if q.first().0 == k {
        } else {
            lemma_remove_key_distinct(q.drop_first(), k);
            lemma_remove_key_other(q.drop_first(), k, q.first().0);
            let r = seq![q.first()] + remove_key(q.drop_first(), k);
            assert(r.first() == q.first());
            assert(r.drop_first() =~= remove_key(q.drop_first(), k));
        }
    }
}

proof fn lemma_distinct_push(q: Seq<(Seq<char>, Seq<char>)>, p: (Seq<char>, Seq<char>))
    requires
        distinct_keys(q),
        !has_key(q, p.0),
    ensures
        distinct_keys(q.push(p)),
    decreases q.len(),
{
    if q.len() == 0 {
        let emp = Seq::<(Seq<char>, Seq<char>)>::empty();
        assert(q.push(p).drop_first() =~= emp);
        assert(!has_key(emp, p.0));
        assert(distinct_keys(emp));
    } else {
        assert(q.push(p).first() == q.first());
        assert(q.push(p).drop_first() =~= q.drop_first().push(p));
        lemma_distinct_push(q.drop_first(), p);
        lemma_has_key_push(q.drop_first(), p, q.first().0);
    }
}

proof fn lemma_remove_key_of_push_absent(
    q: Seq<(Seq<char>, Seq<char>)>,
    k: Seq<char>,
    v: Seq<char>,
)
    requires
        !has_key(q, k),
    ensures
        remove_key(q.push((k, v)), k) =~= q,
    decreases q.len(),
{
    if q.len() == 0 {
        assert(q.push((k, v)).first() == (k, v));
        assert(q.push((k, v)).drop_first() =~= q);
    } else {
        assert(q.push((k, v)).first() == q.first());
        assert(q.push((k, v)).drop_first() =~= q.drop_first().push((k, v)));
        lemma_remove_key_of_push_absent(q.drop_first(), k, v);
        assert(seq![q.first()] + q.drop_first() =~= q);
    }
}

/// Setting a key makes it answer to exactly the value set.
pub proof fn lemma_query_set_reads_back(q: Seq<(Seq<char>, Seq<char>)>, k: Seq<char>, v: Seq<char>)
    requires
        distinct_keys(q),
    ensures
        query_lookup(query_set(q, k, v), k) == Some(v),
        has_key(query_set(q, k, v), k),
    {
    lemma_remove_key_same(q, k);
    lemma_has_key_push(remove_key(q, k), (k, v), k);
}

/// Setting a key leaves every other key answering as before.
pub proof fn lemma_query_set_other_key(
    q: Seq<(Seq<char>, Seq<char>)>,
    k: Seq<char>,
    v: Seq<char>,
    k2: Seq<char>,
)
    requires
        k2 != k,
    ensures
        query_lookup(query_set(q, k, v), k2) == query_lookup(q, k2),
        has_key(query_set(q, k, v), k2) == has_key(q, k2),
{
    lemma_remove_key_other(q, k, k2);
    lemma_has_key_push(remove_key(q, k), (k, v), k2);
    lemma_lookup_some_iff_has_key(q, k2);
}

/// Setting the same key twice is setting it once to the last value.
pub proof fn lemma_query_set_last_write_wins(
    q: Seq<(Seq<char>, Seq<char>)>,
    k: Seq<char>,
    v1: Seq<char>,
    v2: Seq<char>,
)
    requires
        distinct_keys(q),
    ensures
        query_set(query_set(q, k, v1), k, v2) == query_set(q, k, v2),
{
    lemma_remove_key_same(q, k);
    lemma_remove_key_of_push_absent(remove_key(q, k), k, v1);
}

/// Setting a key keeps keys distinct.
pub proof fn lemma_query_set_distinct(q: Seq<(Seq<char>, Seq<char>)>, k: Seq<char>, v: Seq<char>)
    requires
        distinct_keys(q),
    ensures
        distinct_keys(query_set(q, k, v)),
{
    lemma_remove_key_distinct(q, k);
    lemma_remove_key_same(q, k);
    lemma_distinct_push(remove_key(q, k), (k, v));
}

/// A live state keeps its query keys distinct across any navigation step,
/// so the query laws hold of every reachable state.
pub proof fn lemma_nav_step_keeps_distinct(b: Result<PartsView, ErrorSpec>, step: NavStep)
    requires
        b matches Ok(v) ==> distinct_keys(v.query),
    ensures
        nav_step(b, step) matches Ok(w) ==> distinct_keys(w.query),
{
    match b {
        Ok(v) => match step {
            NavStep::Query(k, val) => {
                if valid_component(k) && valid_value(val) {
                    lemma_query_set_distinct(v.query, k, val);
                }
            },
            NavStep::Path(_) => {},
        },
        Err(_) => {},
    }
}

/// Distinct query keys are kept along any whole chain, so the query laws
/// apply to every state a chain can reach: fresh states have no pairs at
/// all, and each step keeps the keys distinct.
pub proof fn lemma_nav_run_keeps_distinct(b: Result<PartsView, ErrorSpec>, steps: Seq<NavStep>)
    requires
        b matches Ok(v) ==> distinct_keys(v.query),
    ensures
        nav_run(b, steps) matches Ok(w) ==> distinct_keys(w.query),
    decreases steps.len(),
{
    if steps.len() > 0 {
        lemma_nav_step_keeps_distinct(b, steps.first());
        lemma_nav_run_keeps_distinct(nav_step(b, steps.first()), steps.drop_first());
    }
}

/// A query step never touches the path: chains interleaving query options
/// with navigation still compose the path of their segments alone.
pub proof fn lemma_query_step_keeps_path(
    b: Result<PartsView, ErrorSpec>,
    k: Seq<char>,
    v: Seq<char>,
)
    ensures
        nav_step(b, NavStep::Query(k, v)) matches Ok(w) ==> w.segments == b->Ok_0.segments,
{
}

/// A poisoned state is inert: any chain of steps returns it unchanged, so
/// finalizing yields the original composition error and nothing else.
pub proof fn lemma_poisoned_chain_inert(e: ErrorSpec, steps: Seq<NavStep>)
    ensures
        nav_run(Err(e), steps) == Err::<PartsView, ErrorSpec>(e),
    decreases steps.len(),
{
    if steps.len() > 0 {
        lemma_poisoned_chain_inert(e, steps.drop_first());
    }
}

/// Appending no segments leaves any request state unchanged.
pub proof fn lemma_empty_segments_inert(b: Result<PartsView, ErrorSpec>)
    ensures
        nav_run(b, path_steps(Seq::<Seq<char>>::empty())) == b,
{
    assert(path_steps(Seq::<Seq<char>>::empty()) =~= Seq::<NavStep>::empty());
}

/// A chain of valid segments from a live state stays live and appends
/// exactly those segments, in order; origin, query and headers are
/// untouched.  With `lemma_path_string_concat`, the composed path is the
/// path so far plus one `/` before each appended segment.
pub proof fn lemma_chain_appends_segments(v: PartsView, segs: Seq<Seq<char>>)
    requires
        forall|i: int| 0 <= i < segs.len() ==> valid_component(#[trigger] segs[i]),
    ensures
        nav_run(Ok(v), path_steps(segs)) matches Ok(w) && w.origin == v.origin && w.segments
            == v.segments + segs && w.query == v.query && w.headers == v.headers,
    decreases segs.len(),
{
    if segs.len() == 0 {
        lemma_empty_segments_inert(Ok(v));
        assert(v.segments + segs =~= v.segments);
    } else {
        lemma_chain_appends_segments(v, segs.drop_last());
        assert(path_steps(segs) =~= path_steps(segs.drop_last()).push(
            NavStep::Path(segs.last()),
        ));
        lemma_nav_run_push(Ok(v), path_steps(segs.drop_last()), NavStep::Path(segs.last()));
        let w = nav_run(Ok(v), path_steps(segs.drop_last()))->Ok_0;
        assert(w.segments.push(segs.last()) =~= v.segments + segs);
    }
}

/// Running one more step is stepping the result of the run so far.
pub proof fn lemma_nav_run_push(
    b: Result<PartsView, ErrorSpec>,
    steps: Seq<NavStep>,
    step: NavStep,
)
    ensures
        nav_run(b, steps.push(step)) == nav_step(nav_run(b, steps), step),
    decreases steps.len(),
{
    if steps.len() == 0 {
        assert(steps.push(step).first() == step);
        assert(steps.push(step).drop_first() =~= Seq::<NavStep>::empty());
        assert(nav_run(nav_step(b, step), Seq::<NavStep>::empty()) == nav_step(b, step));
    } else {
        assert(steps.push(step).first() == steps.first());
        assert(steps.push(step).drop_first() =~= steps.drop_first().push(step));
        lemma_nav_run_push(nav_step(b, steps.first()), steps.drop_first(), step);
    }
}

} // verus!
