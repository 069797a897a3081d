//! The routing table: path patterns to per-method handler entries.
//!
//! A [`Router`] owns a `matchit` trie from path pattern to an index into its
//! entry table; each entry is a [`MethodRouter`] holding one optional service
//! per HTTP method plus an optional fallback. Dispatch resolves the path in
//! the trie, attaches the captured parameters to the request, selects the
//! service for the request's method (or the fallback), and answers 404 for
//! an unmatched path and 405 for a matched path lacking the method.
//!
//! Path matching itself is the trie's job, not this crate's: the library
//! states what it relies on — what a fresh trie holds, how `insert` changes
//! the registered routes, and that a pattern without captures is matched by
//! exactly its own path — and everything around those statements is
//! verified.

use vstd::prelude::*;

use crate::handler::{Handler, HandlerService, RouteService};
use crate::message::{no_params, pairs_view, Method, Request, RequestModel, Response, ResponseModel, StatusCode};
use crate::response::{status_response_model, IntoResponse};

verus! {

#[verifier::external_type_specification]
#[verifier::external_body]
pub struct ExInsertError(matchit::InsertError);

/// The path-matching trie, held opaquely.
#[verifier::external_body]
pub struct Trie {
    inner: matchit::Router<usize>,
}

/// The routes registered in a trie: each pattern with its value.
pub uninterp spec fn trie_entries(t: Trie) -> Map<Seq<char>, usize>;

/// What matching a path against a trie yields: the value of the matched
/// pattern and the captured parameters, or nothing.
pub uninterp spec fn trie_match(t: Trie, path: Seq<char>) -> Option<
    (usize, Seq<(Seq<char>, Seq<char>)>),
>;

/// A pattern with no capture (`:name`) or catch-all (`*name`) segment; such
/// a pattern is matched by exactly its own path.
pub open spec fn literal_pattern(p: Seq<char>) -> bool {
    forall|i: int| 0 <= i < p.len() ==> p[i] != ':' && p[i] != '*'
}

/// The matcher renames the captures of a pattern to the single letters `a`
/// through `z`, and aborts the process on the twenty-sixth instead of
/// returning an error; patterns with that many capture markers are rejected
/// here before the matcher ever sees them.
pub const CAPTURE_LIMIT: usize = 26;

/// The number of capture markers (`:`) in a pattern.
pub open spec fn capture_marks(p: Seq<char>) -> int
    decreases p.len(),
{
    if p.len() == 0 {
        0
    } else {
        capture_marks(p.drop_last()) + (if p.last() == ':' {
            1int
        } else {
            0int
        })
    }
}

/// A pattern without capture or catch-all segments has no capture markers.
pub proof fn lemma_literal_pattern_has_no_marks(p: Seq<char>)
    requires
        literal_pattern(p),
    ensures
        capture_marks(p) == 0,
    decreases p.len(),
{
    if p.len() > 0 {
        assert forall|i: int|
            0 <= i < p.drop_last().len() implies p.drop_last()[i] != ':' && p.drop_last()[i]
            != '*' by {
            assert(p.drop_last()[i] == p[i]);
        }
        lemma_literal_pattern_has_no_marks(p.drop_last());
        assert(p.last() == p[p.len() - 1]);
    }
}

/// Counts the capture markers in a pattern.
fn count_capture_marks(p: &str) -> (n: usize)
    ensures
        n == capture_marks(p@),
{
    let len = p.unicode_len();
    let mut i: usize = 0;
    let mut n: usize = 0;
    while i < len
        invariant
            i <= len,
            len == p@.len(),
            n == capture_marks(p@.take(i as int)),
            n <= i,
        decreases len - i,
    {
        let c = p.get_char(i);
        if c == ':' {
            n = n + 1;
        }
        i = i + 1;
        proof {
            assert(p@.take(i as int).drop_last() =~= p@.take(i - 1));
            assert(p@.take(i as int).last() == p@[i - 1]);
        }
    }
    proof {
        assert(p@.take(len as int) =~= p@);
    }
    n
}

/// Relies on matchit::Router::new: a fresh trie holds no routes.
#[verifier::external_body]
fn trie_new() -> (t: Trie)
    ensures
        trie_entries(t).dom() == Set::<Seq<char>>::empty(),
{
    Trie { inner: matchit::Router::new() }
}

/// Relies on matchit::Router::insert: on success the pattern is registered
/// with the given value; on failure — a conflicting or malformed pattern —
/// the registered routes are unchanged; and a capture-free pattern is
/// refused only where it is already registered. The matcher aborts on a
/// pattern with twenty-six or more named captures instead of returning an
/// error, so such patterns are excluded here.
#[verifier::external_body]
fn trie_insert(t: &mut Trie, pattern: &str, value: usize) -> (res: Result<
    (),
    matchit::InsertError,
>)
    requires
        capture_marks(pattern@) < CAPTURE_LIMIT,
    ensures
        res is Ok ==> trie_entries(*final (t)) == trie_entries(*old(t)).insert(pattern@, value),
        res is Err ==> trie_entries(*final (t)) == trie_entries(*old(t)),
        res is Err ==> !(literal_pattern(pattern@) && !trie_entries(*old(t)).dom().contains(
            pattern@,
        )),
{
    t.inner.insert(pattern, value)
}

/// Relies on matchit::Router::at: a match yields the value of a registered
/// pattern and the captured parameters; a registered pattern without
/// captures is matched by exactly its own path (static segments take
/// priority over captures), with nothing captured; and where every
/// registered pattern is capture-free, no other path matches.
#[verifier::external_body]
fn trie_at(t: &Trie, path: &str) -> (res: Option<(usize, Vec<(String, String)>)>)
    ensures
        res matches Some((v, ps)) ==> trie_match(*t, path@) == Some((v, pairs_view(ps@)))
            && exists|p: Seq<char>|
            #[trigger] trie_entries(*t).dom().contains(p) && trie_entries(*t)[p] == v,
        res is None ==> trie_match(*t, path@) is None,
        res is None ==> !(trie_entries(*t).dom().contains(path@) && literal_pattern(path@)),
        res matches Some(m) ==> (trie_entries(*t).dom().contains(path@) && literal_pattern(path@)
            ==> m.0 == trie_entries(*t)[path@] && m.1@.len() == 0),
        res matches Some(m) ==> ((forall|p: Seq<char>| #[trigger] trie_entries(
            *t,
        ).dom().contains(p) ==> literal_pattern(p)) ==> trie_entries(*t).dom().contains(path@)),
{
    match t.inner.at(path) {
        Ok(m) => {
            let value = *m.value;
            let params = m.params.iter().map(|(k, v)| (k.to_owned(), v.to_owned())).collect();
            Some((value, params))
        },
        Err(_) => None,
    }
}

/// One registered service.
#[derive(Clone)]
pub struct Route<S> {
    pub svc: S,
}

/// A duplicate registration: two entries for one path define the same slot.
#[derive(Clone, Copy, PartialEq, Eq, Structural, Debug)]
pub enum MergeError {
    /// Both entries define a handler for this method.
    DuplicateMethod(Method),
    /// Both entries define a fallback.
    DuplicateFallback,
}

/// The handlers registered at one path: one optional service per HTTP
/// method, plus an optional fallback used when no exact method matches.
#[derive(Clone)]
pub struct MethodRouter<S> {
    pub get: Option<Route<S>>,
    pub post: Option<Route<S>>,
    pub put: Option<Route<S>>,
    pub patch: Option<Route<S>>,
    pub delete: Option<Route<S>>,
    pub options: Option<Route<S>>,
    pub trace: Option<Route<S>>,
    pub head: Option<Route<S>>,
    pub connect: Option<Route<S>>,
    pub fallback: Option<Route<S>>,
}

impl<S> MethodRouter<S> {
    /// The service registered for a method.
    pub open spec fn slot(self, m: Method) -> Option<Route<S>> {
        match m {
            Method::Get => self.get,
            Method::Post => self.post,
            Method::Put => self.put,
            Method::Patch => self.patch,
            Method::Delete => self.delete,
            Method::Options => self.options,
            Method::Trace => self.trace,
            Method::Head => self.head,
            Method::Connect => self.connect,
        }
    }

    /// The service dispatch selects for a method: the method's own slot if
    /// set, else the fallback.
    pub open spec fn selected(self, m: Method) -> Option<Route<S>> {
        if self.slot(m) is Some {
            self.slot(m)
        } else {
            self.fallback
        }
    }

    /// Whether no slot is set.
    pub open spec fn all_empty(self) -> bool {
        &&& self.get is None
        &&& self.post is None
        &&& self.put is None
        &&& self.patch is None
        &&& self.delete is None
        &&& self.options is None
        &&& self.trace is None
        &&& self.head is None
        &&& self.connect is None
        &&& self.fallback is None
    }

    /// The first slot both entries define, in the fixed slot order, if any.
    pub open spec fn merge_conflict(self, other: MethodRouter<S>) -> Option<MergeError> {
        if self.get is Some && other.get is Some {
            Some(MergeError::DuplicateMethod(Method::Get))
        } else if self.post is Some && other.post is Some {
            Some(MergeError::DuplicateMethod(Method::Post))
        } else if self.put is Some && other.put is Some {
            Some(MergeError::DuplicateMethod(Method::Put))
        } else if self.patch is Some && other.patch is Some {
            Some(MergeError::DuplicateMethod(Method::Patch))
        } else if self.delete is Some && other.delete is Some {
            Some(MergeError::DuplicateMethod(Method::Delete))
        } else if self.head is Some && other.head is Some {
            Some(MergeError::DuplicateMethod(Method::Head))
        } else if self.options is Some && other.options is Some {
            Some(MergeError::DuplicateMethod(Method::Options))
        } else if self.trace is Some && other.trace is Some {
            Some(MergeError::DuplicateMethod(Method::Trace))
        } else if self.connect is Some && other.connect is Some {
            Some(MergeError::DuplicateMethod(Method::Connect))
        } else if self.fallback is Some && other.fallback is Some {
            Some(MergeError::DuplicateFallback)
        } else {
            None
        }
    }

    /// Slot by slot: the existing service if set, else the incoming one.
    pub open spec fn merged(self, other: MethodRouter<S>) -> MethodRouter<S> {
        MethodRouter {
            get: if self.get is Some { self.get } else { other.get },
            post: if self.post is Some { self.post } else { other.post },
            put: if self.put is Some { self.put } else { other.put },
            patch: if self.patch is Some { self.patch } else { other.patch },
            delete: if self.delete is Some { self.delete } else { other.delete },
            options: if self.options is Some { self.options } else { other.options },
            trace: if self.trace is Some { self.trace } else { other.trace },
            head: if self.head is Some { self.head } else { other.head },
            connect: if self.connect is Some { self.connect } else { other.connect },
            fallback: if self.fallback is Some { self.fallback } else { other.fallback },
        }
    }

    /// An entry with every slot empty.
    pub fn new() -> (r: MethodRouter<S>)
        ensures
            r.all_empty(),
    {
        MethodRouter {
            get: None,
            post: None,
            put: None,
            patch: None,
            delete: None,
            options: None,
            trace: None,
            head: None,
            connect: None,
            fallback: None,
        }
    }

    /// Registers a service for one method, replacing any present.
    pub fn on(self, m: Method, svc: S) -> (r: MethodRouter<S>)
        ensures
            r.slot(m) == Some((Route { svc })),
            forall|m2: Method| m2 != m ==> r.slot(m2) == self.slot(m2),
            r.fallback == self.fallback,
    {
        let route = Some(Route { svc });
        match m {
            Method::Get => MethodRouter { get: route, ..self },
            Method::Post => MethodRouter { post: route, ..self },
            Method::Put => MethodRouter { put: route, ..self },
            Method::Patch => MethodRouter { patch: route, ..self },
            Method::Delete => MethodRouter { delete: route, ..self },
            Method::Options => MethodRouter { options: route, ..self },
            Method::Trace => MethodRouter { trace: route, ..self },
            Method::Head => MethodRouter { head: route, ..self },
            Method::Connect => MethodRouter { connect: route, ..self },
        }
    }

    /// Registers the fallback, replacing any present.
    pub fn on_fallback(self, svc: S) -> (r: MethodRouter<S>)
        ensures
            r.fallback == Some((Route { svc })),
            forall|m2: Method| r.slot(m2) == self.slot(m2),
    {
        MethodRouter { fallback: Some(Route { svc }), ..self }
    }

    /// Adopts every slot the incoming entry defines and the existing entry
    /// does not. A slot defined by both is a configuration error: the merge
    /// fails, naming the first conflicting slot, and changes nothing.
    pub fn merge(&mut self, other: MethodRouter<S>) -> (r: Result<(), MergeError>)
        ensures
            r is Ok <==> old(self).merge_conflict(other) is None,
            r matches Err(e) ==> Some(e) == old(self).merge_conflict(other) && *final (self)
                == *old(self),
            r is Ok ==> *final (self) == old(self).merged(other),
    {
        if self.get.is_some() && other.get.is_some() {
            return Err(MergeError::DuplicateMethod(Method::Get));
        }
        if self.post.is_some() && other.post.is_some() {
            return Err(MergeError::DuplicateMethod(Method::Post));
        }
        if self.put.is_some() && other.put.is_some() {
            return Err(MergeError::DuplicateMethod(Method::Put));
        }
        if self.patch.is_some() && other.patch.is_some() {
            return Err(MergeError::DuplicateMethod(Method::Patch));
        }
        if self.delete.is_some() && other.delete.is_some() {
            return Err(MergeError::DuplicateMethod(Method::Delete));
        }
        if self.head.is_some() && other.head.is_some() {
            return Err(MergeError::DuplicateMethod(Method::Head));
        }
        if self.options.is_some() && other.options.is_some() {
            return Err(MergeError::DuplicateMethod(Method::Options));
        }
        if self.trace.is_some() && other.trace.is_some() {
            return Err(MergeError::DuplicateMethod(Method::Trace));
        }
        if self.connect.is_some() && other.connect.is_some() {
            return Err(MergeError::DuplicateMethod(Method::Connect));
        }
        if self.fallback.is_some() && other.fallback.is_some() {
            return Err(MergeError::DuplicateFallback);
        }
        if self.get.is_none() {
            self.get = other.get;
        }
        if self.post.is_none() {
            self.post = other.post;
        }
        if self.put.is_none() {
            self.put = other.put;
        }
        if self.patch.is_none() {
            self.patch = other.patch;
        }
        if self.delete.is_none() {
            self.delete = other.delete;
        }
        if self.head.is_none() {
            self.head = other.head;
        }
        if self.options.is_none() {
            self.options = other.options;
        }
        if self.trace.is_none() {
            self.trace = other.trace;
        }
        if self.connect.is_none() {
            self.connect = other.connect;
        }
        if self.fallback.is_none() {
            self.fallback = other.fallback;
        }
        Ok(())
    }

    /// The service dispatch selects for a method, as a reference.
    fn select(&self, m: Method) -> (r: Option<&Route<S>>)
        ensures
            (match r {
                Some(route) => self.selected(m) == Some(*route),
                None => self.selected(m) is None,
            }),
    {
        let slot = match m {
            Method::Get => &self.get,
            Method::Post => &self.post,
            Method::Put => &self.put,
            Method::Patch => &self.patch,
            Method::Delete => &self.delete,
            Method::Options => &self.options,
            Method::Trace => &self.trace,
            Method::Head => &self.head,
            Method::Connect => &self.connect,
        };
        match slot {
            Some(route) => Some(route),
            None => match &self.fallback {
                Some(route) => Some(route),
                None => None,
            },
        }
    }
}

/// Why registering a route failed.
#[derive(Debug)]
pub enum RouteError {
    /// The path is already registered and both entries define this slot.
    Conflict { path: String, conflict: MergeError },
    /// The matcher refused the pattern.
    Pattern(matchit::InsertError),
    /// The pattern holds more capture segments than the matcher supports.
    CaptureLimit,
}

/// The routing table: an immutable-after-construction mapping from path
/// pattern to the [`MethodRouter`] registered there.
pub struct Router<S> {
    pub trie: Trie,
    pub entries: Vec<MethodRouter<S>>,
}

impl<S> Router<S> {
    /// Every value in the trie indexes an entry, and distinct patterns hold
    /// distinct indices.
    pub open spec fn wf(self) -> bool {
        &&& forall|p: Seq<char>| #[trigger]
            trie_entries(self.trie).dom().contains(p) ==> trie_entries(self.trie)[p]
                < self.entries@.len()
        &&& forall|p1: Seq<char>, p2: Seq<char>|
            #![trigger trie_entries(self.trie)[p1], trie_entries(self.trie)[p2]]
            trie_entries(self.trie).dom().contains(p1) && trie_entries(self.trie).dom().contains(
                p2,
            ) && p1 != p2 ==> trie_entries(self.trie)[p1] != trie_entries(self.trie)[p2]
    }

    /// The registered routes: each pattern with its entry.
    pub open spec fn routes(self) -> Map<Seq<char>, MethodRouter<S>> {
        Map::new(
            |p: Seq<char>| trie_entries(self.trie).dom().contains(p),
            |p: Seq<char>| self.entries@[trie_entries(self.trie)[p] as int],
        )
    }

    /// An empty routing table.
    pub fn new() -> (r: Router<S>)
        ensures
            r.wf(),
            r.routes() == Map::<Seq<char>, MethodRouter<S>>::empty(),
            r.entries@ == Seq::<MethodRouter<S>>::empty(),
            forall|p: Seq<char>| !(#[trigger] trie_entries(r.trie).dom().contains(p)),
    {
        let r = Router { trie: trie_new(), entries: Vec::new() };
        proof {
            assert(r.routes() =~= Map::<Seq<char>, MethodRouter<S>>::empty());
        }
        r
    }

    /// Registers an entry at a path pattern. Where the pattern already
    /// resolves, the entry is merged into the existing one, and a slot
    /// defined by both is a configuration error naming the conflicting slot
    /// and path; where it does not, the pattern is inserted afresh, and a
    /// pattern the matcher refuses, or one with too many capture segments,
    /// is a configuration error as well. Registering a fresh capture-free
    /// pattern always succeeds.
    pub fn route(self, path: &str, entry: MethodRouter<S>) -> (r: Result<Router<S>, RouteError>)
        requires
            self.wf(),
        ensures
            r matches Ok(rt) ==> rt.wf(),
            trie_match(self.trie, path@) matches Some(m) ==> {
                &&& (r is Ok <==> self.entries@[m.0 as int].merge_conflict(entry) is None)
                &&& (self.entries@[m.0 as int].merge_conflict(entry) is None ==> (r matches Ok(rt)
                    && rt.trie == self.trie && rt.entries@ == self.entries@.update(
                    m.0 as int,
                    self.entries@[m.0 as int].merged(entry),
                )))
                &&& (self.entries@[m.0 as int].merge_conflict(entry) matches Some(c) ==> (
                r matches Err(e) && e matches (RouteError::Conflict { path: p2, conflict }) && p2@
                    == path@ && conflict == c))
            },
            trie_match(self.trie, path@) is None ==> {
                &&& (r matches Ok(rt) ==> trie_entries(rt.trie) == trie_entries(
                    self.trie,
                ).insert(path@, self.entries@.len() as usize) && rt.entries@
                    == self.entries@.push(entry) && rt.routes() =~= self.routes().insert(
                    path@,
                    entry,
                ))
                &&& (capture_marks(path@) >= CAPTURE_LIMIT ==> (r matches Err(e) && e
                    is CaptureLimit))
                &&& ((capture_marks(path@) < CAPTURE_LIMIT && r is Err) ==> (r matches Err(e)
                    && e matches RouteError::Pattern(_)))
                &&& (literal_pattern(path@) ==> r is Ok)
            },
            (trie_entries(self.trie).dom().contains(path@) && literal_pattern(path@)) ==> (
            r matches Ok(rt) ==> rt.routes() =~= self.routes().insert(
                path@,
                self.routes()[path@].merged(entry),
            )),
            ((forall|p: Seq<char>| #[trigger]
                trie_entries(self.trie).dom().contains(p) ==> literal_pattern(p))
                && !trie_entries(self.trie).dom().contains(path@)) ==> (r matches Ok(rt)
                ==> (rt.entries@ == self.entries@.push(entry) && rt.routes()
                =~= self.routes().insert(path@, entry))),
            ((forall|p: Seq<char>| #[trigger]
                trie_entries(self.trie).dom().contains(p) ==> literal_pattern(p))
                && !trie_entries(self.trie).dom().contains(path@) && literal_pattern(path@)) ==> (
            r matches Ok(rt) && rt.entries@ == self.entries@.push(entry) && rt.routes()
                =~= self.routes().insert(path@, entry)),
    {
        let mut this = self;
        match trie_at(&this.trie, path) {
            Some((idx, _params)) => {
                proof {
                    let p = choose|p: Seq<char>| #[trigger]
                        trie_entries(this.trie).dom().contains(p) && trie_entries(this.trie)[p]
                            == idx;
                    assert(idx < this.entries@.len());
                }
                let ghost before = this.entries@;
                let mut existing = this.entries.remove(idx);
                let res = existing.merge(entry);
                this.entries.insert(idx, existing);
                match res {
                    Ok(()) => {
                        proof {
                            assert(this.entries@ =~= before.update(
                                idx as int,
                                before[idx as int].merged(entry),
                            ));
                            if trie_entries(this.trie).dom().contains(path@) && literal_pattern(
                                path@,
                            ) {
                                assert(this.routes() =~= self.routes().insert(
                                    path@,
                                    self.routes()[path@].merged(entry),
                                ));
                            }
                        }
                        Ok(this)
                    },
                    Err(e) => Err(RouteError::Conflict { path: path.to_owned(), conflict: e }),
                }
            },
            None => {
                proof {
                    if literal_pattern(path@) {
                        lemma_literal_pattern_has_no_marks(path@);
                    }
                }
                if count_capture_marks(path) >= CAPTURE_LIMIT {
                    return Err(RouteError::CaptureLimit);
                }
                let idx = this.entries.len();
                match trie_insert(&mut this.trie, path, idx) {
                    Ok(()) => {
                        this.entries.push(entry);
                        proof {
                            assert(this.routes() =~= self.routes().insert(path@, entry));
                        }
                        Ok(this)
                    },
                    Err(e) => Err(RouteError::Pattern(e)),
                }
            },
        }
    }
}

impl<H: Handler<T> + Send + Sync, T: Send + Sync + Clone + 'static> MethodRouter<
    HandlerService<H, T>,
> {
    /// Registers a handler for GET, replacing any present.
    pub fn get(self, handler: H) -> (r: MethodRouter<HandlerService<H, T>>)
        ensures
            (r.slot(Method::Get) matches Some(route) && route.svc.handler == handler),
            forall|m2: Method| m2 != Method::Get ==> r.slot(m2) == self.slot(m2),
            r.fallback == self.fallback,
    {
        self.on(Method::Get, HandlerService::new(handler))
    }

    /// Registers a handler for POST, replacing any present.
    pub fn post(self, handler: H) -> (r: MethodRouter<HandlerService<H, T>>)
        ensures
            (r.slot(Method::Post) matches Some(route) && route.svc.handler == handler),
            forall|m2: Method| m2 != Method::Post ==> r.slot(m2) == self.slot(m2),
            r.fallback == self.fallback,
    {
        self.on(Method::Post, HandlerService::new(handler))
    }

    /// Registers a handler for PUT, replacing any present.
    pub fn put(self, handler: H) -> (r: MethodRouter<HandlerService<H, T>>)
        ensures
            (r.slot(Method::Put) matches Some(route) && route.svc.handler == handler),
            forall|m2: Method| m2 != Method::Put ==> r.slot(m2) == self.slot(m2),
            r.fallback == self.fallback,
    {
        self.on(Method::Put, HandlerService::new(handler))
    }

    /// Registers a handler for PATCH, replacing any present.
    pub fn patch(self, handler: H) -> (r: MethodRouter<HandlerService<H, T>>)
        ensures
            (r.slot(Method::Patch) matches Some(route) && route.svc.handler == handler),
            forall|m2: Method| m2 != Method::Patch ==> r.slot(m2) == self.slot(m2),
            r.fallback == self.fallback,
    {
        self.on(Method::Patch, HandlerService::new(handler))
    }

    /// Registers a handler for DELETE, replacing any present.
    pub fn delete(self, handler: H) -> (r: MethodRouter<HandlerService<H, T>>)
        ensures
            (r.slot(Method::Delete) matches Some(route) && route.svc.handler == handler),
            forall|m2: Method| m2 != Method::Delete ==> r.slot(m2) == self.slot(m2),
            r.fallback == self.fallback,
    {
        self.on(Method::Delete, HandlerService::new(handler))
    }

    /// Registers a handler for HEAD, replacing any present.
    pub fn head(self, handler: H) -> (r: MethodRouter<HandlerService<H, T>>)
        ensures
            (r.slot(Method::Head) matches Some(route) && route.svc.handler == handler),
            forall|m2: Method| m2 != Method::Head ==> r.slot(m2) == self.slot(m2),
            r.fallback == self.fallback,
    {
        self.on(Method::Head, HandlerService::new(handler))
    }

    /// Registers a handler for OPTIONS, replacing any present.
    pub fn options(self, handler: H) -> (r: MethodRouter<HandlerService<H, T>>)
        ensures
            (r.slot(Method::Options) matches Some(route) && route.svc.handler == handler),
            forall|m2: Method| m2 != Method::Options ==> r.slot(m2) == self.slot(m2),
            r.fallback == self.fallback,
    {
        self.on(Method::Options, HandlerService::new(handler))
    }

    /// Registers a handler for TRACE, replacing any present.
    pub fn trace(self, handler: H) -> (r: MethodRouter<HandlerService<H, T>>)
        ensures
            (r.slot(Method::Trace) matches Some(route) && route.svc.handler == handler),
            forall|m2: Method| m2 != Method::Trace ==> r.slot(m2) == self.slot(m2),
            r.fallback == self.fallback,
    {
        self.on(Method::Trace, HandlerService::new(handler))
    }

    /// Registers a handler for CONNECT, replacing any present.
    pub fn connect(self, handler: H) -> (r: MethodRouter<HandlerService<H, T>>)
        ensures
            (r.slot(Method::Connect) matches Some(route) && route.svc.handler == handler),
            forall|m2: Method| m2 != Method::Connect ==> r.slot(m2) == self.slot(m2),
            r.fallback == self.fallback,
    {
        self.on(Method::Connect, HandlerService::new(handler))
    }

    /// Registers a handler as the fallback, replacing any present.
    pub fn any(self, handler: H) -> (r: MethodRouter<HandlerService<H, T>>)
        ensures
            (r.fallback matches Some(route) && route.svc.handler == handler),
            forall|m2: Method| r.slot(m2) == self.slot(m2),
    {
        self.on_fallback(HandlerService::new(handler))
    }
}

/// A fresh entry with a handler registered for GET.
pub fn get<H: Handler<T> + Send + Sync, T: Send + Sync + Clone + 'static>(handler: H) -> (r:
    MethodRouter<HandlerService<H, T>>)
    ensures
        (r.slot(Method::Get) matches Some(route) && route.svc.handler == handler),
        forall|m2: Method| m2 != Method::Get ==> r.slot(m2) is None,
        r.fallback is None,
{
    MethodRouter::new().get(handler)
}

/// A fresh entry with a handler registered for POST.
pub fn post<H: Handler<T> + Send + Sync, T: Send + Sync + Clone + 'static>(handler: H) -> (r:
    MethodRouter<HandlerService<H, T>>)
    ensures
        (r.slot(Method::Post) matches Some(route) && route.svc.handler == handler),
        forall|m2: Method| m2 != Method::Post ==> r.slot(m2) is None,
        r.fallback is None,
{
    MethodRouter::new().post(handler)
}

/// A fresh entry with a handler registered for PUT.
pub fn put<H: Handler<T> + Send + Sync, T: Send + Sync + Clone + 'static>(handler: H) -> (r:
    MethodRouter<HandlerService<H, T>>)
    ensures
        (r.slot(Method::Put) matches Some(route) && route.svc.handler == handler),
        forall|m2: Method| m2 != Method::Put ==> r.slot(m2) is None,
        r.fallback is None,
{
    MethodRouter::new().put(handler)
}

/// A fresh entry with a handler registered for PATCH.
pub fn patch<H: Handler<T> + Send + Sync, T: Send + Sync + Clone + 'static>(handler: H) -> (r:
    MethodRouter<HandlerService<H, T>>)
    ensures
        (r.slot(Method::Patch) matches Some(route) && route.svc.handler == handler),
        forall|m2: Method| m2 != Method::Patch ==> r.slot(m2) is None,
        r.fallback is None,
{
    MethodRouter::new().patch(handler)
}

/// A fresh entry with a handler registered for DELETE.
pub fn delete<H: Handler<T> + Send + Sync, T: Send + Sync + Clone + 'static>(handler: H) -> (r:
    MethodRouter<HandlerService<H, T>>)
    ensures
        (r.slot(Method::Delete) matches Some(route) && route.svc.handler == handler),
        forall|m2: Method| m2 != Method::Delete ==> r.slot(m2) is None,
        r.fallback is None,
{
    MethodRouter::new().delete(handler)
}

/// A fresh entry with a handler registered for HEAD.
pub fn head<H: Handler<T> + Send + Sync, T: Send + Sync + Clone + 'static>(handler: H) -> (r:
    MethodRouter<HandlerService<H, T>>)
    ensures
        (r.slot(Method::Head) matches Some(route) && route.svc.handler == handler),
        forall|m2: Method| m2 != Method::Head ==> r.slot(m2) is None,
        r.fallback is None,
{
    MethodRouter::new().head(handler)
}

/// A fresh entry with a handler registered for OPTIONS.
pub fn options<H: Handler<T> + Send + Sync, T: Send + Sync + Clone + 'static>(handler: H) -> (r:
    MethodRouter<HandlerService<H, T>>)
    ensures
        (r.slot(Method::Options) matches Some(route) && route.svc.handler == handler),
        forall|m2: Method| m2 != Method::Options ==> r.slot(m2) is None,
        r.fallback is None,
{
    MethodRouter::new().options(handler)
}

/// A fresh entry with a handler registered for TRACE.
pub fn trace<H: Handler<T> + Send + Sync, T: Send + Sync + Clone + 'static>(handler: H) -> (r:
    MethodRouter<HandlerService<H, T>>)
    ensures
        (r.slot(Method::Trace) matches Some(route) && route.svc.handler == handler),
        forall|m2: Method| m2 != Method::Trace ==> r.slot(m2) is None,
        r.fallback is None,
{
    MethodRouter::new().trace(handler)
}

/// A fresh entry with a handler registered for CONNECT.
pub fn connect<H: Handler<T> + Send + Sync, T: Send + Sync + Clone + 'static>(handler: H) -> (r:
    MethodRouter<HandlerService<H, T>>)
    ensures
        (r.slot(Method::Connect) matches Some(route) && route.svc.handler == handler),
        forall|m2: Method| m2 != Method::Connect ==> r.slot(m2) is None,
        r.fallback is None,
{
    MethodRouter::new().connect(handler)
}

/// A fresh entry with a handler registered as the fallback.
pub fn any<H: Handler<T> + Send + Sync, T: Send + Sync + Clone + 'static>(handler: H) -> (r:
    MethodRouter<HandlerService<H, T>>)
    ensures
        (r.fallback matches Some(route) && route.svc.handler == handler),
        forall|m2: Method| r.slot(m2) is None,
{
    MethodRouter::new().any(handler)
}

impl<S> Default for MethodRouter<S> {
    /// An entry with every slot empty.
    fn default() -> (r: MethodRouter<S>)
        ensures
            r.all_empty(),
    {
        MethodRouter::new()
    }
}

/// Whether the service an entry selects for this request, if any, may be
/// invoked on it.
pub open spec fn entry_callable<S: RouteService>(entry: MethodRouter<S>, req: RequestModel) -> bool {
    match entry.selected(req.parts.method) {
        Some(route) => route.svc.svc_callable(req),
        None => true,
    }
}

impl<S: RouteService> Router<S> {
    /// Whatever entry a path match selects and whatever parameters it
    /// captures, the selected service may be invoked.
    pub open spec fn req_callable(self, req: RequestModel) -> bool {
        forall|i: int, ps: Seq<(Seq<char>, Seq<char>)>|
            0 <= i < self.entries@.len() ==> #[trigger] entry_callable(
                self.entries@[i],
                req.with_params(ps),
            )
    }

    /// How dispatch answers a request: 404 for an unmatched path; otherwise
    /// the matched entry's service for the request method (or its fallback),
    /// invoked on the request with the captured parameters attached, or 405
    /// where neither exists.
    pub open spec fn dispatched(self, req: RequestModel, resp: ResponseModel) -> bool {
        match trie_match(self.trie, req.parts.path) {
            None => resp == status_response_model(404),
            Some(m) => match self.entries@[m.0 as int].selected(req.parts.method) {
                Some(route) => route.svc.svc_handled(req.with_params(m.1), resp),
                None => resp == status_response_model(405),
            },
        }
    }

    /// Dispatches one request: resolves the path, attaches the captured
    /// parameters, selects the service by method, and invokes it. A request
    /// whose path is registered under a capture-free pattern is answered by
    /// exactly that pattern's entry, with nothing captured; where every
    /// registered pattern is capture-free, any other path is answered 404.
    pub fn call(&self, req: Request) -> (r: Response)
        requires
            self.wf(),
            self.req_callable(req@),
        ensures
            self.dispatched(req@, r@),
            (trie_entries(self.trie).dom().contains(req@.parts.path) && literal_pattern(
                req@.parts.path,
            )) ==> (match self.routes()[req@.parts.path].selected(req@.parts.method) {
                Some(route) => route.svc.svc_handled(req@.with_params(no_params()), r@),
                None => r@ == status_response_model(405),
            }),
            ((forall|p: Seq<char>| #[trigger]
                trie_entries(self.trie).dom().contains(p) ==> literal_pattern(p))
                && !trie_entries(self.trie).dom().contains(req@.parts.path)) ==> r@
                == status_response_model(404),
    {
        let ghost rm = req@;
        match trie_at(&self.trie, req.parts.path.as_str()) {
            None => StatusCode::not_found().into_response(),
            Some((idx, params)) => {
                proof {
                    let p = choose|p: Seq<char>| #[trigger]
                        trie_entries(self.trie).dom().contains(p) && trie_entries(self.trie)[p]
                            == idx;
                    assert(idx < self.entries@.len());
                }
                let ghost psv = pairs_view(params@);
                proof {
                    if trie_entries(self.trie).dom().contains(rm.parts.path) && literal_pattern(
                        rm.parts.path,
                    ) {
                        assert(psv =~= no_params());
                    }
                    assert(entry_callable(self.entries@[idx as int], rm.with_params(psv)));
                }
                let mut req = req;
                req.parts.params = params;
                proof {
                    assert(req@ =~= rm.with_params(psv));
                }
                let entry = &self.entries[idx];
                match entry.select(req.parts.method) {
                    Some(route) => route.svc.call(req),
                    None => StatusCode::method_not_allowed().into_response(),
                }
            },
        }
    }
}

/// Two entries that define the same method slot, or both a fallback, always
/// conflict: merging them fails rather than silently overwriting either.
pub proof fn lemma_duplicate_slot_conflicts<S>(a: MethodRouter<S>, b: MethodRouter<S>)
    requires
        (exists|m: Method| #[trigger] a.slot(m) is Some && b.slot(m) is Some) || (a.fallback
            is Some && b.fallback is Some),
    ensures
        a.merge_conflict(b) is Some,
{
    if exists|m: Method| #[trigger] a.slot(m) is Some && b.slot(m) is Some {
        let m = choose|m: Method| #[trigger] a.slot(m) is Some && b.slot(m) is Some;
        assert(a.merge_conflict(b) is Some);
    }
}

} // verus!
