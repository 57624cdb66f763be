//! One run of `cat` as a state machine: it says which request to make next, and is told
//! what came back. The caller performs the requests, prints and sleeps.
use vstd::prelude::*;
use crate::builder::{
    compose, now_minus, sort_view, time_sort, MatchClause, Query, RangeClause, SearchQueryBuilder,
    SearchRequest, SortField,
};
use crate::error::ESQError;
use crate::paginator::{batch_size_of, budget_after, stops_after, PaginatorState};
use crate::params::{
    mode_of, select_of, validate_parameters, validation_ok, where_of, CatArgs, ParameterCombination,
};
use crate::plan::{
    budget_of, copy_match, copy_opt_string, copy_string, match_for, needs_snapshot, opt_view,
    seek_origin,
    seek_request, ExtractionParameters, Hit, LATENCY,
};
use crate::snapshot::SnapshotManager;
use crate::text::views;

verus! {

/// Where a run stands.
#[derive(Debug, Clone, Copy, PartialEq, Eq, Structural)]
pub enum Phase {
    /// Nothing requested yet.
    Start,
    /// Waiting for the snapshot to open.
    Opening,
    /// Waiting for the hits of the anchored probe.
    Probing,
    /// Waiting for a batch.
    Fetching,
    /// Waiting for the old snapshot to close, before a new one opens.
    Refreshing,
    /// Waiting for the new snapshot to open.
    Reopening,
    /// Waiting out the pause between two polls.
    Sleeping,
    /// Waiting for the last snapshot to close.
    Closing,
    /// Over.
    Done,
}

/// What came back from the last action.
pub enum Event {
    /// The run begins.
    Started,
    /// The answer to an open request: the snapshot id it holds, if any.
    Opened(Option<String>),
    /// The hits of a search, in the order returned.
    Hits(Vec<Hit>),
    /// A close request was sent, whether or not it succeeded.
    Closed,
    /// The pause is over.
    Slept,
    /// The last request failed.
    Failed(ESQError),
}

/// What to do next.
pub enum Action {
    /// Open a snapshot of the index.
    OpenSnapshot,
    /// Send this search, through the open snapshot if there is one.
    Search(SearchRequest),
    /// Close the snapshot with this id; a failure is reported and otherwise ignored.
    CloseSnapshot(String),
    /// Pause before the next poll.
    Sleep,
    /// The run is over, with this outcome.
    Finish(Result<(), ESQError>),
}

/// The document bodies of the hits, in order.
pub open spec fn sources(h: Seq<Hit>) -> Seq<Seq<char>> {
    h.map_values(|x: Hit| x.source@)
}

/// The state of one run.
pub struct CatSession {
    pub params: ExtractionParameters,
    pub from: Option<String>,
    pub to: Option<String>,
    pub select_fields: Option<Vec<String>>,
    /// The request that every batch starts from, once the probe is done.
    pub base: Option<SearchQueryBuilder>,
    pub paginator: PaginatorState,
    pub snapshot: SnapshotManager,
    pub phase: Phase,
    /// The error to report once the snapshot is closed.
    pub outcome: Option<ESQError>,
    pub batch_cap: u32,
}

fn copy_sort(v: &Vec<SortField>) -> (r: Vec<SortField>)
    ensures
        sort_view(r@) == sort_view(v@),
{
    let mut out: Vec<SortField> = Vec::new();
    let mut i: usize = 0;
    while i < v.len()
        invariant
            i <= v@.len(),
            sort_view(out@) == sort_view(v@).take(i as int),
        decreases v.len() - i,
    {
        let ghost before = sort_view(out@);
        out.push(SortField { field: copy_string(&v[i].field), ascending: v[i].ascending });
        assert(sort_view(out@) =~= before.push(v@[i as int].view()));
        assert(sort_view(v@).take(i + 1) =~= sort_view(v@).take(i as int).push(v@[i as int].view()));
        i = i + 1;
    }
    assert(sort_view(v@).take(i as int) =~= sort_view(v@));
    out
}

fn copy_strings(v: &Vec<String>) -> (r: Vec<String>)
    ensures
        views(r@) == views(v@),
{
    let mut out: Vec<String> = Vec::new();
    let mut i: usize = 0;
    while i < v.len()
        invariant
            i <= v@.len(),
            views(out@) == views(v@).take(i as int),
        decreases v.len() - i,
    {
        let ghost before = views(out@);
        out.push(copy_string(&v[i]));
        assert(views(out@) =~= before.push(v@[i as int]@));
        assert(views(v@).take(i + 1) =~= views(v@).take(i as int).push(v@[i as int]@));
        i = i + 1;
    }
    assert(views(v@).take(i as int) =~= views(v@));
    out
}

pub open spec fn opt_views(o: Option<Vec<String>>) -> Option<Seq<Seq<char>>> {
    match o {
        Some(v) => Some(views(v@)),
        None => None,
    }
}

pub open spec fn range_view(r: Option<RangeClause>) -> Option<(Option<Seq<char>>, Seq<char>)> {
    match r {
        Some(c) => Some((opt_view(c.gte), c.lt@)),
        None => None,
    }
}

pub open spec fn match_view(m: Option<MatchClause>) -> Option<
    (Seq<(Seq<char>, Seq<char>)>, bool, bool),
> {
    match m {
        Some(c) => Some((c.filters(), c is MatchAll, c is Match)),
        None => None,
    }
}

impl SearchQueryBuilder {
    /// The two builders hold the same settings.
    pub open spec fn same_as(self, o: SearchQueryBuilder) -> bool {
        &&& sort_view(self.sort_order@) == sort_view(o.sort_order@)
        &&& self.size == o.size
        &&& opt_views(self.source_fields) == opt_views(o.source_fields)
        &&& opt_view(self.search_after) == opt_view(o.search_after)
        &&& range_view(self.query_range) == range_view(o.query_range)
        &&& match_view(self.query_match) == match_view(o.query_match)
        &&& self.use_pit == o.use_pit
    }
}

fn copy_builder(b: &SearchQueryBuilder) -> (r: SearchQueryBuilder)
    ensures
        r.same_as(*b),
{
    SearchQueryBuilder {
        sort_order: copy_sort(&b.sort_order),
        size: b.size,
        source_fields: match &b.source_fields {
            Some(v) => Some(copy_strings(v)),
            None => None,
        },
        search_after: copy_opt_string(&b.search_after),
        query_range: match &b.query_range {
            Some(c) => Some(RangeClause { gte: copy_opt_string(&c.gte), lt: copy_string(&c.lt) }),
            None => None,
        },
        query_match: match &b.query_match {
            Some(m) => Some(copy_match(m)),
            None => None,
        },
        use_pit: b.use_pit,
    }
}

/// The range and the match clause that a query holds, up to views.
pub open spec fn query_view(q: Option<Query>) -> (
    Option<(Option<Seq<char>>, Seq<char>)>,
    Option<(Seq<(Seq<char>, Seq<char>)>, bool, bool)>,
) {
    match q {
        None => (None, None),
        Some(Query::Range(r)) => (range_view(Some(r)), None),
        Some(Query::Match(m)) => (None, match_view(Some(m))),
        Some(Query::Both(r, m)) => (range_view(Some(r)), match_view(Some(m))),
    }
}

/// `q` is the next batch request of `s`: the base request, with the batch size that the
/// budget left allows and the cursor.
pub open spec fn next_batch(s: CatSession, q: SearchRequest) -> bool {
    &&& s.base matches Some(b) && {
        &&& sort_view(q.sort@) == sort_view(b.sort_order@)
        &&& opt_views(q.source) == opt_views(b.source_fields)
        &&& query_view(q.query) == (range_view(b.query_range), match_view(b.query_match))
    }
    &&& q.size == batch_size_of(s.paginator.remaining, s.paginator.polling, s.batch_cap)
    &&& opt_view(q.search_after) == opt_view(s.paginator.cursor)
}

/// The settings of a run, which no step changes.
pub open spec fn keeps(a: CatSession, b: CatSession) -> bool {
    &&& a.from == b.from
    &&& a.to == b.to
    &&& a.select_fields == b.select_fields
    &&& a.batch_cap == b.batch_cap
    &&& a.params.use_pit == b.params.use_pit
    &&& a.params.total_docs == b.params.total_docs
    &&& a.params.query_match == b.params.query_match
    &&& a.params.seek_origin == b.params.seek_origin
    &&& a.params.sort_order == b.params.sort_order
    &&& a.params.sleep_between_batches == b.params.sleep_between_batches
}

/// The outcome that a finished run reports.
pub open spec fn result_of(outcome: Option<ESQError>) -> Result<(), ESQError> {
    match outcome {
        Some(e) => Err(e),
        None => Ok(()),
    }
}

/// The run ends because a date cannot be read: at once, or once its snapshot is closed.
pub open spec fn date_failure(a: Action, s: CatSession) -> bool {
    match a {
        Action::Finish(Err(e)) => e is DateParseError && s.phase is Done,
        Action::CloseSnapshot(_) => s.phase is Closing && match s.outcome {
            Some(e) => e is DateParseError,
            None => false,
        },
        _ => false,
    }
}

impl CatSession {
    /// `b` is the base request of this run's plan: the forward sort, the plan's filters and
    /// field selection, and the time range of its options.
    pub open spec fn base_ok(&self, b: SearchQueryBuilder) -> bool {
        &&& sort_view(b.sort_order@) == time_sort(true, true)
        &&& match_view(b.query_match) == match_view(self.params.query_match)
        &&& opt_views(b.source_fields) == opt_views(self.select_fields)
        &&& b.search_after is None
        &&& b.query_range matches Some(r) && (r.gte is Some <==> self.from is Some) && (self.to is None
            ==> r.lt@ == now_minus(LATENCY@))
    }

    /// The states that a run passes through.
    pub open spec fn wf(&self) -> bool {
        &&& self.snapshot.wf()
        &&& sort_view(self.params.sort_order@) == time_sort(true, true)
        &&& self.paginator.polling == self.params.sleep_between_batches
        &&& self.snapshot.id() is Some ==> self.params.use_pit
        &&& !self.params.use_pit ==> self.snapshot.opened() == 0
        &&& (self.phase is Opening || self.phase is Refreshing || self.phase is Reopening)
            ==> self.params.use_pit
        &&& (self.phase is Start || self.phase is Opening || self.phase is Reopening
            || self.phase is Refreshing || self.phase is Closing || self.phase is Done)
            ==> self.snapshot.id() is None
        &&& (self.phase is Start || self.phase is Opening || self.phase is Probing)
            ==> self.params.search_after is None
        &&& (self.phase is Fetching || self.phase is Sleeping || self.phase is Refreshing
            || self.phase is Reopening) ==> (self.base matches Some(b) && self.base_ok(b))
    }

    /// A run of `cat` with these options, in batches of at most `batch_cap`; fails, before
    /// anything is requested, where the options do not resolve.
    pub fn start(args: &CatArgs, batch_cap: u32) -> (r: Result<CatSession, ESQError>)
        ensures
            r is Ok <==> validation_ok(
                args.around,
                args.from,
                args.to,
                args.lines,
                args.follow,
                args.select_clause,
                args.where_clause,
            ),
            r matches Err(e) ==> e is ValidationError,
            r matches Ok(s) ==> {
                let mode = mode_of(
                    args.around is Some,
                    args.from is Some,
                    args.to is Some,
                    args.lines,
                    args.follow,
                )->0;
                &&& s.wf()
                &&& s.phase is Start
                &&& s.batch_cap == batch_cap
                &&& s.params.use_pit == needs_snapshot(mode)
                &&& s.params.total_docs == budget_of(mode, args.lines)
                &&& s.params.sleep_between_batches == (mode is Follow)
                &&& s.params.search_after is None
                &&& opt_view(s.from) == opt_view(args.from)
                &&& opt_view(s.to) == opt_view(args.to)
                &&& s.snapshot.opened() == 0
                &&& match args.select_clause {
                    Some(c) => s.select_fields matches Some(f) && select_of(c@) == Some(views(f@)),
                    None => s.select_fields is None,
                }
                &&& match args.where_clause {
                    Some(w) => match_for(where_of(w@), s.params.query_match),
                    None => s.params.query_match is None,
                }
                &&& match mode {
                    ParameterCombination::Around => s.params.seek_origin matches Some(o) && opt_view(
                        o.datetime,
                    ) == opt_view(args.around) && o.size == args.lines / 2,
                    ParameterCombination::To => s.params.seek_origin matches Some(o) && opt_view(
                        o.datetime,
                    ) == opt_view(args.to) && o.size == args.lines,
                    ParameterCombination::Follow | ParameterCombination::Latest => s.params.seek_origin matches Some(
                        o,
                    ) && o.datetime is None && o.size == args.lines,
                    _ => s.params.seek_origin is None,
                }
            },
    {
        let validation = match validate_parameters(
            &args.around,
            &args.from,
            &args.to,
            &args.lines,
            args.follow,
            &args.select_clause,
            &args.where_clause,
        ) {
            Ok(v) => v,
            Err(e) => return Err(e),
        };
        let params = match ExtractionParameters::from_mode(
            &validation,
            &args.lines,
            &args.around,
            &args.to,
        ) {
            Ok(p) => p,
            Err(e) => return Err(e),
        };
        let paginator = PaginatorState::new(&params);
        Ok(CatSession {
            params,
            from: copy_opt_string(&args.from),
            to: copy_opt_string(&args.to),
            select_fields: validation.select_fields,
            base: None,
            paginator,
            snapshot: SnapshotManager::new(),
            phase: Phase::Start,
            outcome: None,
            batch_cap,
        })
    }

    pub fn is_done(&self) -> (r: bool)
        ensures
            r == (self.phase is Done),
    {
        match self.phase {
            Phase::Done => true,
            _ => false,
        }
    }

    /// Ends the run: closes the snapshot first where one is open.
    fn finish(&mut self, outcome: Option<ESQError>) -> (a: Action)
        requires
            old(self).snapshot.wf(),
        ensures
            final(self).snapshot.wf(),
            final(self).snapshot.id() is None,
            final(self).snapshot.opened() == old(self).snapshot.opened(),
            final(self).snapshot.closed() == old(self).snapshot.closed() + if a is CloseSnapshot {
                1nat
            } else {
                0nat
            },
            keeps(*old(self), *final(self)),
            final(self).params == old(self).params,
            final(self).base == old(self).base,
            final(self).paginator == old(self).paginator,
            match old(self).snapshot.id() {
                Some(id) => a == Action::CloseSnapshot(id) && final(self).phase is Closing
                    && final(self).outcome == outcome,
                None => final(self).phase is Done && a == Action::Finish(result_of(outcome)),
            },
    {
        match self.snapshot.close() {
            Some(id) => {
                self.outcome = outcome;
                self.phase = Phase::Closing;
                Action::CloseSnapshot(id)
            },
            None => {
                self.phase = Phase::Done;
                Action::Finish(
                    match outcome {
                        Some(e) => Err(e),
                        None => Ok(()),
                    },
                )
            },
        }
    }

    /// The next batch request.
    fn next_search(&mut self) -> (a: Action)
        requires
            old(self).snapshot.wf(),
            old(self).base matches Some(b) && b.search_after is None,
        ensures
            final(self).phase is Fetching,
            a matches Action::Search(q) && next_batch(*final(self), q),
            final(self).snapshot == old(self).snapshot,
            final(self).base == old(self).base,
            final(self).paginator == old(self).paginator,
            final(self).params == old(self).params,
            keeps(*old(self), *final(self)),
    {
        let b = match &self.base {
            Some(b) => copy_builder(b),
            None => {
                return Action::Finish(Ok(()));
            },
        };
        let ghost g = b;
        let q = self.paginator.request(b, self.batch_cap);
        assert(query_view(compose(g.query_range, g.query_match)) == (
            range_view(g.query_range),
            match_view(g.query_match),
        ));
        self.phase = Phase::Fetching;
        Action::Search(q)
    }

    /// Builds the base request from the plan, then asks for the first batch.
    fn begin_fetch(&mut self) -> (a: Action)
        requires
            old(self).snapshot.wf(),
            sort_view(old(self).params.sort_order@) == time_sort(true, true),
            old(self).paginator.polling == old(self).params.sleep_between_batches,
            old(self).snapshot.id() is Some ==> old(self).params.use_pit,
            !old(self).params.use_pit ==> old(self).snapshot.opened() == 0,
        ensures
            final(self).wf(),
            keeps(*old(self), *final(self)),
            final(self).params == old(self).params,
            final(self).snapshot.opened() == old(self).snapshot.opened(),
            final(self).snapshot.closed() == old(self).snapshot.closed() + if a is CloseSnapshot {
                1nat
            } else {
                0nat
            },
            a is Search || date_failure(a, *final(self)),
            a matches Action::Search(q) ==> final(self).phase is Fetching && final(self).snapshot
                == old(self).snapshot && next_batch(*final(self), q) && opt_view(
                final(self).paginator.cursor,
            ) == opt_view(old(self).params.search_after) && final(self).paginator.remaining
                == old(self).params.total_docs,
            a is Finish ==> final(self).phase is Done,
            a matches Action::CloseSnapshot(id) ==> old(self).snapshot.id() == Some(id)
                && final(self).phase is Closing,
    {
        let from = match &self.from {
            Some(s) => Some(s.as_str()),
            None => None,
        };
        let to = match &self.to {
            Some(s) => Some(s.as_str()),
            None => None,
        };
        let query_match = match &self.params.query_match {
            Some(m) => Some(copy_match(m)),
            None => None,
        };
        let select = match &self.select_fields {
            Some(v) => Some(copy_strings(v)),
            None => None,
        };
        let built = SearchQueryBuilder::new().with_sort_order(copy_sort(&self.params.sort_order)).with_pit(
            self.params.use_pit,
        ).with_query_match(query_match).with_source_fields(select).with_time_range(
            from,
            to,
            LATENCY,
        );
        match built {
            Ok(b) => {
                self.base = Some(b);
                self.paginator = PaginatorState::new(&self.params);
                self.next_search()
            },
            Err(e) => self.finish(Some(e)),
        }
    }

    /// Sends the anchored probe where the plan has one; else starts the batches.
    fn begin_seek(&mut self) -> (a: Action)
        requires
            old(self).snapshot.wf(),
            sort_view(old(self).params.sort_order@) == time_sort(true, true),
            old(self).paginator.polling == old(self).params.sleep_between_batches,
            old(self).snapshot.id() is Some ==> old(self).params.use_pit,
            !old(self).params.use_pit ==> old(self).snapshot.opened() == 0,
            old(self).params.search_after is None,
        ensures
            final(self).wf(),
            keeps(*old(self), *final(self)),
            final(self).snapshot.opened() == old(self).snapshot.opened(),
            final(self).snapshot.closed() == old(self).snapshot.closed() + if a is CloseSnapshot {
                1nat
            } else {
                0nat
            },
            a is Search || date_failure(a, *final(self)),
            a is Search ==> (final(self).phase is Fetching || final(self).phase is Probing)
                && final(self).snapshot == old(self).snapshot,
            final(self).phase is Fetching ==> (a matches Action::Search(q) ==> next_batch(
                *final(self),
                q,
            ) && final(self).paginator.cursor is None && final(self).paginator.remaining == old(
                self,
            ).params.total_docs),
            a is Finish ==> final(self).phase is Done,
            a matches Action::CloseSnapshot(id) ==> old(self).snapshot.id() == Some(id)
                && final(self).phase is Closing,
    {
        match seek_request(&self.params) {
            Ok(Some(q)) => {
                self.phase = Phase::Probing;
                Action::Search(q)
            },
            Ok(None) => self.begin_fetch(),
            Err(e) => self.finish(Some(e)),
        }
    }

    /// Takes what came back from the last action and says what to do next, with the lines to
    /// print first.
    pub fn step(&mut self, event: Event) -> (r: (Vec<String>, Action))
        requires
            old(self).wf(),
            !(old(self).phase is Done),
        ensures
            final(self).wf(),
            keeps(*old(self), *final(self)),
            final(self).paginator.polling == old(self).paginator.polling,
            r.1 is OpenSnapshot ==> final(self).params.use_pit,
            !final(self).params.use_pit ==> final(self).snapshot.opened() == 0,
            views(r.0@) == match (old(self).phase, event) {
                (Phase::Fetching, Event::Hits(h)) => sources(h@),
                _ => Seq::empty(),
            },
            r.1 is Finish <==> final(self).phase is Done,
            r.1 is Finish ==> final(self).snapshot.opened() == final(self).snapshot.closed(),
            r.1 is OpenSnapshot ==> final(self).snapshot.id() is None,
            r.1 is CloseSnapshot ==> final(self).snapshot.id() is None && final(self).snapshot.closed()
                == old(self).snapshot.closed() + 1,
            !(old(self).phase is Opening) ==> (r.1 matches Action::CloseSnapshot(id) ==> old(
                self,
            ).snapshot.id() == Some(id)),
            r.1 is Search && !(old(self).phase is Opening) ==> final(self).snapshot.id() == old(
                self,
            ).snapshot.id(),
            old(self).phase is Start && event is Started ==> (old(self).params.use_pit
                <==> r.1 is OpenSnapshot),
            old(self).phase is Closing ==> r.1 == Action::Finish(result_of(old(self).outcome)),
            old(self).phase is Refreshing ==> {
                &&& r.1 is OpenSnapshot
                &&& final(self).phase is Reopening
                &&& final(self).paginator == old(self).paginator
                &&& final(self).snapshot.opened() == old(self).snapshot.opened()
            },
            match (old(self).phase, event) {
                (Phase::Fetching, Event::Hits(h)) => {
                    let stop = stops_after(
                        old(self).paginator.remaining,
                        old(self).paginator.polling,
                        h@.len(),
                    );
                    &&& stop ==> (r.1 == Action::Finish(Ok(())) && final(self).phase is Done) || (
                    r.1 is CloseSnapshot && final(self).outcome is None && final(self).phase is Closing)
                    &&& final(self).snapshot.opened() == old(self).snapshot.opened()
                    &&& !stop && old(self).paginator.polling ==> match old(self).snapshot.id() {
                        Some(id) => r.1 == Action::CloseSnapshot(id) && final(self).phase is Refreshing,
                        None => r.1 is Sleep && final(self).phase is Sleeping,
                    }
                    &&& !stop && !old(self).paginator.polling ==> (r.1 matches Action::Search(q)
                        && next_batch(*final(self), q))
                    &&& h@.len() > 0 ==> opt_view(final(self).paginator.cursor) == opt_view(
                        h@.last().sort,
                    )
                    &&& final(self).paginator.remaining == if h@.len() > 0
                        && !old(self).paginator.polling {
                        budget_after(old(self).paginator.remaining, h@.len())
                    } else {
                        old(self).paginator.remaining
                    }
                },
                (Phase::Probing, Event::Hits(h)) => {
                    &&& r.1 is Search || date_failure(r.1, *final(self))
                    &&& r.1 matches Action::Search(q) ==> {
                        &&& final(self).phase is Fetching
                        &&& next_batch(*final(self), q)
                        &&& opt_view(q.search_after) == if h@.len() > 0 {
                            opt_view(h@.last().sort)
                        } else {
                            None
                        }
                        &&& final(self).paginator.remaining == old(self).params.total_docs
                    }
                },
                (Phase::Probing, _) => {
                    &&& r.1 is Search || date_failure(r.1, *final(self))
                    &&& r.1 matches Action::Search(q) ==> {
                        &&& final(self).phase is Fetching
                        &&& next_batch(*final(self), q)
                        &&& q.search_after is None
                        &&& final(self).paginator.remaining == old(self).params.total_docs
                    }
                },
                (Phase::Opening, Event::Opened(Some(_))) => old(self).snapshot.opened() < u64::MAX ==> (
                r.1 is Search || date_failure(r.1, *final(self))),
                (Phase::Start, Event::Started) => !old(self).params.use_pit ==> (r.1 is Search
                    || date_failure(r.1, *final(self))),
                (Phase::Sleeping, Event::Slept) => r.1 matches Action::Search(q) && next_batch(
                    *final(self),
                    q,
                ) && final(self).paginator == old(self).paginator,
                (Phase::Reopening, Event::Opened(Some(_))) => old(self).snapshot.opened() < u64::MAX
                    ==> {
                    &&& r.1 is Sleep
                    &&& final(self).phase is Sleeping
                    &&& final(self).paginator == old(self).paginator
                    &&& final(self).snapshot.opened() == old(self).snapshot.opened() + 1
                },
                _ => true,
            },
            match event {
                Event::Failed(e) => !(old(self).phase is Probing || old(self).phase is Closing
                    || old(self).phase is Refreshing) ==> match old(self).snapshot.id() {
                    Some(id) => r.1 == Action::CloseSnapshot(id) && final(self).outcome == Some(e)
                        && final(self).phase is Closing,
                    None => r.1 == Action::Finish(Err(e)) && final(self).phase is Done,
                },
                _ => true,
            },
    {
        let mut lines: Vec<String> = Vec::new();
        let phase = self.phase;
        let action = match (phase, event) {
            (Phase::Closing, _) => {
                self.phase = Phase::Done;
                match self.outcome.take() {
                    Some(e) => Action::Finish(Err(e)),
                    None => Action::Finish(Ok(())),
                }
            },
            (Phase::Probing, Event::Hits(h)) => {
                let cursor = seek_origin(&h);
                self.params.update_search_after(cursor.as_ref());
                self.begin_fetch()
            },
            (Phase::Probing, _) => self.begin_fetch(),
            (Phase::Refreshing, _) => {
                self.phase = Phase::Reopening;
                Action::OpenSnapshot
            },
            (_, Event::Failed(e)) => self.finish(Some(e)),
            (Phase::Start, Event::Started) => {
                if self.params.use_pit {
                    self.phase = Phase::Opening;
                    Action::OpenSnapshot
                } else {
                    self.begin_seek()
                }
            },
            (Phase::Opening, Event::Opened(id)) => {
                if self.snapshot.open_requests() == u64::MAX {
                    self.finish(Some(ESQError::ESError(String::from_str("Too many PIT requests"))))
                } else {
                    match self.snapshot.on_opened(id) {
                        Ok(()) => self.begin_seek(),
                        Err(e) => self.finish(Some(e)),
                    }
                }
            },
            (Phase::Reopening, Event::Opened(id)) => {
                if self.snapshot.open_requests() == u64::MAX {
                    self.finish(Some(ESQError::ESError(String::from_str("Too many PIT requests"))))
                } else {
                    match self.snapshot.on_opened(id) {
                        Ok(()) => {
                            self.phase = Phase::Sleeping;
                            Action::Sleep
                        },
                        Err(e) => self.finish(Some(e)),
                    }
                }
            },
            (Phase::Sleeping, Event::Slept) => self.next_search(),
            (Phase::Fetching, Event::Hits(h)) => {
                let mut i: usize = 0;
                while i < h.len()
                    invariant
                        i <= h@.len(),
                        views(lines@) == sources(h@).take(i as int),
                    decreases h.len() - i,
                {
                    let ghost before = views(lines@);
                    lines.push(copy_string(&h[i].source));
                    assert(views(lines@) =~= before.push(h@[i as int].source@));
                    assert(sources(h@).take(i + 1) =~= sources(h@).take(i as int).push(
                        h@[i as int].source@,
                    ));
                    i = i + 1;
                }
                assert(sources(h@).take(i as int) =~= sources(h@));
                let stop = self.paginator.advance(&h);
                if stop {
                    self.finish(None)
                } else if self.paginator.polling {
                    match self.snapshot.close() {
                        Some(id) => {
                            self.phase = Phase::Refreshing;
                            Action::CloseSnapshot(id)
                        },
                        None => {
                            self.phase = Phase::Sleeping;
                            Action::Sleep
                        },
                    }
                } else {
                    self.next_search()
                }
            },
            _ => self.finish(Some(ESQError::ESError(String::from_str("Unexpected answer")))),
        };
        (lines, action)
    }
}

/// A finished run, whether it succeeded or failed, has issued exactly one close request for
/// each snapshot that it opened.
pub proof fn lemma_finished_run_released_snapshots(s: CatSession)
    requires
        s.wf(),
        s.phase is Done,
    ensures
        s.snapshot.opened() == s.snapshot.closed(),
        s.snapshot.id() is None,
{
}

} // verus!
