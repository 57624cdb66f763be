//! The extraction plan of each mode, and the probe that finds an anchored start.
use vstd::prelude::*;
use crate::builder::{
    compose, make_time_sort, now_minus, sort_view, time_sort, MatchClause, RangeClause,
    SearchQueryBuilder, SearchRequest, SortField,
};
use crate::dates::{day_long_offset, has_day_long_offset, parse_datetime};
use crate::error::ESQError;
use crate::params::{pairs, ParameterCombination, ValidationResult, WhereFilter};

verus! {

/// The largest number of documents requested in one batch.
pub const BATCH_SIZE: u32 = 1000;

/// How far behind "now" open-ended ranges stop, so that documents still being indexed
/// are not raced.
pub const LATENCY: &'static str = "1m";

/// One document returned by a search.
#[derive(Debug, Clone)]
pub struct Hit {
    /// The document body, as one line of JSON.
    pub source: String,
    /// Its sort key, as JSON text; the cursor for the next page.
    pub sort: Option<String>,
}

/// Where an anchored probe looks: up to `datetime` (or up to now) and how many hits back.
#[derive(Debug)]
pub struct SeekOriginParameters {
    pub datetime: Option<String>,
    pub size: u32,
}

/// The plan for one run of `cat`, fixed once the options are resolved.
pub struct ExtractionParameters {
    /// Whether the run reads through a snapshot.
    pub use_pit: bool,
    /// How many documents to emit; `None` for no limit.
    pub total_docs: Option<u32>,
    pub query_match: Option<MatchClause>,
    pub search_after: Option<String>,
    pub seek_origin: Option<SeekOriginParameters>,
    pub sort_order: Vec<SortField>,
    /// Whether the run keeps polling after each batch.
    pub sleep_between_batches: bool,
}

pub open spec fn opt_view(o: Option<String>) -> Option<Seq<char>> {
    match o {
        Some(s) => Some(s@),
        None => None,
    }
}

/// `m` is the match clause that the filters `f` combine into.
pub open spec fn match_for(f: Option<Seq<(Seq<char>, Seq<char>)>>, m: Option<MatchClause>) -> bool {
    match f {
        None => m is None,
        Some(f) => m matches Some(c) && c.filters() == f && (f.len() == 0 <==> c is MatchAll) && (
        f.len() == 1 <==> c is Match),
    }
}

pub open spec fn opt_pairs(f: Option<Vec<WhereFilter>>) -> Option<Seq<(Seq<char>, Seq<char>)>> {
    match f {
        Some(v) => Some(pairs(v@)),
        None => None,
    }
}

pub(crate) fn copy_string(s: &String) -> (r: String)
    ensures
        r@ == s@,
{
    s.clone()
}

pub(crate) fn copy_opt_string(o: &Option<String>) -> (r: Option<String>)
    ensures
        opt_view(r) == opt_view(*o),
{
    match o {
        Some(s) => Some(copy_string(s)),
        None => None,
    }
}

fn copy_filter(f: &WhereFilter) -> (r: WhereFilter)
    ensures
        r.pair() == f.pair(),
{
    WhereFilter { field: copy_string(&f.field), value: copy_string(&f.value) }
}

fn copy_filters(v: &Vec<WhereFilter>) -> (r: Vec<WhereFilter>)
    ensures
        pairs(r@) == pairs(v@),
{
    let mut out: Vec<WhereFilter> = Vec::new();
    let mut i: usize = 0;
    while i < v.len()
        invariant
            i <= v@.len(),
            pairs(out@) == pairs(v@).take(i as int),
        decreases v.len() - i,
    {
        let ghost before = pairs(out@);
        out.push(copy_filter(&v[i]));
        assert(pairs(out@) =~= before.push(v@[i as int].pair()));
        assert(pairs(v@).take(i + 1) =~= pairs(v@).take(i as int).push(v@[i as int].pair()));
        i = i + 1;
    }
    assert(pairs(v@).take(i as int) =~= pairs(v@));
    out
}

/// A copy of a match clause, of the same kind and with the same filters.
pub fn copy_match(m: &MatchClause) -> (r: MatchClause)
    ensures
        r.filters() == m.filters(),
        r is MatchAll <==> m is MatchAll,
        r is Match <==> m is Match,
{
    match m {
        MatchClause::MatchAll => MatchClause::MatchAll,
        MatchClause::Match(f) => MatchClause::Match(copy_filter(f)),
        MatchClause::Must(v) => MatchClause::Must(copy_filters(v)),
    }
}

/// The match clause of the filters: everything for none, a single match for one, and a
/// conjunction for more.
pub fn gen_query_match(filters: &Option<Vec<WhereFilter>>) -> (r: Option<MatchClause>)
    ensures
        match_for(opt_pairs(*filters), r),
{
    match filters {
        None => None,
        Some(v) => {
            if v.len() == 0 {
                assert(pairs(v@) =~= Seq::empty());
                Some(MatchClause::MatchAll)
            } else if v.len() == 1 {
                let f = copy_filter(&v[0]);
                assert(seq![f.pair()] =~= pairs(v@));
                Some(MatchClause::Match(f))
            } else {
                Some(MatchClause::Must(copy_filters(v)))
            }
        },
    }
}

/// Whether a mode reads through a snapshot.
pub open spec fn needs_snapshot(mode: ParameterCombination) -> bool {
    mode is Around || mode is To || mode is FromTo || mode is Follow
}

/// The document budget of a mode: unbounded for a full range and for following.
pub open spec fn budget_of(mode: ParameterCombination, lines: u32) -> Option<u32> {
    if mode is FromTo || mode is Follow {
        None
    } else {
        Some(lines)
    }
}

impl ExtractionParameters {
    /// The plan of the resolved mode.
    pub fn from_mode(
        validation: &ValidationResult,
        lines: &u32,
        around: &Option<String>,
        to: &Option<String>,
    ) -> (r: Result<Self, ESQError>)
        ensures
            r matches Ok(p) && {
                let mode = validation.mode;
                &&& p.use_pit == needs_snapshot(mode)
                &&& p.total_docs == budget_of(mode, *lines)
                &&& match_for(opt_pairs(validation.where_filters), p.query_match)
                &&& p.search_after is None
                &&& sort_view(p.sort_order@) == time_sort(true, true)
                &&& p.sleep_between_batches == (mode is Follow)
                &&& match mode {
                    ParameterCombination::Around => p.seek_origin matches Some(s) && opt_view(
                        s.datetime,
                    ) == opt_view(*around) && s.size == *lines / 2,
                    ParameterCombination::To => p.seek_origin matches Some(s) && opt_view(s.datetime)
                        == opt_view(*to) && s.size == *lines,
                    ParameterCombination::Follow | ParameterCombination::Latest => p.seek_origin matches Some(
                        s,
                    ) && s.datetime is None && s.size == *lines,
                    _ => p.seek_origin is None,
                }
            },
    {
        let lines = *lines;
        let mode = validation.mode;
        let use_pit = match mode {
            ParameterCombination::From | ParameterCombination::Latest => false,
            _ => true,
        };
        let total_docs = match mode {
            ParameterCombination::FromTo | ParameterCombination::Follow => None,
            _ => Some(lines),
        };
        let seek_origin = match mode {
            ParameterCombination::Around => Some(
                SeekOriginParameters { datetime: copy_opt_string(around), size: lines / 2 },
            ),
            ParameterCombination::To => Some(
                SeekOriginParameters { datetime: copy_opt_string(to), size: lines },
            ),
            ParameterCombination::Follow | ParameterCombination::Latest => Some(
                SeekOriginParameters { datetime: None, size: lines },
            ),
            _ => None,
        };
        let sleep_between_batches = match mode {
            ParameterCombination::Follow => true,
            _ => false,
        };
        Ok(ExtractionParameters {
            use_pit,
            total_docs,
            query_match: gen_query_match(&validation.where_filters),
            search_after: None,
            seek_origin,
            sort_order: make_time_sort(true, true),
            sleep_between_batches,
        })
    }

    /// Counts a batch of `hits_len` documents against the budget; true once the run is over.
    pub fn should_stop(&self, hits_len: usize, remaining_docs: &mut Option<u32>) -> (r: bool)
        ensures
            self.sleep_between_batches ==> !r && *final(remaining_docs) == *old(remaining_docs),
            !self.sleep_between_batches ==> match *old(remaining_docs) {
                None => !r && *final(remaining_docs) is None,
                Some(n) => {
                    let left = if hits_len as int >= n as int { 0 } else { n - hits_len };
                    &&& *final(remaining_docs) == Some(left as u32)
                    &&& r == (left == 0)
                },
            },
    {
        if self.sleep_between_batches {
            return false;
        }
        match *remaining_docs {
            None => false,
            Some(n) => {
                let left: u32 = if hits_len >= n as usize {
                    0
                } else {
                    n - hits_len as u32
                };
                *remaining_docs = Some(left);
                left == 0
            },
        }
    }

    /// Moves the cursor to the given sort key.
    pub fn update_search_after(&mut self, val: Option<&String>)
        ensures
            opt_view(final(self).search_after) == match val {
                Some(v) => Some(v@),
                None => None,
            },
            final(self).use_pit == old(self).use_pit,
            final(self).total_docs == old(self).total_docs,
            final(self).query_match == old(self).query_match,
            final(self).seek_origin == old(self).seek_origin,
            final(self).sort_order == old(self).sort_order,
            final(self).sleep_between_batches == old(self).sleep_between_batches,
    {
        self.search_after = match val {
            Some(v) => Some(copy_string(v)),
            None => None,
        };
    }
}

/// `n + 1`, or the largest `u32` where that does not fit.
pub open spec fn probe_size(n: u32) -> u32 {
    if n < u32::MAX {
        (n + 1) as u32
    } else {
        u32::MAX
    }
}

/// `q` is the probe of `params`, bounded above by `upper` (an RFC 3339 time) or, without it,
/// by now minus the latency.
pub open spec fn is_probe(params: ExtractionParameters, upper: Option<String>, q: SearchRequest) -> bool {
    params.seek_origin matches Some(s) && {
        &&& q.size == probe_size(s.size)
        &&& sort_view(q.sort@) == time_sort(false, true)
        &&& q.source matches Some(f) && f@.len() == 0
        &&& q.search_after is None
        &&& q.query matches Some(query) && exists|range: RangeClause, m: Option<MatchClause>|
            {
                &&& query == compose(Some(range), m)->0
                &&& range.gte is None
                &&& match upper {
                    Some(u) => range.lt == u,
                    None => range.lt@ == now_minus(LATENCY@),
                }
                &&& match (m, params.query_match) {
                    (Some(a), Some(b)) => a.filters() == b.filters() && (a is MatchAll
                        <==> b is MatchAll) && (a is Match <==> b is Match),
                    (None, None) => true,
                    _ => false,
                }
            }
    }
}

/// The probe of an anchored plan: newest first, up to `upper` (an RFC 3339 time) or, without
/// it, up to now minus the latency; one more hit than the plan seeks back, and no document
/// bodies. `None` where the plan has no anchor.
pub fn probe_request(params: &ExtractionParameters, upper: Option<String>) -> (r: Option<SearchRequest>)
    ensures
        params.seek_origin is None <==> r is None,
        r matches Some(q) ==> is_probe(*params, upper, q),
{
    let seek = match &params.seek_origin {
        Some(s) => s,
        None => return None,
    };
    let size = if seek.size < u32::MAX {
        seek.size + 1
    } else {
        u32::MAX
    };
    let query_match = match &params.query_match {
        Some(m) => Some(copy_match(m)),
        None => None,
    };
    let builder = SearchQueryBuilder::new().with_size(size).with_source_fields(
        Some(Vec::new()),
    ).with_pit(params.use_pit).with_query_match(query_match).with_sort_order(
        make_time_sort(false, true),
    ).with_parsed_time_range(None, upper, LATENCY);
    let ghost b = builder;
    let q = builder.build();
    assert(q.query == compose(b.query_range, b.query_match));
    Some(q)
}

/// The probe of an anchored plan, with its anchor time read: `Ok(None)` where the plan has
/// no anchor, a `DateParseError` where its anchor time cannot be read.
pub fn seek_request(params: &ExtractionParameters) -> (r: Result<Option<SearchRequest>, ESQError>)
    ensures
        params.seek_origin is None ==> r matches Ok(None),
        r matches Err(e) ==> (e is DateParseError && (params.seek_origin matches Some(s)
            && s.datetime is Some)),
        params.seek_origin matches Some(s) && s.datetime matches Some(d) && has_day_long_offset(d@)
            ==> r is Err,
        match r {
            Ok(Some(q)) => params.seek_origin matches Some(s) && match s.datetime {
                Some(_) => exists|u: String| is_probe(*params, Some(u), q),
                None => is_probe(*params, None, q),
            },
            Ok(None) => params.seek_origin is None,
            Err(_) => true,
        },
{
    let seek = match &params.seek_origin {
        Some(s) => s,
        None => return Ok(None),
    };
    let upper = match &seek.datetime {
        Some(dt) => {
            if day_long_offset(dt.as_str()) {
                return Err(
                    ESQError::DateParseError(String::from_str("Invalid anchor date: ").concat(dt.as_str())),
                );
            }
            match parse_datetime(dt.as_str()) {
                Some(d) => Some(d),
                None => {
                    return Err(
                        ESQError::DateParseError(
                            String::from_str("Invalid anchor date: ").concat(dt.as_str()),
                        ),
                    );
                },
            }
        },
        None => None,
    };
    Ok(probe_request(params, upper))
}

/// The cursor that a probe yields: the sort key of its last (earliest) hit, if any.
pub fn seek_origin(hits: &Vec<Hit>) -> (r: Option<String>)
    ensures
        hits@.len() == 0 ==> r is None,
        hits@.len() > 0 ==> opt_view(r) == opt_view(hits@.last().sort),
{
    if hits.len() == 0 {
        None
    } else {
        copy_opt_string(&hits[hits.len() - 1].sort)
    }
}

} // verus!
