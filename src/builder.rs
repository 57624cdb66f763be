//! The search request and the chainable builder that assembles it.
use vstd::prelude::*;
use crate::dates::{day_long_offset, has_day_long_offset, parse_datetime};
use crate::error::ESQError;
use crate::params::{pairs, WhereFilter};

verus! {

/// The time field that every query sorts and ranges on.
pub const TIMESTAMP_FIELD: &'static str = "@timestamp";

/// The per-shard sequence field that breaks ties between equal times.
pub const TIEBREAK_FIELD: &'static str = "_shard_doc";

/// The batch size of a fresh builder.
pub const DEFAULT_SIZE: u32 = 1000;

/// One sort key: a field and its direction.
#[derive(Debug, Clone, PartialEq, Eq)]
pub struct SortField {
    pub field: String,
    pub ascending: bool,
}

impl SortField {
    pub open spec fn view(self) -> (Seq<char>, bool) {
        (self.field@, self.ascending)
    }
}

/// The fields and directions of a sort order.
pub open spec fn sort_view(v: Seq<SortField>) -> Seq<(Seq<char>, bool)> {
    v.map_values(|f: SortField| f.view())
}

/// Time first, in the given direction; with `tiebreak`, then the shard sequence, ascending.
pub open spec fn time_sort(ascending: bool, tiebreak: bool) -> Seq<(Seq<char>, bool)> {
    if tiebreak {
        seq![(TIMESTAMP_FIELD@, ascending), (TIEBREAK_FIELD@, true)]
    } else {
        seq![(TIMESTAMP_FIELD@, ascending)]
    }
}

/// The sort order that `time_sort` describes.
pub fn make_time_sort(ascending: bool, tiebreak: bool) -> (r: Vec<SortField>)
    ensures
        sort_view(r@) == time_sort(ascending, tiebreak),
{
    let mut v: Vec<SortField> = Vec::new();
    v.push(SortField { field: String::from_str(TIMESTAMP_FIELD), ascending });
    if tiebreak {
        v.push(SortField { field: String::from_str(TIEBREAK_FIELD), ascending: true });
    }
    assert(sort_view(v@) =~= time_sort(ascending, tiebreak));
    v
}

/// A half-open time range `[gte, lt)` on the timestamp field.
#[derive(Debug, Clone, PartialEq, Eq)]
pub struct RangeClause {
    pub gte: Option<String>,
    pub lt: String,
}

/// Equality filters on document fields.
#[derive(Debug, Clone, PartialEq, Eq)]
pub enum MatchClause {
    /// Every document.
    MatchAll,
    /// Documents whose field matches the value.
    Match(WhereFilter),
    /// Documents that match every filter.
    Must(Vec<WhereFilter>),
}

impl MatchClause {
    /// The filters that the clause requires, in order.
    pub open spec fn filters(self) -> Seq<(Seq<char>, Seq<char>)> {
        match self {
            MatchClause::MatchAll => Seq::empty(),
            MatchClause::Match(f) => seq![f.pair()],
            MatchClause::Must(v) => pairs(v@),
        }
    }
}

/// The filter part of a request.
#[derive(Debug, Clone, PartialEq, Eq)]
pub enum Query {
    Range(RangeClause),
    Match(MatchClause),
    /// Both clauses must hold.
    Both(RangeClause, MatchClause),
}

/// One search request, as it is sent.
#[derive(Debug, Clone, PartialEq, Eq)]
pub struct SearchRequest {
    pub sort: Vec<SortField>,
    pub size: u32,
    /// `None`: the whole document; an empty list: no document body; else these fields.
    pub source: Option<Vec<String>>,
    /// The sort key of the last hit already seen, as JSON text.
    pub search_after: Option<String>,
    /// `None`: every document.
    pub query: Option<Query>,
}

/// The query that a range and a match clause compose into.
pub open spec fn compose(range: Option<RangeClause>, query_match: Option<MatchClause>) -> Option<
    Query,
> {
    match (range, query_match) {
        (Some(r), Some(m)) => Some(Query::Both(r, m)),
        (Some(r), None) => Some(Query::Range(r)),
        (None, Some(m)) => Some(Query::Match(m)),
        (None, None) => None,
    }
}

/// The upper bound "now minus `latency`", in the service's date-math syntax.
pub open spec fn now_minus(latency: Seq<char>) -> Seq<char> {
    "now-"@ + latency
}

/// Assembles a `SearchRequest` one option at a time.
#[derive(Debug, Clone, PartialEq, Eq)]
pub struct SearchQueryBuilder {
    pub sort_order: Vec<SortField>,
    pub size: u32,
    pub source_fields: Option<Vec<String>>,
    pub search_after: Option<String>,
    pub query_range: Option<RangeClause>,
    pub query_match: Option<MatchClause>,
    pub use_pit: bool,
}

impl SearchQueryBuilder {
    /// A builder sorted by ascending time, with the default size and nothing else set.
    pub fn new() -> (r: Self)
        ensures
            sort_view(r.sort_order@) == time_sort(true, false),
            r.size == DEFAULT_SIZE,
            r.source_fields is None,
            r.search_after is None,
            r.query_range is None,
            r.query_match is None,
            !r.use_pit,
    {
        SearchQueryBuilder {
            sort_order: make_time_sort(true, false),
            size: DEFAULT_SIZE,
            source_fields: None,
            search_after: None,
            query_range: None,
            query_match: None,
            use_pit: false,
        }
    }

    pub fn with_sort_order(self, sort_order: Vec<SortField>) -> (r: Self)
        ensures
            r == (SearchQueryBuilder { sort_order, ..self }),
    {
        SearchQueryBuilder { sort_order, ..self }
    }

    pub fn with_size(self, size: u32) -> (r: Self)
        ensures
            r == (SearchQueryBuilder { size, ..self }),
    {
        SearchQueryBuilder { size, ..self }
    }

    pub fn with_source_fields(self, fields: Option<Vec<String>>) -> (r: Self)
        ensures
            r == (SearchQueryBuilder { source_fields: fields, ..self }),
    {
        SearchQueryBuilder { source_fields: fields, ..self }
    }

    pub fn with_search_after(self, search_after: String) -> (r: Self)
        ensures
            r == (SearchQueryBuilder { search_after: Some(search_after), ..self }),
    {
        SearchQueryBuilder { search_after: Some(search_after), ..self }
    }

    pub fn with_query_match(self, query_match: Option<MatchClause>) -> (r: Self)
        ensures
            r == (SearchQueryBuilder { query_match, ..self }),
    {
        SearchQueryBuilder { query_match, ..self }
    }

    /// Sets the time range from bounds already in RFC 3339 form; without `to`, the range
    /// ends at "now minus `latency`".
    pub fn with_parsed_time_range(self, from: Option<String>, to: Option<String>, latency: &str) -> (r: Self)
        ensures
            r.query_range matches Some(range) && range.gte == from && match to {
                Some(t) => range.lt == t,
                None => range.lt@ == now_minus(latency@),
            },
            r == (SearchQueryBuilder { query_range: r.query_range, ..self }),
    {
        let lt = match to {
            Some(t) => t,
            None => String::from_str("now-").concat(latency),
        };
        SearchQueryBuilder { query_range: Some(RangeClause { gte: from, lt }), ..self }
    }

    /// Sets the time range from human-written dates; fails where one of them cannot be read.
    pub fn with_time_range(self, from: Option<&str>, to: Option<&str>, latency: &str) -> (r: Result<
        Self,
        ESQError,
    >)
        ensures
            from is None && to is None ==> r is Ok,
            from matches Some(f) && has_day_long_offset(f@) ==> r is Err,
            to matches Some(t) && has_day_long_offset(t@) ==> r is Err,
            match r {
                Ok(b) => {
                    &&& b.query_range matches Some(range) && (range.gte is Some <==> from is Some)
                        && (to is None ==> range.lt@ == now_minus(latency@))
                    &&& b == (SearchQueryBuilder { query_range: b.query_range, ..self })
                },
                Err(e) => e is DateParseError && (from is Some || to is Some),
            },
    {
        let from_parsed = match from {
            Some(f) => if day_long_offset(f) {
                return Err(ESQError::DateParseError(String::from_str("Invalid from date: ").concat(f)));
            } else {
                match parse_datetime(f) {
                    Some(d) => Some(d),
                    None => {
                        return Err(
                            ESQError::DateParseError(String::from_str("Invalid from date: ").concat(f)),
                        );
                    },
                }
            },
            None => None,
        };
        let to_parsed = match to {
            Some(t) => if day_long_offset(t) {
                return Err(ESQError::DateParseError(String::from_str("Invalid to date: ").concat(t)));
            } else {
                match parse_datetime(t) {
                    Some(d) => Some(d),
                    None => {
                        return Err(
                            ESQError::DateParseError(String::from_str("Invalid to date: ").concat(t)),
                        );
                    },
                }
            },
            None => None,
        };
        Ok(self.with_parsed_time_range(from_parsed, to_parsed, latency))
    }

    /// Records whether a snapshot is used; with one, the sort gains the tiebreak field.
    pub fn with_pit(self, use_pit: bool) -> (r: Self)
        ensures
            r.use_pit == use_pit,
            use_pit ==> sort_view(r.sort_order@) == time_sort(true, true),
            !use_pit ==> r.sort_order == self.sort_order,
            r == (SearchQueryBuilder { use_pit, sort_order: r.sort_order, ..self }),
    {
        if use_pit {
            SearchQueryBuilder { use_pit, sort_order: make_time_sort(true, true), ..self }
        } else {
            SearchQueryBuilder { use_pit, ..self }
        }
    }

    /// The request: the range and match clauses are combined with AND where both are set.
    pub fn build(self) -> (r: SearchRequest)
        ensures
            r.sort == self.sort_order,
            r.size == self.size,
            r.source == self.source_fields,
            r.search_after == self.search_after,
            r.query == compose(self.query_range, self.query_match),
    {
        let query = match (self.query_range, self.query_match) {
            (Some(range), Some(m)) => Some(Query::Both(range, m)),
            (Some(range), None) => Some(Query::Range(range)),
            (None, Some(m)) => Some(Query::Match(m)),
            (None, None) => None,
        };
        SearchRequest {
            sort: self.sort_order,
            size: self.size,
            source: self.source_fields,
            search_after: self.search_after,
            query,
        }
    }
}

/// A request whose only filter is a range open at the top, set from a lower bound already
/// read as RFC 3339, carries that range alone: from that bound up to "now minus the latency".
pub proof fn lemma_open_range_round_trip(range: RangeClause, from: String, latency: Seq<char>)
    requires
        range.gte == Some(from),
        range.lt@ == now_minus(latency),
    ensures
        compose(Some(range), None) matches Some(Query::Range(r)) && r.gte == Some(from) && r.lt@
            == "now-"@ + latency,
{
}

/// With a latency of one minute the upper bound reads `now-1m`.
pub proof fn lemma_one_minute_bound()
    ensures
        now_minus("1m"@) == "now-1m"@,
{
    reveal_strlit("now-");
    reveal_strlit("1m");
    reveal_strlit("now-1m");
    assert(now_minus("1m"@) =~= "now-1m"@);
}

} // verus!
