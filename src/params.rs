//! Resolution of the `cat` options into a mode, a field selection and filters.
use vstd::prelude::*;
use crate::error::ESQError;
use crate::text::{split, split_str, trim, trim_str, views};

verus! {

/// The line count used when none is given.
pub const DEFAULT_NUMBER_OF_LINES: u32 = 10;

/// The largest line count accepted together with an anchor time.
pub const MAX_NUMBER_OF_LINES: u32 = 5000;

/// The options of the `cat` command.
pub struct CatArgs {
    /// Index name or alias to query.
    pub index: String,
    /// Show entries around this time.
    pub around: Option<String>,
    /// Number of lines to show.
    pub lines: u32,
    /// Start of the time range.
    pub from: Option<String>,
    /// End of the time range.
    pub to: Option<String>,
    /// Fields to show, comma-separated.
    pub select_clause: Option<String>,
    /// `field:value` filters, comma-separated.
    pub where_clause: Option<String>,
    /// Keep polling for new entries.
    pub follow: bool,
}

/// The retrieval mode that the time options select.
#[derive(Debug, Clone, Copy, PartialEq, Eq, Structural)]
pub enum ParameterCombination {
    Around,
    To,
    From,
    FromTo,
    Follow,
    Latest,
}

impl ParameterCombination {
    /// The name of the mode, as messages show it.
    pub fn name(&self) -> (r: String)
        ensures
            r@ == match self {
                ParameterCombination::Around => "around"@,
                ParameterCombination::To => "to"@,
                ParameterCombination::From => "from"@,
                ParameterCombination::FromTo => "from+to"@,
                ParameterCombination::Follow => "follow"@,
                ParameterCombination::Latest => "none"@,
            },
    {
        let n = match self {
            ParameterCombination::Around => "around",
            ParameterCombination::To => "to",
            ParameterCombination::From => "from",
            ParameterCombination::FromTo => "from+to",
            ParameterCombination::Follow => "follow",
            ParameterCombination::Latest => "none",
        };
        String::from_str(n)
    }
}

/// One equality filter: documents whose `field` matches `value`.
#[derive(Debug, Clone, PartialEq, Eq)]
pub struct WhereFilter {
    pub field: String,
    pub value: String,
}

/// The outcome of a successful resolution.
pub struct ValidationResult {
    pub mode: ParameterCombination,
    pub select_fields: Option<Vec<String>>,
    pub where_filters: Option<Vec<WhereFilter>>,
}

/// The mode that the options select, or `None` where they conflict.
pub open spec fn mode_of(around: bool, from: bool, to: bool, lines: u32, follow: bool) -> Option<
    ParameterCombination,
> {
    if around {
        if from || to || follow || lines > MAX_NUMBER_OF_LINES {
            None
        } else {
            Some(ParameterCombination::Around)
        }
    } else if to {
        if follow || lines > MAX_NUMBER_OF_LINES {
            None
        } else if from {
            if lines != DEFAULT_NUMBER_OF_LINES {
                None
            } else {
                Some(ParameterCombination::FromTo)
            }
        } else {
            Some(ParameterCombination::To)
        }
    } else if from {
        if follow {
            None
        } else {
            Some(ParameterCombination::From)
        }
    } else if follow {
        Some(ParameterCombination::Follow)
    } else {
        Some(ParameterCombination::Latest)
    }
}

pub open spec fn non_empty(p: Seq<char>) -> bool {
    p.len() > 0
}

/// The trimmed, non-empty field names of a selection spec, or `None` where it names none.
pub open spec fn select_of(s: Seq<char>) -> Option<Seq<Seq<char>>> {
    let fields = split(s, ',').map_values(|p: Seq<char>| trim(p)).filter(|p: Seq<char>| non_empty(p));
    if s.len() == 0 || fields.len() == 0 {
        None
    } else {
        Some(fields)
    }
}

/// A `field:value` pair, trimmed, or `None` where it is malformed.
pub open spec fn filter_of(p: Seq<char>) -> Option<(Seq<char>, Seq<char>)> {
    let parts = split(p, ':');
    if parts.len() == 2 && trim(parts[0]).len() > 0 && trim(parts[1]).len() > 0 {
        Some((trim(parts[0]), trim(parts[1])))
    } else {
        None
    }
}

/// The pair that a well-formed `field:value` piece stands for.
pub open spec fn pair_of(p: Seq<char>) -> (Seq<char>, Seq<char>) {
    match filter_of(p) {
        Some(f) => f,
        None => (Seq::<char>::empty(), Seq::<char>::empty()),
    }
}

/// The filters of a filter spec, or `None` where it is empty or any piece is malformed.
pub open spec fn where_of(s: Seq<char>) -> Option<Seq<(Seq<char>, Seq<char>)>> {
    let pieces = split(s, ',');
    if s.len() > 0 && forall|i: int| 0 <= i < pieces.len() ==> (#[trigger] filter_of(pieces[i])) is Some {
        Some(pieces.map_values(|p: Seq<char>| pair_of(p)))
    } else {
        None
    }
}

impl WhereFilter {
    pub open spec fn pair(self) -> (Seq<char>, Seq<char>) {
        (self.field@, self.value@)
    }
}

/// The pairs that a list of filters holds.
pub open spec fn pairs(v: Seq<WhereFilter>) -> Seq<(Seq<char>, Seq<char>)> {
    v.map_values(|f: WhereFilter| f.pair())
}

/// The field names of a selection spec.
pub fn parse_select_clause(select: &str) -> (r: Result<Vec<String>, ESQError>)
    ensures
        match r {
            Ok(v) => select_of(select@) == Some(views(v@)),
            Err(e) => select_of(select@) is None && e is ValidationError,
        },
{
    if select.unicode_len() == 0 {
        return Err(ESQError::ValidationError(String::from_str("Select clause cannot be empty")));
    }
    let pieces = split_str(select, ',');
    let ghost trimmed = split(select@, ',').map_values(|p: Seq<char>| trim(p));
    proof {
        reveal(Seq::filter);
        assert(trimmed.take(0).filter(|p: Seq<char>| non_empty(p)) =~= Seq::<Seq<char>>::empty());
    }
    let mut fields: Vec<String> = Vec::new();
    let mut i: usize = 0;
    while i < pieces.len()
        invariant
            i <= pieces@.len(),
            views(pieces@) == split(select@, ','),
            trimmed == split(select@, ',').map_values(|p: Seq<char>| trim(p)),
            trimmed.len() == pieces@.len(),
            views(fields@) == trimmed.take(i as int).filter(|p: Seq<char>| non_empty(p)),
        decreases pieces.len() - i,
    {
        assert(views(pieces@)[i as int] == pieces@[i as int]@);
        let t = trim_str(pieces[i].as_str());
        assert(t@ == trimmed[i as int]);
        assert(trimmed.take(i + 1).last() == t@);
        assert(trimmed.take(i + 1).drop_last() =~= trimmed.take(i as int));
        let ghost next = trimmed.take(i + 1);
        proof {
            reveal(Seq::filter);
        }
        if t.unicode_len() > 0 {
            let ghost before = views(fields@);
            fields.push(t);
            assert(views(fields@) =~= before.push(t@));
            assert(next.filter(|p: Seq<char>| non_empty(p)) == next.drop_last().filter(
                |p: Seq<char>| non_empty(p),
            ).push(next.last()));
        } else {
            assert(next.filter(|p: Seq<char>| non_empty(p)) == next.drop_last().filter(
                |p: Seq<char>| non_empty(p),
            ));
        }
        i = i + 1;
    }
    assert(trimmed.take(i as int) =~= trimmed);
    if fields.len() == 0 {
        return Err(
            ESQError::ValidationError(String::from_str("Select clause must contain at least one field")),
        );
    }
    Ok(fields)
}

/// The field and value of one `field:value` piece.
fn parse_filter(pair: &str) -> (r: Option<WhereFilter>)
    ensures
        match r {
            Some(f) => filter_of(pair@) == Some(f.pair()),
            None => filter_of(pair@) is None,
        },
{
    let parts = split_str(pair, ':');
    if parts.len() != 2 {
        return None;
    }
    assert(views(parts@)[0] == parts@[0]@);
    assert(views(parts@)[1] == parts@[1]@);
    let field = trim_str(parts[0].as_str());
    let value = trim_str(parts[1].as_str());
    if field.unicode_len() == 0 || value.unicode_len() == 0 {
        return None;
    }
    Some(WhereFilter { field, value })
}

/// The filters of a `field:value,...` spec; malformed pieces fail the whole spec.
pub fn parse_where_clause(where_str: &str) -> (r: Result<Vec<WhereFilter>, ESQError>)
    ensures
        match r {
            Ok(v) => where_of(where_str@) == Some(pairs(v@)),
            Err(e) => where_of(where_str@) is None && e is ValidationError,
        },
{
    if where_str.unicode_len() == 0 {
        return Err(ESQError::ValidationError(String::from_str("Where clause cannot be empty")));
    }
    let pieces = split_str(where_str, ',');
    let ghost ps = split(where_str@, ',');
    let mut filters: Vec<WhereFilter> = Vec::new();
    let mut i: usize = 0;
    while i < pieces.len()
        invariant
            i <= pieces@.len(),
            ps == split(where_str@, ','),
            views(pieces@) == ps,
            forall|j: int| 0 <= j < i ==> (#[trigger] filter_of(ps[j])) is Some,
            pairs(filters@) == ps.take(i as int).map_values(|p: Seq<char>| pair_of(p)),
        decreases pieces.len() - i,
    {
        assert(views(pieces@)[i as int] == pieces@[i as int]@);
        match parse_filter(pieces[i].as_str()) {
            Some(f) => {
                let ghost before = pairs(filters@);
                filters.push(f);
                assert(pairs(filters@) =~= before.push(f.pair()));
                assert(ps.take(i + 1).map_values(|p: Seq<char>| pair_of(p)) =~= ps.take(
                    i as int,
                ).map_values(|p: Seq<char>| pair_of(p)).push(pair_of(ps[i as int])));
            },
            None => {
                let msg = String::from_str("Invalid where clause format. Expected 'field:value', got '")
                    .concat(pieces[i].as_str()).concat("'");
                return Err(ESQError::ValidationError(msg));
            },
        }
        i = i + 1;
    }
    assert(ps.take(i as int) =~= ps);
    Ok(filters)
}

/// The options resolved into a mode, a selection and filters, or the first violation.
pub open spec fn validation_ok(
    around: Option<String>,
    from: Option<String>,
    to: Option<String>,
    lines: u32,
    follow: bool,
    select_clause: Option<String>,
    where_clause: Option<String>,
) -> bool {
    &&& (select_clause matches Some(s) ==> select_of(s@) is Some)
    &&& (where_clause matches Some(w) ==> where_of(w@) is Some)
    &&& mode_of(around is Some, from is Some, to is Some, lines, follow) is Some
}

/// Checks the options of `cat` against each other and parses the selection and filters.
pub fn validate_parameters(
    around: &Option<String>,
    from: &Option<String>,
    to: &Option<String>,
    lines: &u32,
    follow: bool,
    select_clause: &Option<String>,
    where_clause: &Option<String>,
) -> (r: Result<ValidationResult, ESQError>)
    ensures
        r is Ok <==> validation_ok(*around, *from, *to, *lines, follow, *select_clause, *where_clause),
        r matches Err(e) ==> e is ValidationError,
        r matches Ok(v) ==> {
            &&& Some(v.mode) == mode_of(around is Some, from is Some, to is Some, *lines, follow)
            &&& match *select_clause {
                Some(s) => v.select_fields matches Some(f) && select_of(s@) == Some(views(f@)),
                None => v.select_fields is None,
            }
            &&& match *where_clause {
                Some(w) => v.where_filters matches Some(f) && where_of(w@) == Some(pairs(f@)),
                None => v.where_filters is None,
            }
        },
{
    let select_fields = match select_clause {
        Some(select) => match parse_select_clause(select.as_str()) {
            Ok(fields) => Some(fields),
            Err(e) => return Err(e),
        },
        None => None,
    };
    let where_filters = match where_clause {
        Some(w) => match parse_where_clause(w.as_str()) {
            Ok(filters) => Some(filters),
            Err(e) => return Err(e),
        },
        None => None,
    };
    let lines = *lines;
    let mode = if around.is_some() {
        if from.is_some() || to.is_some() {
            return Err(
                ESQError::ValidationError(
                    String::from_str(
                        "The parameters --to and --from cannot be used at the same time as --around.",
                    ),
                ),
            );
        }
        if follow {
            return Err(
                ESQError::ValidationError(
                    String::from_str("The parameter --follow cannot be used at the same time as --around."),
                ),
            );
        }
        if lines > MAX_NUMBER_OF_LINES {
            return Err(
                ESQError::ValidationError(
                    String::from_str(
                        "In combination with --around, the -n parameter has a maximum value of 5000.",
                    ),
                ),
            );
        }
        ParameterCombination::Around
    } else if to.is_some() {
        if follow {
            return Err(
                ESQError::ValidationError(
                    String::from_str("The parameter --follow cannot be used at the same time as --to."),
                ),
            );
        }
        if lines > MAX_NUMBER_OF_LINES {
            return Err(
                ESQError::ValidationError(
                    String::from_str(
                        "In combination with --to, the -n parameter has a maximum value of 5000.",
                    ),
                ),
            );
        }
        if from.is_some() {
            if lines != DEFAULT_NUMBER_OF_LINES {
                return Err(
                    ESQError::ValidationError(
                        String::from_str(
                            "You cannot use -n in combination with a full time range (--from and --to).",
                        ),
                    ),
                );
            }
            ParameterCombination::FromTo
        } else {
            ParameterCombination::To
        }
    } else if from.is_some() {
        if follow {
            return Err(
                ESQError::ValidationError(
                    String::from_str("The parameter --follow cannot be used at the same time as --from."),
                ),
            );
        }
        ParameterCombination::From
    } else if follow {
        ParameterCombination::Follow
    } else {
        ParameterCombination::Latest
    };
    Ok(ValidationResult { mode, select_fields, where_filters })
}

/// Following excludes an anchor time and either end of a range: any such combination is
/// rejected, whatever the other options hold.
pub proof fn lemma_follow_excludes_times(
    around: Option<String>,
    from: Option<String>,
    to: Option<String>,
    lines: u32,
    select_clause: Option<String>,
    where_clause: Option<String>,
)
    requires
        around is Some || from is Some || to is Some,
    ensures
        !validation_ok(around, from, to, lines, true, select_clause, where_clause),
{
}

/// With an anchor time, or with only the end of a range, the line count is accepted exactly
/// up to the maximum.
pub proof fn lemma_anchored_line_limit(lines: u32)
    ensures
        mode_of(true, false, false, lines, false) == if lines <= MAX_NUMBER_OF_LINES {
            Some(ParameterCombination::Around)
        } else {
            None::<ParameterCombination>
        },
        mode_of(false, false, true, lines, false) == if lines <= MAX_NUMBER_OF_LINES {
            Some(ParameterCombination::To)
        } else {
            None::<ParameterCombination>
        },
{
}

/// With both ends of a range, only the default line count is accepted, and the mode is
/// the full range.
pub proof fn lemma_full_range_default_lines(around: bool, lines: u32, follow: bool)
    ensures
        mode_of(around, true, true, lines, follow) is Some ==> lines == DEFAULT_NUMBER_OF_LINES,
        mode_of(false, true, true, DEFAULT_NUMBER_OF_LINES, false) == Some(
            ParameterCombination::FromTo,
        ),
{
}

} // verus!
