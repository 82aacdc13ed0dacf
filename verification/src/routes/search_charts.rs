//! `GET /search-charts`: the query that lists charts, filtered, paged and sorted
//! as the search parameters ask, and the count that comes back with it.

use vstd::prelude::*;

verus! {

#[derive(Debug, PartialEq, Eq, Structural, Clone, Copy)]
pub enum SortDirection {
    Ascending,
    Descending,
}

/// The order of the search results.
pub enum SortOrder {
    TitleAlphabetical,
    /// By the value of the named metadata tag.
    ByMetaTag(SortDirection, String),
}

impl Default for SortOrder {
    fn default() -> (r: Self)
        ensures
            r is TitleAlphabetical,
    {
        SortOrder::TitleAlphabetical
    }
}

/// The `ORDER BY` clause for the requested order: none when no order is
/// requested, by title, or by the value of the metadata tag bound to `$4`.
pub open spec fn sort_condition_spec(sort: Option<SortOrder>) -> Seq<char> {
    match sort {
        None => ""@,
        Some(SortOrder::TitleAlphabetical) => "ORDER BY title"@,
        Some(SortOrder::ByMetaTag(SortDirection::Ascending, _)) => "ORDER BY metadata->$4 ASC"@,
        Some(SortOrder::ByMetaTag(SortDirection::Descending, _)) => "ORDER BY metadata->$4 DESC"@,
    }
}

/// The `ORDER BY` clause for the requested order.
pub fn sort_condition(sort: &Option<SortOrder>) -> (r: &'static str)
    ensures
        r@ == sort_condition_spec(*sort),
{
    match sort {
        None => "",
        Some(SortOrder::TitleAlphabetical) => "ORDER BY title",
        Some(SortOrder::ByMetaTag(direction, _)) => match direction {
            SortDirection::Ascending => "ORDER BY metadata->$4 ASC",
            SortDirection::Descending => "ORDER BY metadata->$4 DESC",
        },
    }
}

/// The text of the search query before the sort clause, which comes before
/// the paging. Its parameters: `$1`
/// the metadata that results must contain, `$2` the offset, `$3` the limit,
/// `$4` the metadata tag to sort by, `$5` the designator to match.
pub open spec fn search_query_head() -> Seq<char> {
    "SELECT title, artist, chart_id, charts.chart_set_id, designator, metadata,\n            COUNT(*) OVER() AS full_count         \n        FROM charts\n        JOIN chart_sets ON charts.chart_set_id = chart_sets.chart_set_id\n        WHERE \n            $1 <@ metadata AND\n            CASE\n                WHEN $5 IS NOT NULL THEN designator = $5\n                ELSE TRUE\n            END\n        "@
}

/// The text of the search query after the sort clause: the paging.
pub open spec fn search_query_tail() -> Seq<char> {
    "\n        OFFSET $2\n        LIMIT $3\n    "@
}

/// The search query with the given sort clause.
pub fn search_query(sort_condition: &str) -> (r: String)
    ensures
        r@ == search_query_head() + sort_condition@ + search_query_tail(),
{
    let mut query = String::new();
    query.append("SELECT title, artist, chart_id, charts.chart_set_id, designator, metadata,\n            COUNT(*) OVER() AS full_count         \n        FROM charts\n        JOIN chart_sets ON charts.chart_set_id = chart_sets.chart_set_id\n        WHERE \n            $1 <@ metadata AND\n            CASE\n                WHEN $5 IS NOT NULL THEN designator = $5\n                ELSE TRUE\n            END\n        ");
    query.append(sort_condition);
    query.append("\n        OFFSET $2\n        LIMIT $3\n    ");
    query
}

/// The number of results per page when the request gives none.
pub const DEFAULT_PAGE_SIZE: i32 = 50;

/// The statement to run for a search and the values to bind to it (the
/// metadata filter, `$1`, is bound by the server).
pub struct SearchPlan {
    pub query: String,
    pub offset: Option<i32>,
    pub limit: i32,
    pub sort_tag: Option<String>,
    pub designator: Option<String>,
}

/// Plans a search: the query for the requested order, the requested offset,
/// the requested count or fifty, the metadata tag when sorting by one, and the
/// requested designator.
pub fn plan_search(
    sort: Option<SortOrder>,
    count: Option<i32>,
    offset: Option<i32>,
    designator: Option<String>,
) -> (r: SearchPlan)
    ensures
        r.query@ == search_query_head() + sort_condition_spec(sort) + search_query_tail(),
        r.offset == offset,
        r.limit == match count {
            Some(c) => c,
            None => DEFAULT_PAGE_SIZE,
        },
        r.sort_tag == match sort {
            Some(SortOrder::ByMetaTag(_, tag)) => Some(tag),
            _ => None::<String>,
        },
        r.designator == designator,
{
    let condition = sort_condition(&sort);
    let query = search_query(condition);
    let limit = match count {
        Some(c) => c,
        None => DEFAULT_PAGE_SIZE,
    };
    let sort_tag = match sort {
        Some(SortOrder::ByMetaTag(_, tag)) => Some(tag),
        _ => None,
    };
    SearchPlan { query, offset, limit, sort_tag, designator }
}

/// The total number of matches that the response reports: the `full_count` of
/// the last row returned, or zero when no row was.
pub fn result_count(full_counts: &Vec<i64>) -> (r: i64)
    ensures
        r == if full_counts@.len() == 0 {
            0
        } else {
            full_counts@.last()
        },
{
    let mut count: i64 = 0;
    let mut i: usize = 0;
    while i < full_counts.len()
        invariant
            i <= full_counts@.len(),
            count == if i == 0 {
                0
            } else {
                full_counts@[i - 1]
            },
        decreases full_counts@.len() - i,
    {
        count = full_counts[i];
        i = i + 1;
    }
    count
}

/// Sorting by a metadata tag orders by the value bound to `$4`, ascending or
/// descending as asked, whatever the tag is called: the clause depends on the
/// direction alone.
pub proof fn law_tag_order_depends_on_direction_only(direction: SortDirection, tag: String, other: String)
    ensures
        sort_condition_spec(Some(SortOrder::ByMetaTag(direction, tag))) == sort_condition_spec(
            Some(SortOrder::ByMetaTag(direction, other)),
        ),
        sort_condition_spec(Some(SortOrder::ByMetaTag(direction, tag))) == (match direction {
            SortDirection::Ascending => "ORDER BY metadata->$4 ASC"@,
            SortDirection::Descending => "ORDER BY metadata->$4 DESC"@,
        }),
{
}

/// The ascending and descending orders by a tag are different clauses.
pub proof fn law_tag_directions_differ(tag: String)
    ensures
        sort_condition_spec(Some(SortOrder::ByMetaTag(SortDirection::Ascending, tag)))
            != sort_condition_spec(Some(SortOrder::ByMetaTag(SortDirection::Descending, tag))),
{
    reveal_strlit("ORDER BY metadata->$4 ASC");
    reveal_strlit("ORDER BY metadata->$4 DESC");
    assert("ORDER BY metadata->$4 ASC"@.len() != "ORDER BY metadata->$4 DESC"@.len());
}

} // verus!
