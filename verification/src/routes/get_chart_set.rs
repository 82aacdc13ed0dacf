//! `GET /chart-set/<set_id>`: a chart set's title and artist.

use vstd::prelude::*;

verus! {

/// A chart set as the API shows it.
pub struct ChartSet {
    pub chart_set_id: i32,
    pub title: String,
    pub artist: String,
}

/// The answers of `GET /chart-set/<set_id>`.
pub enum GetChartSetResponse {
    InternalError,
    NotFound,
    Success(ChartSet),
}

/// Answers from the database lookup of the chart set (`Ok(None)` when no row
/// has that id): the set when it was found, not found when there is no such
/// set, an internal error when the query failed.
pub fn get_chart_set_response(lookup: Result<Option<ChartSet>, ()>) -> (r: GetChartSetResponse)
    ensures
        match lookup {
            Ok(Some(set)) => r == GetChartSetResponse::Success(set),
            Ok(None) => r is NotFound,
            Err(_) => r is InternalError,
        },
{
    match lookup {
        Ok(Some(set)) => GetChartSetResponse::Success(set),
        Ok(None) => GetChartSetResponse::NotFound,
        Err(_) => GetChartSetResponse::InternalError,
    }
}

} // verus!
