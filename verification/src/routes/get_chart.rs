//! `GET /chart/<chart_id>`: one chart with its chart set's title and artist.

use vstd::prelude::*;

verus! {

/// A chart as the API shows it. `M` is the chart's metadata, which the server
/// passes through unread.
pub struct ChartObject<M> {
    pub song_title: String,
    pub song_artist: String,
    pub chart_id: i32,
    pub chart_set_id: i32,
    pub designator: String,
    pub metadata: M,
}

/// The answers of `GET /chart/<chart_id>`.
pub enum GetChartResponse<M> {
    InternalError,
    NotFound,
    Success(ChartObject<M>),
}

/// Answers from the database lookup of the chart: the chart when it was found;
/// a failed query and a missing chart are both answered as an internal error.
pub fn get_chart_response<M>(lookup: Result<Option<ChartObject<M>>, ()>) -> (r: GetChartResponse<M>)
    ensures
        match lookup {
            Ok(Some(chart)) => r == GetChartResponse::Success(chart),
            _ => r is InternalError,
        },
{
    match lookup {
        Ok(Some(chart)) => GetChartResponse::Success(chart),
        _ => GetChartResponse::InternalError,
    }
}

} // verus!
