//! `GET /chart/<chart_id>/file`: the bytes of a chart's file.

use vstd::prelude::*;

use crate::storage::StorageError;

verus! {

/// The answers of `GET /chart/<chart_id>/file`.
pub enum GetChartFileResponse {
    InternalError,
    NotFound,
    Success(Vec<u8>),
}

/// After the lookup of the chart's file id: retrieve that file, or answer with
/// an internal error when the chart could not be read.
pub fn chart_file_to_retrieve(lookup: Result<String, ()>) -> (r: Result<String, GetChartFileResponse>)
    ensures
        match lookup {
            Ok(file_id) => r == Ok::<String, GetChartFileResponse>(file_id),
            Err(_) => r matches Err(GetChartFileResponse::InternalError),
        },
{
    match lookup {
        Ok(file_id) => Ok(file_id),
        Err(_) => Err(GetChartFileResponse::InternalError),
    }
}

/// Answers from the retrieval of the file: its bytes, not found when the store
/// has no such file, an internal error when the store failed.
pub fn chart_file_response(retrieved: Result<Option<Vec<u8>>, StorageError>) -> (r: GetChartFileResponse)
    ensures
        match retrieved {
            Ok(Some(data)) => r == GetChartFileResponse::Success(data),
            Ok(None) => r is NotFound,
            Err(_) => r is InternalError,
        },
{
    match retrieved {
        Err(_) => GetChartFileResponse::InternalError,
        Ok(None) => GetChartFileResponse::NotFound,
        Ok(Some(data)) => GetChartFileResponse::Success(data),
    }
}

} // verus!
