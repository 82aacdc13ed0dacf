//! `POST /chart-set/<chart_set_id>/file/<label>`: stores an auxiliary file of a
//! chart set under a label and points at it.

use vstd::prelude::*;

use crate::decimal::{i32_to_decimal, signed_decimal};
use crate::routes::database::DbFailure;
use crate::storage::StorageError;

verus! {

/// The text that a path segment becomes in a URI, percent-encoded as Rocket
/// encodes a `&str` route parameter.
pub uninterp spec fn uri_path_segment(raw: Seq<char>) -> Seq<char>;

/// Percent-encodes a path segment.
/// Trusted: Rocket's `RawStr::percent_encode` (the encoding that `uri!` applies
/// to a `&str` parameter); its result, a function of `raw` alone, is named
/// `uri_path_segment` and not spelled out.
#[verifier::external_body]
fn encode_path_segment(raw: &str) -> (r: String)
    ensures
        r@ == uri_path_segment(raw@),
{
    rocket::http::RawStr::new(raw).percent_encode().as_str().to_string()
}

/// The path of an auxiliary file, as
/// `uri!(get_chart_set_aux_file(chart_set_id = .., label = ..))` writes it.
pub open spec fn aux_file_location_spec(chart_set_id: i32, label: Seq<char>) -> Seq<char> {
    "/chart-set/"@ + signed_decimal(chart_set_id as int) + "/file/"@ + uri_path_segment(label)
}

/// The path of an auxiliary file.
pub fn aux_file_location(chart_set_id: i32, label: &str) -> (r: String)
    ensures
        r@ == aux_file_location_spec(chart_set_id, label@),
{
    let mut uri = String::new();
    uri.append("/chart-set/");
    let id = i32_to_decimal(chart_set_id);
    uri.append(id.as_str());
    uri.append("/file/");
    let segment = encode_path_segment(label);
    uri.append(segment.as_str());
    uri
}

/// The file name recorded for an upload: its name (empty when it has none),
/// followed by a dot and the extension of its content type when that has one.
pub open spec fn aux_file_name_spec(name: Option<Seq<char>>, extension: Option<Seq<char>>) -> Seq<char> {
    let base = match name {
        Some(n) => n,
        None => Seq::<char>::empty(),
    };
    match extension {
        Some(ext) => base + "."@ + ext,
        None => base,
    }
}

/// The file name recorded for an upload.
pub fn aux_file_name(name: Option<&str>, extension: Option<&str>) -> (r: String)
    ensures
        r@ == aux_file_name_spec(
            match name {
                Some(n) => Some(n@),
                None => None,
            },
            match extension {
                Some(e) => Some(e@),
                None => None,
            },
        ),
{
    let mut file_name = String::new();
    match name {
        Some(n) => file_name.append(n),
        None => {},
    }
    match extension {
        Some(ext) => {
            file_name.append(".");
            file_name.append(ext);
        },
        None => {},
    }
    file_name
}

/// The answers of `POST /chart-set/<chart_set_id>/file/<label>`.
pub enum CreateChartSetAuxFileResponse {
    InternalError,
    NotFound,
    /// Created, with the `Location` of the new file.
    Created(String),
}

/// After reading the uploaded file: store its bytes, or answer with an
/// internal error when it could not be read.
pub fn upload_to_store(read: Result<Vec<u8>, ()>) -> (r: Result<Vec<u8>, CreateChartSetAuxFileResponse>)
    ensures
        match read {
            Ok(data) => r == Ok::<Vec<u8>, CreateChartSetAuxFileResponse>(data),
            Err(_) => r matches Err(CreateChartSetAuxFileResponse::InternalError),
        },
{
    match read {
        Ok(data) => Ok(data),
        Err(_) => Err(CreateChartSetAuxFileResponse::InternalError),
    }
}

/// The row that records an auxiliary file.
pub struct NewAuxFileRow {
    pub chart_set_id: i32,
    pub label: String,
    pub filename: String,
    pub file_id: String,
}

/// After storing the file: insert the row that records it under the chart set
/// and label, with the upload's file name and the key it was stored at; or
/// answer with an internal error when the store failed.
pub fn aux_file_row(
    stored: Result<String, StorageError>,
    chart_set_id: i32,
    label: &str,
    name: Option<&str>,
    extension: Option<&str>,
) -> (r: Result<NewAuxFileRow, CreateChartSetAuxFileResponse>)
    ensures
        match stored {
            Ok(file_id) => r matches Ok(row) && row.chart_set_id == chart_set_id && row.label@
                == label@ && row.file_id == file_id && row.filename@ == aux_file_name_spec(
                match name {
                    Some(n) => Some(n@),
                    None => None,
                },
                match extension {
                    Some(e) => Some(e@),
                    None => None,
                },
            ),
            Err(_) => r matches Err(CreateChartSetAuxFileResponse::InternalError),
        },
{
    match stored {
        Ok(file_id) => Ok(
            NewAuxFileRow {
                chart_set_id,
                label: label.to_string(),
                filename: aux_file_name(name, extension),
                file_id,
            },
        ),
        Err(_) => Err(CreateChartSetAuxFileResponse::InternalError),
    }
}

/// Answers from the insertion of the file's row: created, pointing at the file
/// under the row's chart set and label; not found when no chart set has that
/// id; an internal error otherwise.
pub fn aux_file_created(inserted: Result<(), DbFailure>, row: &NewAuxFileRow) -> (r: CreateChartSetAuxFileResponse)
    ensures
        match inserted {
            Ok(_) => r matches CreateChartSetAuxFileResponse::Created(location) && location@
                == aux_file_location_spec(row.chart_set_id, row.label@),
            Err(DbFailure::ForeignKeyViolation) => r is NotFound,
            Err(DbFailure::Other) => r is InternalError,
        },
{
    match inserted {
        Err(DbFailure::ForeignKeyViolation) => CreateChartSetAuxFileResponse::NotFound,
        Err(DbFailure::Other) => CreateChartSetAuxFileResponse::InternalError,
        Ok(_) => CreateChartSetAuxFileResponse::Created(aux_file_location(row.chart_set_id, row.label.as_str())),
    }
}

/// The recorded file name of an upload with a name `n` and an extension `e` is
/// `n`, then a dot, then the whole of `e`.
pub proof fn law_aux_file_name_keeps_name_and_extension(n: Seq<char>, e: Seq<char>)
    ensures
        ({
            let f = aux_file_name_spec(Some(n), Some(e));
            &&& f.len() == n.len() + 1 + e.len()
            &&& f.subrange(0, n.len() as int) == n
            &&& f[n.len() as int] == '.'
            &&& f.subrange(n.len() + 1int, f.len() as int) == e
        }),
        aux_file_name_spec(Some(n), None) == n,
        aux_file_name_spec(None, None).len() == 0,
{
    reveal_strlit(".");
    let f = aux_file_name_spec(Some(n), Some(e));
    assert(f.subrange(0, n.len() as int) =~= n);
    assert(f.subrange(n.len() + 1int, f.len() as int) =~= e);
}

} // verus!
