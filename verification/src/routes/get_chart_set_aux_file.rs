//! `GET /chart-set/<chart_set_id>/file/<label>`: an auxiliary file of a chart
//! set, offered as an attachment under its stored file name.

use vstd::prelude::*;

use crate::storage::StorageError;

verus! {

/// The answers of `GET /chart-set/<chart_set_id>/file/<label>`.
pub enum GetChartSetAuxFileResponse {
    InternalError,
    NotFound,
    /// The file's bytes and the value of its `Content-Disposition` header.
    Success(Vec<u8>, String),
}

/// The row of an auxiliary file: where its bytes are kept and its file name.
pub struct AuxFileRow {
    pub file_id: String,
    pub filename: Option<String>,
}

/// The `Content-Disposition` value of a download.
pub open spec fn content_disposition_spec(filename: Option<Seq<char>>) -> Seq<char> {
    match filename {
        None => "attachment"@,
        Some(name) => "attachment; filename=\""@ + name + "\""@,
    }
}

/// Offers the file as an attachment, under its file name when it has one.
pub fn content_disposition(filename: Option<String>) -> (r: String)
    ensures
        r@ == content_disposition_spec(
            match filename {
                Some(f) => Some(f@),
                None => None,
            },
        ),
{
    match filename {
        None => "attachment".to_string(),
        Some(name) => {
            let mut value = String::new();
            value.append("attachment; filename=\"");
            value.append(name.as_str());
            value.append("\"");
            value
        },
    }
}

/// What to do after looking the file up.
pub enum AuxFileNext {
    /// Retrieve the file and send it with this `Content-Disposition` value.
    Retrieve { file_id: String, content_disposition: String },
    /// Answer at once.
    Respond(GetChartSetAuxFileResponse),
}

/// After the lookup of the file's row: retrieve it when there is one, answer
/// not found when there is none and an internal error when the query failed.
pub fn aux_file_next(lookup: Result<Option<AuxFileRow>, ()>) -> (r: AuxFileNext)
    ensures
        match lookup {
            Ok(Some(row)) => r matches AuxFileNext::Retrieve { file_id, content_disposition } && file_id
                == row.file_id && content_disposition@ == content_disposition_spec(
                match row.filename {
                    Some(f) => Some(f@),
                    None => None,
                },
            ),
            Ok(None) => r matches AuxFileNext::Respond(GetChartSetAuxFileResponse::NotFound),
            Err(_) => r matches AuxFileNext::Respond(GetChartSetAuxFileResponse::InternalError),
        },
{
    match lookup {
        Err(_) => AuxFileNext::Respond(GetChartSetAuxFileResponse::InternalError),
        Ok(None) => AuxFileNext::Respond(GetChartSetAuxFileResponse::NotFound),
        Ok(Some(row)) => {
            let header = content_disposition(row.filename);
            AuxFileNext::Retrieve { file_id: row.file_id, content_disposition: header }
        },
    }
}

/// Answers from the retrieval of the file: its bytes with the header, not
/// found when the store has no such file, an internal error when it failed.
pub fn aux_file_response(
    retrieved: Result<Option<Vec<u8>>, StorageError>,
    content_disposition: String,
) -> (r: GetChartSetAuxFileResponse)
    ensures
        match retrieved {
            Ok(Some(data)) => r == GetChartSetAuxFileResponse::Success(data, content_disposition),
            Ok(None) => r is NotFound,
            Err(_) => r is InternalError,
        },
{
    match retrieved {
        Err(_) => GetChartSetAuxFileResponse::InternalError,
        Ok(None) => GetChartSetAuxFileResponse::NotFound,
        Ok(Some(file_data)) => GetChartSetAuxFileResponse::Success(file_data, content_disposition),
    }
}

/// A stored file name `f`, of any length, is offered as
/// `attachment; filename="f"`: the value starts with that prefix, ends with a
/// quote, and holds the whole of `f` between them; without a name it is
/// `attachment`.
pub proof fn law_content_disposition_holds_whole_name(f: Seq<char>)
    ensures
        ({
            let v = content_disposition_spec(Some(f));
            let prefix = "attachment; filename=\""@;
            &&& v.len() == prefix.len() + f.len() + 1
            &&& v.subrange(0, prefix.len() as int) == prefix
            &&& v.subrange(prefix.len() as int, (prefix.len() + f.len()) as int) == f
            &&& v[v.len() - 1] == '"'
        }),
        content_disposition_spec(None) == "attachment"@,
{
    reveal_strlit("\"");
    let prefix = "attachment; filename=\""@;
    let v = content_disposition_spec(Some(f));
    assert(v.subrange(0, prefix.len() as int) =~= prefix);
    assert(v.subrange(prefix.len() as int, (prefix.len() + f.len()) as int) =~= f);
}

} // verus!
