//! `POST /chart`: creates a chart in a chart set, either sharing the file of an
//! existing chart or storing an uploaded file.

use vstd::prelude::*;

use crate::routes::database::DbFailure;
use crate::routes::get_chart::ChartObject;
use crate::storage::StorageError;

verus! {

/// The answers of `POST /chart`.
pub enum CreateChartResponse<M> {
    InternalError,
    Unprocessable,
    InvalidRequest,
    Created(ChartObject<M>),
}

/// Where the new chart's file comes from.
#[derive(Debug, PartialEq, Eq, Structural, Clone, Copy)]
pub enum ChartFileSource {
    /// The file of the chart with this id.
    ExistingChart(i32),
    /// The file uploaded with the request.
    Upload,
}

/// Chooses the new chart's file: a named source chart comes first, then an
/// uploaded file; a request with neither is invalid.
pub fn chart_file_source<M>(source_chart: Option<i32>, has_file: bool) -> (r: Result<ChartFileSource, CreateChartResponse<M>>)
    ensures
        match source_chart {
            Some(id) => r == Ok::<ChartFileSource, CreateChartResponse<M>>(ChartFileSource::ExistingChart(id)),
            None => if has_file {
                r == Ok::<ChartFileSource, CreateChartResponse<M>>(ChartFileSource::Upload)
            } else {
                r matches Err(CreateChartResponse::InvalidRequest)
            },
        },
{
    match source_chart {
        Some(chart_id) => Ok(ChartFileSource::ExistingChart(chart_id)),
        None => if has_file {
            Ok(ChartFileSource::Upload)
        } else {
            Err(CreateChartResponse::InvalidRequest)
        },
    }
}

/// After looking up the source chart's file id: use it; a source chart that
/// does not exist makes the request unprocessable, a failed query an internal error.
pub fn source_chart_file<M>(lookup: Result<Option<String>, ()>) -> (r: Result<String, CreateChartResponse<M>>)
    ensures
        match lookup {
            Ok(Some(file_id)) => r == Ok::<String, CreateChartResponse<M>>(file_id),
            Ok(None) => r matches Err(CreateChartResponse::Unprocessable),
            Err(_) => r matches Err(CreateChartResponse::InternalError),
        },
{
    match lookup {
        Ok(Some(file_id)) => Ok(file_id),
        Ok(None) => Err(CreateChartResponse::Unprocessable),
        Err(_) => Err(CreateChartResponse::InternalError),
    }
}

/// After reading the uploaded file: store its bytes, or answer with an
/// internal error when it could not be opened or read.
pub fn upload_to_store<M>(read: Result<Vec<u8>, ()>) -> (r: Result<Vec<u8>, CreateChartResponse<M>>)
    ensures
        match read {
            Ok(data) => r == Ok::<Vec<u8>, CreateChartResponse<M>>(data),
            Err(_) => r matches Err(CreateChartResponse::InternalError),
        },
{
    match read {
        Ok(data) => Ok(data),
        Err(_) => Err(CreateChartResponse::InternalError),
    }
}

/// After storing the upload: use the key it was stored at, or answer with an
/// internal error when the store failed.
pub fn uploaded_file<M>(stored: Result<String, StorageError>) -> (r: Result<String, CreateChartResponse<M>>)
    ensures
        match stored {
            Ok(file_id) => r == Ok::<String, CreateChartResponse<M>>(file_id),
            Err(_) => r matches Err(CreateChartResponse::InternalError),
        },
{
    match stored {
        Ok(handle) => Ok(handle),
        Err(_) => Err(CreateChartResponse::InternalError),
    }
}

/// The title and artist of a chart set.
pub struct ChartSetNames {
    pub title: String,
    pub artist: String,
}

/// The row that records the new chart: its chart set, its designator and the
/// id of its file.
pub struct NewChartRow {
    pub chart_set_id: i32,
    pub designator: String,
    pub file_id: String,
}

/// What to insert once the chart set is known: the row of the new chart, and
/// the names of its chart set for the answer.
pub struct ChartInsert {
    pub chart_set: ChartSetNames,
    pub row: NewChartRow,
}

/// After looking up the chart set (`Ok(None)` when no chart set has the
/// requested id): insert the row of the new chart, recording the chosen file
/// under the requested chart set and designator; answer unprocessable when the
/// chart set does not exist, and an internal error when it could not be read.
pub fn chart_insert<M>(
    lookup: Result<Option<ChartSetNames>, ()>,
    chart_set_id: i32,
    designator: &str,
    file_id: String,
) -> (r: Result<ChartInsert, CreateChartResponse<M>>)
    ensures
        match lookup {
            Ok(Some(names)) => r matches Ok(insert) && insert.chart_set == names
                && insert.row.chart_set_id == chart_set_id && insert.row.designator@ == designator@
                && insert.row.file_id == file_id,
            Ok(None) => r matches Err(CreateChartResponse::Unprocessable),
            Err(_) => r matches Err(CreateChartResponse::InternalError),
        },
{
    match lookup {
        Ok(None) => Err(CreateChartResponse::Unprocessable),
        Ok(Some(names)) => Ok(
            ChartInsert {
                chart_set: names,
                row: NewChartRow { chart_set_id, designator: designator.to_string(), file_id },
            },
        ),
        Err(_) => Err(CreateChartResponse::InternalError),
    }
}

/// Answers from the insertion of the chart: the new chart, with the names of its
/// chart set and what its row records; unprocessable when no chart set has that
/// id; an internal error when the insertion failed otherwise.
pub fn chart_created<M>(inserted: Result<i32, DbFailure>, insert: ChartInsert, metadata: M) -> (r: CreateChartResponse<M>)
    ensures
        match inserted {
            Ok(chart_id) => r == CreateChartResponse::Created(
                ChartObject {
                    song_title: insert.chart_set.title,
                    song_artist: insert.chart_set.artist,
                    chart_id,
                    chart_set_id: insert.row.chart_set_id,
                    designator: insert.row.designator,
                    metadata,
                },
            ),
            Err(DbFailure::ForeignKeyViolation) => r is Unprocessable,
            Err(DbFailure::Other) => r is InternalError,
        },
{
    match inserted {
        Ok(chart_id) => CreateChartResponse::Created(
            ChartObject {
                song_title: insert.chart_set.title,
                song_artist: insert.chart_set.artist,
                chart_set_id: insert.row.chart_set_id,
                chart_id,
                designator: insert.row.designator,
                metadata,
            },
        ),
        Err(DbFailure::ForeignKeyViolation) => CreateChartResponse::Unprocessable,
        Err(DbFailure::Other) => CreateChartResponse::InternalError,
    }
}

/// What a `POST /chart` request asks for, as far as the decisions read it.
pub struct CreateChartRequest {
    pub chart_set_id: i32,
    pub designator: String,
    pub source_chart: Option<i32>,
    pub has_file: bool,
}

/// Where the handling of a `POST /chart` request stands.
pub enum CreateChartStage {
    Start,
    FindingSourceChart,
    ReadingUpload,
    StoringUpload,
    FindingChartSet { file_id: String },
    /// Ready to insert the chart's row; the answer then comes from `chart_created`.
    Inserting(ChartInsert),
    Finished,
}

/// What the server reports back after doing the last action.
pub enum CreateChartEvent {
    Begin,
    SourceChartFound(Result<Option<String>, ()>),
    UploadRead(Result<Vec<u8>, ()>),
    UploadStored(Result<String, StorageError>),
    ChartSetFound(Result<Option<ChartSetNames>, ()>),
}

/// What the server is to do next.
pub enum CreateChartAction<M> {
    /// Look up the file id of the chart with this id.
    FindSourceChart(i32),
    /// Open and read the uploaded file.
    ReadUpload,
    /// File these bytes in the file store.
    StoreUpload(Vec<u8>),
    /// Look up the title and artist of the chart set with this id.
    FindChartSet(i32),
    /// Insert the row that the `Inserting` stage holds.
    InsertChart,
    /// Answer the request.
    Respond(CreateChartResponse<M>),
}

/// What holds of every stage that the handling of `req` reaches from `Start`:
/// the upload is only read and stored for a request that names no source chart
/// and carries a file; the row to insert is for the requested chart set and
/// designator.
pub open spec fn create_chart_stage_ok(req: CreateChartRequest, stage: CreateChartStage) -> bool {
    match stage {
        CreateChartStage::FindingSourceChart => req.source_chart is Some,
        CreateChartStage::ReadingUpload => req.source_chart is None && req.has_file,
        CreateChartStage::StoringUpload => req.source_chart is None && req.has_file,
        CreateChartStage::Inserting(insert) => insert.row.chart_set_id == req.chart_set_id
            && insert.row.designator@ == req.designator@,
        _ => true,
    }
}

/// One step of handling `POST /chart`: from where the request stands and what
/// the last action gave, the next stage and the next action. An event that
/// does not belong to the stage ends the request with an internal error.
pub fn create_chart_step<M>(req: &CreateChartRequest, stage: CreateChartStage, event: CreateChartEvent) -> (r: (CreateChartStage, CreateChartAction<M>))
    ensures
        match (stage, event) {
            (CreateChartStage::Start, CreateChartEvent::Begin) => match req.source_chart {
                Some(id) => r.0 is FindingSourceChart && r.1 == CreateChartAction::<M>::FindSourceChart(id),
                None => if req.has_file {
                    r.0 is ReadingUpload && r.1 is ReadUpload
                } else {
                    r.0 is Finished && r.1 matches CreateChartAction::Respond(CreateChartResponse::InvalidRequest)
                },
            },
            (CreateChartStage::FindingSourceChart, CreateChartEvent::SourceChartFound(lookup)) => match lookup {
                Ok(Some(file_id)) => r.0 == (CreateChartStage::FindingChartSet { file_id })
                    && r.1 == CreateChartAction::<M>::FindChartSet(req.chart_set_id),
                Ok(None) => r.0 is Finished && r.1 matches CreateChartAction::Respond(CreateChartResponse::Unprocessable),
                Err(_) => r.0 is Finished && r.1 matches CreateChartAction::Respond(CreateChartResponse::InternalError),
            },
            (CreateChartStage::ReadingUpload, CreateChartEvent::UploadRead(read)) => match read {
                Ok(data) => r.0 is StoringUpload && r.1 == CreateChartAction::<M>::StoreUpload(data),
                Err(_) => r.0 is Finished && r.1 matches CreateChartAction::Respond(CreateChartResponse::InternalError),
            },
            (CreateChartStage::StoringUpload, CreateChartEvent::UploadStored(stored)) => match stored {
                Ok(file_id) => r.0 == (CreateChartStage::FindingChartSet { file_id })
                    && r.1 == CreateChartAction::<M>::FindChartSet(req.chart_set_id),
                Err(_) => r.0 is Finished && r.1 matches CreateChartAction::Respond(CreateChartResponse::InternalError),
            },
            (CreateChartStage::FindingChartSet { file_id }, CreateChartEvent::ChartSetFound(lookup)) => match lookup {
                Ok(Some(names)) => r.1 is InsertChart && (r.0 matches CreateChartStage::Inserting(insert)
                    && insert.chart_set == names && insert.row.chart_set_id == req.chart_set_id
                    && insert.row.designator@ == req.designator@ && insert.row.file_id == file_id),
                Ok(None) => r.0 is Finished && r.1 matches CreateChartAction::Respond(CreateChartResponse::Unprocessable),
                Err(_) => r.0 is Finished && r.1 matches CreateChartAction::Respond(CreateChartResponse::InternalError),
            },
            _ => r.0 is Finished && r.1 matches CreateChartAction::Respond(CreateChartResponse::InternalError),
        },
        create_chart_stage_ok(*req, stage) ==> create_chart_stage_ok(*req, r.0),
        r.1 is FindSourceChart ==> req.source_chart is Some,
        create_chart_stage_ok(*req, stage) && (r.1 is ReadUpload || r.1 is StoreUpload) ==> {
            &&& req.source_chart is None
            &&& req.has_file
        },
{
    match (stage, event) {
        (CreateChartStage::Start, CreateChartEvent::Begin) => match chart_file_source::<M>(req.source_chart, req.has_file) {
            Ok(ChartFileSource::ExistingChart(chart_id)) => (
                CreateChartStage::FindingSourceChart,
                CreateChartAction::FindSourceChart(chart_id),
            ),
            Ok(ChartFileSource::Upload) => (CreateChartStage::ReadingUpload, CreateChartAction::ReadUpload),
            Err(answer) => (CreateChartStage::Finished, CreateChartAction::Respond(answer)),
        },
        (CreateChartStage::FindingSourceChart, CreateChartEvent::SourceChartFound(lookup)) => match source_chart_file::<M>(lookup) {
            Ok(file_id) => (
                CreateChartStage::FindingChartSet { file_id },
                CreateChartAction::FindChartSet(req.chart_set_id),
            ),
            Err(answer) => (CreateChartStage::Finished, CreateChartAction::Respond(answer)),
        },
        (CreateChartStage::ReadingUpload, CreateChartEvent::UploadRead(read)) => match upload_to_store::<M>(read) {
            Ok(data) => (CreateChartStage::StoringUpload, CreateChartAction::StoreUpload(data)),
            Err(answer) => (CreateChartStage::Finished, CreateChartAction::Respond(answer)),
        },
        (CreateChartStage::StoringUpload, CreateChartEvent::UploadStored(stored)) => match uploaded_file::<M>(stored) {
            Ok(file_id) => (
                CreateChartStage::FindingChartSet { file_id },
                CreateChartAction::FindChartSet(req.chart_set_id),
            ),
            Err(answer) => (CreateChartStage::Finished, CreateChartAction::Respond(answer)),
        },
        (CreateChartStage::FindingChartSet { file_id }, CreateChartEvent::ChartSetFound(lookup)) => {
            match chart_insert::<M>(lookup, req.chart_set_id, req.designator.as_str(), file_id) {
                Ok(insert) => (CreateChartStage::Inserting(insert), CreateChartAction::InsertChart),
                Err(answer) => (CreateChartStage::Finished, CreateChartAction::Respond(answer)),
            }
        },
        _ => (CreateChartStage::Finished, CreateChartAction::Respond(CreateChartResponse::InternalError)),
    }
}

} // verus!
