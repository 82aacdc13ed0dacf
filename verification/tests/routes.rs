use apollo::routes::create_chart::{
    chart_created, chart_file_source, chart_insert, create_chart_step, CreateChartAction, CreateChartEvent,
    CreateChartRequest, CreateChartStage, source_chart_file, upload_to_store, uploaded_file,
    ChartFileSource, ChartSetNames, CreateChartResponse,
};
use apollo::routes::create_chart_set::{chart_set_location, create_chart_set_response, CreateChartSetResponse};
use apollo::routes::create_chart_set_aux_file::{
    aux_file_created, aux_file_location, aux_file_name, aux_file_row, CreateChartSetAuxFileResponse,
};
use apollo::routes::database::{classify_db_error, DbFailure};
use apollo::routes::get_chart::{get_chart_response, ChartObject, GetChartResponse};
use apollo::routes::get_chart_set::{get_chart_set_response, ChartSet, GetChartSetResponse};
use apollo::routes::get_chart_file::{chart_file_response, chart_file_to_retrieve, GetChartFileResponse};
use apollo::routes::get_chart_set_aux_file::{
    aux_file_next, aux_file_response, content_disposition, AuxFileNext, AuxFileRow,
    GetChartSetAuxFileResponse,
};
use apollo::routes::search_charts::{plan_search, result_count, search_query, sort_condition, SortDirection, SortOrder};
use apollo::storage::StorageError;

fn chart(id: i32) -> ChartObject<u8> {
    ChartObject {
        song_title: "Title".to_string(),
        song_artist: "Artist".to_string(),
        chart_id: id,
        chart_set_id: 3,
        designator: "HARD".to_string(),
        metadata: 9,
    }
}

#[test]
fn foreign_key_code_is_recognised() {
    assert_eq!(classify_db_error(Some("23503")), DbFailure::ForeignKeyViolation);
    assert_eq!(classify_db_error(Some("23505")), DbFailure::Other);
    assert_eq!(classify_db_error(Some("")), DbFailure::Other);
    assert_eq!(classify_db_error(None), DbFailure::Other);
}

#[test]
fn get_chart_answers() {
    match get_chart_response(Ok(Some(chart(4)))) {
        GetChartResponse::Success(c) => assert_eq!(c.chart_id, 4),
        _ => panic!("expected the chart"),
    }
    assert!(matches!(get_chart_response::<u8>(Ok(None)), GetChartResponse::InternalError));
    assert!(matches!(get_chart_response::<u8>(Err(())), GetChartResponse::InternalError));
}

#[test]
fn get_chart_file_answers() {
    assert_eq!(chart_file_to_retrieve(Ok("123".to_string())).ok(), Some("123".to_string()));
    assert!(matches!(chart_file_to_retrieve(Err(())), Err(GetChartFileResponse::InternalError)));
    assert!(matches!(chart_file_response(Ok(Some(vec![1]))), GetChartFileResponse::Success(d) if d == vec![1]));
    assert!(matches!(chart_file_response(Ok(None)), GetChartFileResponse::NotFound));
    let failed = Err(StorageError { message: "down".to_string() });
    assert!(matches!(chart_file_response(failed), GetChartFileResponse::InternalError));
}

#[test]
fn content_disposition_values() {
    assert_eq!(content_disposition(None), "attachment");
    assert_eq!(content_disposition(Some("song.ogg".to_string())), "attachment; filename=\"song.ogg\"");
}

#[test]
fn aux_file_lookup_and_answers() {
    let row = AuxFileRow { file_id: "77".to_string(), filename: Some("bg.png".to_string()) };
    match aux_file_next(Ok(Some(row))) {
        AuxFileNext::Retrieve { file_id, content_disposition } => {
            assert_eq!(file_id, "77");
            assert_eq!(content_disposition, "attachment; filename=\"bg.png\"");
        }
        AuxFileNext::Respond(_) => panic!("expected a retrieval"),
    }
    assert!(matches!(aux_file_next(Ok(None)), AuxFileNext::Respond(GetChartSetAuxFileResponse::NotFound)));
    assert!(matches!(aux_file_next(Err(())), AuxFileNext::Respond(GetChartSetAuxFileResponse::InternalError)));
    match aux_file_response(Ok(Some(vec![3, 4])), "attachment".to_string()) {
        GetChartSetAuxFileResponse::Success(data, header) => {
            assert_eq!(data, vec![3, 4]);
            assert_eq!(header, "attachment");
        }
        _ => panic!("expected the file"),
    }
    assert!(matches!(aux_file_response(Ok(None), String::new()), GetChartSetAuxFileResponse::NotFound));
    let failed = Err(StorageError { message: "x".to_string() });
    assert!(matches!(aux_file_response(failed, String::new()), GetChartSetAuxFileResponse::InternalError));
}

#[test]
fn chart_set_locations() {
    assert_eq!(chart_set_location(5), "/chart-set/5");
    assert_eq!(chart_set_location(-3), "/chart-set/-3");
    assert!(matches!(create_chart_set_response(Ok(12)), CreateChartSetResponse::Created(l) if l == "/chart-set/12"));
    assert!(matches!(create_chart_set_response(Err(())), CreateChartSetResponse::InternalError));
}

#[test]
fn aux_file_locations_encode_the_label() {
    assert_eq!(aux_file_location(1, "audio"), "/chart-set/1/file/audio");
    assert_eq!(aux_file_location(1, "a b"), "/chart-set/1/file/a%20b");
    assert_eq!(aux_file_location(2, "x/y"), "/chart-set/2/file/x%2Fy");
}

#[test]
fn aux_file_names() {
    assert_eq!(aux_file_name(Some("song"), Some("ogg")), "song.ogg");
    assert_eq!(aux_file_name(Some("song"), None), "song");
    assert_eq!(aux_file_name(None, Some("png")), ".png");
    assert_eq!(aux_file_name(None, None), "");
}

#[test]
fn aux_file_creation_answers() {
    let row = aux_file_row(Ok("9".to_string()), 4, "bg", Some("back"), Some("png")).ok().unwrap();
    assert_eq!(row.chart_set_id, 4);
    assert_eq!(row.label, "bg");
    assert_eq!(row.filename, "back.png");
    assert_eq!(row.file_id, "9");
    let failed = Err(StorageError { message: "x".to_string() });
    assert!(matches!(aux_file_row(failed, 4, "bg", None, None), Err(CreateChartSetAuxFileResponse::InternalError)));
    assert!(matches!(aux_file_created(Ok(()), &row), CreateChartSetAuxFileResponse::Created(l) if l == "/chart-set/4/file/bg"));
    assert!(matches!(
        aux_file_created(Err(DbFailure::ForeignKeyViolation), &row),
        CreateChartSetAuxFileResponse::NotFound
    ));
    assert!(matches!(aux_file_created(Err(DbFailure::Other), &row), CreateChartSetAuxFileResponse::InternalError));
}

#[test]
fn get_chart_set_answers() {
    let set = ChartSet { chart_set_id: 2, title: "T".to_string(), artist: "A".to_string() };
    match get_chart_set_response(Ok(Some(set))) {
        GetChartSetResponse::Success(found) => {
            assert_eq!(found.chart_set_id, 2);
            assert_eq!(found.title, "T");
            assert_eq!(found.artist, "A");
        }
        _ => panic!("expected the chart set"),
    }
    assert!(matches!(get_chart_set_response(Ok(None)), GetChartSetResponse::NotFound));
    assert!(matches!(get_chart_set_response(Err(())), GetChartSetResponse::InternalError));
}

#[test]
fn create_chart_file_source() {
    assert_eq!(chart_file_source::<u8>(Some(8), true).ok(), Some(ChartFileSource::ExistingChart(8)));
    assert_eq!(chart_file_source::<u8>(Some(8), false).ok(), Some(ChartFileSource::ExistingChart(8)));
    assert_eq!(chart_file_source::<u8>(None, true).ok(), Some(ChartFileSource::Upload));
    assert!(matches!(chart_file_source::<u8>(None, false), Err(CreateChartResponse::InvalidRequest)));
}

#[test]
fn create_chart_intermediate_steps() {
    assert_eq!(source_chart_file::<u8>(Ok(Some("f".to_string()))).ok(), Some("f".to_string()));
    assert!(matches!(source_chart_file::<u8>(Ok(None)), Err(CreateChartResponse::Unprocessable)));
    assert!(matches!(source_chart_file::<u8>(Err(())), Err(CreateChartResponse::InternalError)));
    assert_eq!(upload_to_store::<u8>(Ok(vec![1])).ok(), Some(vec![1]));
    assert!(matches!(upload_to_store::<u8>(Err(())), Err(CreateChartResponse::InternalError)));
    assert_eq!(uploaded_file::<u8>(Ok("k".to_string())).ok(), Some("k".to_string()));
    let failed = Err(StorageError { message: "x".to_string() });
    assert!(matches!(uploaded_file::<u8>(failed), Err(CreateChartResponse::InternalError)));
    let names = ChartSetNames { title: "T".to_string(), artist: "A".to_string() };
    let insert = chart_insert::<u8>(Ok(Some(names)), 3, "HARD", "file-7".to_string()).ok().unwrap();
    assert_eq!(insert.chart_set.title, "T");
    assert_eq!(insert.row.chart_set_id, 3);
    assert_eq!(insert.row.designator, "HARD");
    assert_eq!(insert.row.file_id, "file-7");
    assert!(matches!(chart_insert::<u8>(Err(()), 3, "HARD", "f".to_string()), Err(CreateChartResponse::InternalError)));
    assert!(matches!(chart_insert::<u8>(Ok(None), 3, "HARD", "f".to_string()), Err(CreateChartResponse::Unprocessable)));
}

#[test]
fn create_chart_final_answers() {
    let insert = || {
        let names = ChartSetNames { title: "T".to_string(), artist: "A".to_string() };
        chart_insert::<u8>(Ok(Some(names)), 3, "EASY", "k".to_string()).ok().unwrap()
    };
    match chart_created(Ok(11), insert(), 42u8) {
        CreateChartResponse::Created(c) => {
            assert_eq!(c.chart_id, 11);
            assert_eq!(c.chart_set_id, 3);
            assert_eq!(c.song_title, "T");
            assert_eq!(c.song_artist, "A");
            assert_eq!(c.designator, "EASY");
            assert_eq!(c.metadata, 42);
        }
        _ => panic!("expected a created chart"),
    }
    assert!(matches!(
        chart_created(Err(DbFailure::ForeignKeyViolation), insert(), 0u8),
        CreateChartResponse::Unprocessable
    ));
    assert!(matches!(chart_created(Err(DbFailure::Other), insert(), 0u8), CreateChartResponse::InternalError));
}

fn expected_query(order_by: &str) -> String {
    format!(
        "SELECT title, artist, chart_id, charts.chart_set_id, designator, metadata,
            COUNT(*) OVER() AS full_count         
        FROM charts
        JOIN chart_sets ON charts.chart_set_id = chart_sets.chart_set_id
        WHERE 
            $1 <@ metadata AND
            CASE
                WHEN $5 IS NOT NULL THEN designator = $5
                ELSE TRUE
            END
        {order_by}
        OFFSET $2
        LIMIT $3
    "
    )
}

#[test]
fn search_sort_conditions() {
    assert_eq!(sort_condition(&None), "");
    assert_eq!(sort_condition(&Some(SortOrder::TitleAlphabetical)), "ORDER BY title");
    assert_eq!(
        sort_condition(&Some(SortOrder::ByMetaTag(SortDirection::Ascending, "bpm".to_string()))),
        "ORDER BY metadata->$4 ASC"
    );
    assert_eq!(
        sort_condition(&Some(SortOrder::ByMetaTag(SortDirection::Descending, "bpm".to_string()))),
        "ORDER BY metadata->$4 DESC"
    );
}

#[test]
fn search_query_text() {
    assert_eq!(search_query("ORDER BY title"), expected_query("ORDER BY title"));
    assert_eq!(search_query(""), expected_query(""));
}

#[test]
fn search_sort_clause_comes_before_paging() {
    let query = search_query(sort_condition(&Some(SortOrder::TitleAlphabetical)));
    let order = query.find("ORDER BY title").unwrap();
    assert!(order < query.find("OFFSET $2").unwrap());
    assert!(order < query.find("LIMIT $3").unwrap());
    assert!(!search_query(sort_condition(&None)).contains("ORDER BY"));
}

#[test]
fn search_plans() {
    let plan = plan_search(None, None, None, None);
    assert_eq!(plan.query, expected_query(""));
    assert_eq!(plan.limit, 50);
    assert_eq!(plan.offset, None);
    assert_eq!(plan.sort_tag, None);
    assert_eq!(plan.designator, None);

    let plan = plan_search(
        Some(SortOrder::ByMetaTag(SortDirection::Descending, "level".to_string())),
        Some(10),
        Some(20),
        Some("HARD".to_string()),
    );
    assert_eq!(plan.query, expected_query("ORDER BY metadata->$4 DESC"));
    assert_eq!(plan.limit, 10);
    assert_eq!(plan.offset, Some(20));
    assert_eq!(plan.sort_tag, Some("level".to_string()));
    assert_eq!(plan.designator, Some("HARD".to_string()));

    let plan = plan_search(Some(SortOrder::default()), Some(5), None, None);
    assert_eq!(plan.query, expected_query("ORDER BY title"));
    assert_eq!(plan.sort_tag, None);
}

#[test]
fn search_result_counts() {
    assert_eq!(result_count(&vec![]), 0);
    assert_eq!(result_count(&vec![7]), 7);
    assert_eq!(result_count(&vec![7, 7, 9]), 9);
}

fn request(source_chart: Option<i32>, has_file: bool) -> CreateChartRequest {
    CreateChartRequest { chart_set_id: 3, designator: "HARD".to_string(), source_chart, has_file }
}

#[test]
fn create_chart_flow_from_source_chart() {
    let req = request(Some(8), true);
    let (stage, action) = create_chart_step::<u8>(&req, CreateChartStage::Start, CreateChartEvent::Begin);
    assert!(matches!(action, CreateChartAction::FindSourceChart(8)));
    let (stage, action) =
        create_chart_step::<u8>(&req, stage, CreateChartEvent::SourceChartFound(Ok(Some("f8".to_string()))));
    assert!(matches!(action, CreateChartAction::FindChartSet(3)));
    let names = ChartSetNames { title: "T".to_string(), artist: "A".to_string() };
    let (stage, action) = create_chart_step::<u8>(&req, stage, CreateChartEvent::ChartSetFound(Ok(Some(names))));
    assert!(matches!(action, CreateChartAction::InsertChart));
    match stage {
        CreateChartStage::Inserting(insert) => {
            assert_eq!(insert.row.file_id, "f8");
            assert_eq!(insert.row.chart_set_id, 3);
            assert_eq!(insert.row.designator, "HARD");
        }
        _ => panic!("expected the insert stage"),
    }
}

#[test]
fn create_chart_flow_with_upload() {
    let req = request(None, true);
    let (stage, action) = create_chart_step::<u8>(&req, CreateChartStage::Start, CreateChartEvent::Begin);
    assert!(matches!(action, CreateChartAction::ReadUpload));
    let (stage, action) = create_chart_step::<u8>(&req, stage, CreateChartEvent::UploadRead(Ok(vec![1, 2])));
    assert!(matches!(action, CreateChartAction::StoreUpload(ref d) if *d == vec![1, 2]));
    let (stage, action) = create_chart_step::<u8>(&req, stage, CreateChartEvent::UploadStored(Ok("k".to_string())));
    assert!(matches!(action, CreateChartAction::FindChartSet(3)));
    let (_, action) = create_chart_step::<u8>(&req, stage, CreateChartEvent::ChartSetFound(Ok(None)));
    assert!(matches!(action, CreateChartAction::Respond(CreateChartResponse::Unprocessable)));
}

#[test]
fn create_chart_flow_failures() {
    let (_, action) = create_chart_step::<u8>(&request(None, false), CreateChartStage::Start, CreateChartEvent::Begin);
    assert!(matches!(action, CreateChartAction::Respond(CreateChartResponse::InvalidRequest)));
    let req = request(Some(1), false);
    let (_, action) =
        create_chart_step::<u8>(&req, CreateChartStage::FindingSourceChart, CreateChartEvent::SourceChartFound(Ok(None)));
    assert!(matches!(action, CreateChartAction::Respond(CreateChartResponse::Unprocessable)));
    let (_, action) = create_chart_step::<u8>(&req, CreateChartStage::Start, CreateChartEvent::UploadRead(Ok(vec![])));
    assert!(matches!(action, CreateChartAction::Respond(CreateChartResponse::InternalError)));
}
