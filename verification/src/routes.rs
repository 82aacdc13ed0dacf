//! The decisions of the HTTP routes. Each route alternates database or storage
//! calls with decisions; the calls are made by the server, and every decision
//! taken between them stands here: what to do next, or what to answer.

pub mod create_chart;
pub mod create_chart_set;
pub mod create_chart_set_aux_file;
pub mod database;
pub mod get_chart;
pub mod get_chart_file;
pub mod get_chart_set;
pub mod get_chart_set_aux_file;
pub mod search_charts;
