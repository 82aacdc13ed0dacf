//! `POST /chart-set`: creates a chart set and points at it.

use vstd::prelude::*;

use crate::decimal::{
    all_digits, decimal_value, i32_to_decimal, law_decimal_denotes_its_number, signed_decimal,
};

verus! {

/// The path of a chart set, as `uri!(get_chart_set(set_id = ..))` writes it.
pub open spec fn chart_set_location_spec(chart_set_id: i32) -> Seq<char> {
    "/chart-set/"@ + signed_decimal(chart_set_id as int)
}

/// The path of a chart set.
pub fn chart_set_location(chart_set_id: i32) -> (r: String)
    ensures
        r@ == chart_set_location_spec(chart_set_id),
{
    let mut uri = String::new();
    uri.append("/chart-set/");
    let id = i32_to_decimal(chart_set_id);
    uri.append(id.as_str());
    uri
}

/// The answers of `POST /chart-set`.
pub enum CreateChartSetResponse {
    InternalError,
    /// Created, with the `Location` of the new chart set.
    Created(String),
}

/// Answers from the insertion of the chart set: created, pointing at the new
/// set, or an internal error when the insertion failed.
pub fn create_chart_set_response(inserted: Result<i32, ()>) -> (r: CreateChartSetResponse)
    ensures
        match inserted {
            Ok(id) => r matches CreateChartSetResponse::Created(location) && location@
                == chart_set_location_spec(id),
            Err(_) => r is InternalError,
        },
{
    match inserted {
        Ok(created_id) => CreateChartSetResponse::Created(chart_set_location(created_id)),
        Err(_) => CreateChartSetResponse::InternalError,
    }
}

/// The `Location` of a created chart set points at that very set: after
/// `/chart-set/` comes the decimal text of its id, which reads back as the id
/// (after a `-` for a negative id).
pub proof fn law_chart_set_location_names_the_id(id: i32)
    ensures
        ({
            let loc = chart_set_location_spec(id);
            let prefix = "/chart-set/"@;
            &&& loc.subrange(0, prefix.len() as int) == prefix
            &&& if id >= 0 {
                let digits = loc.subrange(prefix.len() as int, loc.len() as int);
                all_digits(digits) && decimal_value(digits) == id
            } else {
                let digits = loc.subrange(prefix.len() + 1int, loc.len() as int);
                loc[prefix.len() as int] == '-' && all_digits(digits) && decimal_value(digits) == -id
            }
        }),
{
    let loc = chart_set_location_spec(id);
    let prefix = "/chart-set/"@;
    assert(loc.subrange(0, prefix.len() as int) =~= prefix);
    if id >= 0 {
        law_decimal_denotes_its_number(id as nat);
        assert(loc.subrange(prefix.len() as int, loc.len() as int) =~= signed_decimal(id as int));
    } else {
        law_decimal_denotes_its_number((-id) as nat);
        assert(loc.subrange(prefix.len() + 1int, loc.len() as int) =~= crate::decimal::decimal((-id) as nat));
    }
}

} // verus!
