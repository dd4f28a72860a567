//! What holds of literals: nothing is written more precisely than it is known.
use crate::expr::leaf_id;
use crate::json::{json_compact, json_get, json_get_str, json_view, object_view, Json, JsonView};
use crate::literals::{
    confidence_literal, finer_than_day, flag_literal, instant_literal, integer_literal, month_of,
    relative, text_literal, value_literal, value_text, world_literal, year_of,
};
use crate::term::{
    typed, LiteralView, XSD_DATE, XSD_DATE_TIME, XSD_G_YEAR, XSD_G_YEAR_MONTH, XSD_STRING,
};
use crate::text::int_text;
use crate::time::{calendar_date, rfc3339_auto, rfc3339_seconds, DateTime};
use crate::uuid::uuid_spelled;
use vstd::prelude::*;
use vstd::string::*;

verus! {

/// The datatype of a time of the world says how precisely it is known: a year is a year and not its
/// first day, and whoever knows no time of day claims none.
pub proof fn datatype_shows_the_precision(at: DateTime, precision: Option<Seq<char>>)
    ensures
        world_literal(at, precision).datatype == XSD_G_YEAR@ <==> precision == Some("year"@),
        world_literal(at, precision).datatype == XSD_G_YEAR_MONTH@ <==> precision == Some("month"@),
        world_literal(at, precision).datatype == XSD_DATE_TIME@ <==> finer_than_day(precision),
        world_literal(at, precision).datatype == XSD_DATE@ <==> precision != Some("year"@)
            && precision != Some("month"@) && !finer_than_day(precision),
{
    reveal_strlit("http://www.w3.org/2001/XMLSchema#gYear");
    reveal_strlit("http://www.w3.org/2001/XMLSchema#gYearMonth");
    reveal_strlit("http://www.w3.org/2001/XMLSchema#dateTime");
    reveal_strlit("http://www.w3.org/2001/XMLSchema#date");
    reveal_strlit("year");
    reveal_strlit("month");
    reveal_strlit("hour");
    reveal_strlit("minute");
    reveal_strlit("second");
    assert("year"@.len() == 4 && "hour"@.len() == 4 && "month"@.len() == 5 && "minute"@.len() == 6
        && "second"@.len() == 6);
    assert("year"@[0] == 'y' && "hour"@[0] == 'h');
    assert(XSD_G_YEAR@.len() == 38 && XSD_G_YEAR_MONTH@.len() == 43 && XSD_DATE_TIME@.len() == 41
        && XSD_DATE@.len() == 37);
}

/// A coarser literal of one instant is the beginning of a finer one: the year and the month of the
/// day, however many digits the year has.
pub proof fn coarser_times_begin_finer_ones(at: DateTime)
    ensures
        world_literal(at, Some("year"@)).value == year_of(world_literal(at, Some("day"@)).value),
        world_literal(at, Some("month"@)).value == month_of(world_literal(at, Some("day"@)).value),
{
    reveal_strlit("year");
    reveal_strlit("month");
    reveal_strlit("day");
    reveal_strlit("hour");
    reveal_strlit("minute");
    reveal_strlit("second");
    assert("year"@.len() == 4 && "hour"@.len() == 4 && "month"@.len() == 5 && "minute"@.len() == 6
        && "second"@.len() == 6 && "day"@.len() == 3);
    assert("year"@[0] == 'y' && "hour"@[0] == 'h');
}

/// A value that the source gives only relative to something is a plain text, whatever its declared
/// datatype: its words would be no valid date.
pub proof fn relative_value_is_a_plain_text(v: JsonView, datatype: Option<Seq<char>>)
    requires
        relative(v),
    ensures
        value_literal(v, datatype) == typed(value_text(v), XSD_STRING@),
{
}

/// Each kind of literal has its value and the datatype of XML Schema for that kind.
pub proof fn literals_have_their_types(s: Seq<char>, n: int, b: bool, at: DateTime)
    ensures
        text_literal(s) == (LiteralView {
            value: s,
            datatype: "http://www.w3.org/2001/XMLSchema#string"@,
        }),
        integer_literal(n) == (LiteralView {
            value: int_text(n),
            datatype: "http://www.w3.org/2001/XMLSchema#integer"@,
        }),
        flag_literal(b) == (LiteralView {
            value: if b {
                "true"@
            } else {
                "false"@
            },
            datatype: "http://www.w3.org/2001/XMLSchema#boolean"@,
        }),
        confidence_literal(s) == (LiteralView {
            value: s,
            datatype: "http://www.w3.org/2001/XMLSchema#decimal"@,
        }),
        instant_literal(at) == (LiteralView {
            value: rfc3339_auto(at.seconds(), at.subsecond()),
            datatype: "http://www.w3.org/2001/XMLSchema#dateTime"@,
        }),
{
}

/// A time of the world is written as precisely as it was measured: the year, the year and the month,
/// the date, or date and time down to the second; a precision that is not known counts as a day.
pub proof fn world_time_is_as_precise_as_measured(at: DateTime, precision: Option<Seq<char>>)
    ensures
        ({
            let date = calendar_date(at.seconds(), at.subsecond());
            world_literal(at, precision) == (if precision == Some("year"@) {
                LiteralView {
                    value: date.subrange(0, date.len() - 6),
                    datatype: "http://www.w3.org/2001/XMLSchema#gYear"@,
                }
            } else if precision == Some("month"@) {
                LiteralView {
                    value: date.subrange(0, date.len() - 3),
                    datatype: "http://www.w3.org/2001/XMLSchema#gYearMonth"@,
                }
            } else if precision == Some("hour"@) || precision == Some("minute"@) || precision == Some(
                "second"@,
            ) {
                LiteralView {
                    value: rfc3339_seconds(at.seconds(), at.subsecond()),
                    datatype: "http://www.w3.org/2001/XMLSchema#dateTime"@,
                }
            } else {
                LiteralView { value: date, datatype: "http://www.w3.org/2001/XMLSchema#date"@ }
            })
        }),
{
    let date = calendar_date(at.seconds(), at.subsecond());
    assert(date.take(date.len() - 6) == date.subrange(0, date.len() - 6));
    assert(date.take(date.len() - 3) == date.subrange(0, date.len() - 3));
}

/// The text of a stored value. A text is itself. In an object the field `value` counts: a text is
/// itself, null gives way to the summary, and everything else is its compact JSON; without that field
/// the summary counts, and an object without either is its compact JSON. Null is empty, and numbers,
/// truth values and lists are their compact JSON.
pub proof fn stored_value_has_its_text(v: JsonView)
    ensures
        match v {
            JsonView::Null => value_text(v) == Seq::<char>::empty(),
            JsonView::Text(s) => value_text(v) == s,
            JsonView::Bool(_) => value_text(v) == json_compact(v),
            JsonView::Number(_) => value_text(v) == json_compact(v),
            JsonView::Array(_) => value_text(v) == json_compact(v),
            JsonView::Object(fields) => {
                let summary = if fields.dom().contains("summary"@) && fields["summary"@] is Text {
                    Some(fields["summary"@]->Text_0)
                } else {
                    None
                };
                if fields.dom().contains("value"@) {
                    match fields["value"@] {
                        JsonView::Text(s) => value_text(v) == s,
                        JsonView::Null => value_text(v) == (match summary {
                            Some(s) => s,
                            None => Seq::empty(),
                        }),
                        _ => value_text(v) == json_compact(fields["value"@]),
                    }
                } else {
                    match summary {
                        Some(s) => value_text(v) == s,
                        None => value_text(v) == json_compact(v),
                    }
                }
            },
        },
{
}

/// A stored value is a literal of the declared type, unless it is given only relative to something.
pub proof fn stored_value_has_the_declared_type(v: JsonView, datatype: Option<Seq<char>>)
    ensures
        value_literal(v, datatype).value == value_text(v),
        value_literal(v, datatype).datatype == (if v is Object && v->Object_0.dom().contains(
            "relative"@,
        ) && v->Object_0["relative"@] == JsonView::Bool(true) {
            "http://www.w3.org/2001/XMLSchema#string"@
        } else if datatype == Some("number"@) {
            "http://www.w3.org/2001/XMLSchema#decimal"@
        } else if datatype == Some("date"@) {
            "http://www.w3.org/2001/XMLSchema#date"@
        } else if datatype == Some("bool"@) {
            "http://www.w3.org/2001/XMLSchema#boolean"@
        } else {
            "http://www.w3.org/2001/XMLSchema#string"@
        }),
{
}

/// An object has the fields that are listed; of two with one name the later counts.
pub proof fn later_field_of_a_name_counts(fields: Seq<(String, Json)>, field: (String, Json))
    ensures
        object_view(Seq::empty()) == Map::<Seq<char>, JsonView>::empty(),
        object_view(fields.push(field)) == object_view(fields).insert(field.0@, json_view(field.1)),
{
    assert(fields.push(field).subrange(0, fields.len() as int) =~= fields);
}

/// A field of an object is found by its name, nothing else has fields, and only a string is a text.
pub proof fn fields_are_found_by_name(v: JsonView, name: Seq<char>)
    ensures
        v matches JsonView::Object(fields) ==> json_get(v, name) == (if fields.dom().contains(name) {
            Some(fields[name])
        } else {
            None
        }),
        !(v is Object) ==> json_get(v, name) is None,
        json_get_str(v, name) == (if v is Object && v->Object_0.dom().contains(name)
            && v->Object_0[name] is Text {
            Some(v->Object_0[name]->Text_0)
        } else {
            None
        }),
        leaf_id(v) == (if v is Text {
            uuid_spelled(v->Text_0)
        } else {
            None
        }),
{
}

} // verus!
