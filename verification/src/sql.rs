//! The parameterized statements behind the store, and the builder that maps
//! a filter to the one statement shape it selects.
//!
//! The filtered query is the single place with dynamic predicate assembly:
//! a fixed base predicate over the date range, and at most two optional
//! `AND` clauses whose placeholders follow the two range bounds in the
//! order nature, then assignee.

use vstd::prelude::*;
use crate::calendar::Date;
use crate::calendar::date_text_of;
use crate::calendar::format_date;
use crate::categories::NatureOfCase;
use crate::categories::nature_label;
use crate::categories::nature_to_label;

verus! {

/// The statement that creates the case table, with the uniqueness
/// constraint on the natural key.
pub fn case_table_create_sql() -> (r: &'static str)
    ensures
        r@ == "CREATE TABLE IF NOT EXISTS case_table (id INTEGER PRIMARY KEY AUTOINCREMENT, case_no INTEGER NOT NULL, year INTEGER NOT NULL, nature_of_case TEXT NOT NULL, received_from TEXT NOT NULL, date TEXT NOT NULL, time_slot TEXT NOT NULL, party1 TEXT NOT NULL, party2 TEXT NOT NULL, assigned_to TEXT NOT NULL, ndoh_date TEXT, ndoh_time TEXT, disposal_of_case TEXT, connected INTEGER DEFAULT 0, UNIQUE (case_no, year))"@,
{
    "CREATE TABLE IF NOT EXISTS case_table (id INTEGER PRIMARY KEY AUTOINCREMENT, case_no INTEGER NOT NULL, year INTEGER NOT NULL, nature_of_case TEXT NOT NULL, received_from TEXT NOT NULL, date TEXT NOT NULL, time_slot TEXT NOT NULL, party1 TEXT NOT NULL, party2 TEXT NOT NULL, assigned_to TEXT NOT NULL, ndoh_date TEXT, ndoh_time TEXT, disposal_of_case TEXT, connected INTEGER DEFAULT 0, UNIQUE (case_no, year))"
}

/// The statement that creates the registry table with its unique name
/// column.
pub fn assigned_to_create_sql() -> (r: &'static str)
    ensures
        r@ == "CREATE TABLE IF NOT EXISTS assigned_to (id INTEGER PRIMARY KEY AUTOINCREMENT, name TEXT UNIQUE NOT NULL)"@,
{
    "CREATE TABLE IF NOT EXISTS assigned_to (id INTEGER PRIMARY KEY AUTOINCREMENT, name TEXT UNIQUE NOT NULL)"
}

/// The create statement for a case row; intake columns only, in the
/// placeholder order of its nine parameters.
pub fn insert_case_sql() -> (r: &'static str)
    ensures
        r@ == "INSERT INTO case_table (case_no, year, nature_of_case, received_from, date, time_slot, party1, party2, assigned_to) VALUES (?1, ?2, ?3, ?4, ?5, ?6, ?7, ?8, ?9)"@,
{
    "INSERT INTO case_table (case_no, year, nature_of_case, received_from, date, time_slot, party1, party2, assigned_to) VALUES (?1, ?2, ?3, ?4, ?5, ?6, ?7, ?8, ?9)"
}

/// The disposition update statement, coalescing an absent connection
/// marker with the stored one.
pub fn update_case_sql() -> (r: &'static str)
    ensures
        r@ == "UPDATE case_table SET ndoh_date = ?1, ndoh_time = ?2, disposal_of_case = ?3, connected = COALESCE(?4, connected) WHERE case_no = ?5 AND year = ?6"@,
{
    "UPDATE case_table SET ndoh_date = ?1, ndoh_time = ?2, disposal_of_case = ?3, connected = COALESCE(?4, connected) WHERE case_no = ?5 AND year = ?6"
}

/// The "today's docket" selection: intake date or next hearing date equals
/// the one bound day.
pub fn today_query_sql() -> (r: &'static str)
    ensures
        r@ == "SELECT id, case_no, year, nature_of_case, received_from, date, time_slot, party1, party2, assigned_to, ndoh_date, ndoh_time, disposal_of_case, connected FROM case_table WHERE date = ?1 OR ndoh_date = ?1"@,
{
    "SELECT id, case_no, year, nature_of_case, received_from, date, time_slot, party1, party2, assigned_to, ndoh_date, ndoh_time, disposal_of_case, connected FROM case_table WHERE date = ?1 OR ndoh_date = ?1"
}

/// The statement text a filter selects: the base range predicate, plus an
/// `AND` clause per supplied filter, nature before assignee.
pub open spec fn filtered_query_sql_spec(has_nature: bool, has_assigned_to: bool) -> Seq<char> {
    if has_nature && has_assigned_to {
        "SELECT id, case_no, year, nature_of_case, received_from, date, time_slot, party1, party2, assigned_to, ndoh_date, ndoh_time, disposal_of_case, connected FROM case_table WHERE (date BETWEEN ?1 AND ?2 OR ndoh_date BETWEEN ?1 AND ?2) AND nature_of_case = ?3 AND assigned_to = ?4"@
    } else if has_nature {
        "SELECT id, case_no, year, nature_of_case, received_from, date, time_slot, party1, party2, assigned_to, ndoh_date, ndoh_time, disposal_of_case, connected FROM case_table WHERE (date BETWEEN ?1 AND ?2 OR ndoh_date BETWEEN ?1 AND ?2) AND nature_of_case = ?3"@
    } else if has_assigned_to {
        "SELECT id, case_no, year, nature_of_case, received_from, date, time_slot, party1, party2, assigned_to, ndoh_date, ndoh_time, disposal_of_case, connected FROM case_table WHERE (date BETWEEN ?1 AND ?2 OR ndoh_date BETWEEN ?1 AND ?2) AND assigned_to = ?3"@
    } else {
        "SELECT id, case_no, year, nature_of_case, received_from, date, time_slot, party1, party2, assigned_to, ndoh_date, ndoh_time, disposal_of_case, connected FROM case_table WHERE (date BETWEEN ?1 AND ?2 OR ndoh_date BETWEEN ?1 AND ?2)"@
    }
}

/// Select the filtered-query statement shape for the supplied filters.
pub fn filtered_query_sql(has_nature: bool, has_assigned_to: bool) -> (r: &'static str)
    ensures
        r@ == filtered_query_sql_spec(has_nature, has_assigned_to),
{
    if has_nature && has_assigned_to {
        "SELECT id, case_no, year, nature_of_case, received_from, date, time_slot, party1, party2, assigned_to, ndoh_date, ndoh_time, disposal_of_case, connected FROM case_table WHERE (date BETWEEN ?1 AND ?2 OR ndoh_date BETWEEN ?1 AND ?2) AND nature_of_case = ?3 AND assigned_to = ?4"
    } else if has_nature {
        "SELECT id, case_no, year, nature_of_case, received_from, date, time_slot, party1, party2, assigned_to, ndoh_date, ndoh_time, disposal_of_case, connected FROM case_table WHERE (date BETWEEN ?1 AND ?2 OR ndoh_date BETWEEN ?1 AND ?2) AND nature_of_case = ?3"
    } else if has_assigned_to {
        "SELECT id, case_no, year, nature_of_case, received_from, date, time_slot, party1, party2, assigned_to, ndoh_date, ndoh_time, disposal_of_case, connected FROM case_table WHERE (date BETWEEN ?1 AND ?2 OR ndoh_date BETWEEN ?1 AND ?2) AND assigned_to = ?3"
    } else {
        "SELECT id, case_no, year, nature_of_case, received_from, date, time_slot, party1, party2, assigned_to, ndoh_date, ndoh_time, disposal_of_case, connected FROM case_table WHERE (date BETWEEN ?1 AND ?2 OR ndoh_date BETWEEN ?1 AND ?2)"
    }
}

/// Bind values for the filtered query, positionally: the two range bounds
/// in stored date form, then the nature label if filtered, then the
/// assignee name if filtered.
pub fn filtered_query_params(
    start_date: &Date,
    end_date: &Date,
    nature_of_case: &Option<NatureOfCase>,
    assigned_to: &Option<String>,
) -> (r: Vec<String>)
    requires
        start_date.wf(),
        end_date.wf(),
    ensures
        r@.len() == 2 + (if nature_of_case is Some {
            1int
        } else {
            0int
        }) + (if assigned_to is Some {
            1int
        } else {
            0int
        }),
        r@[0]@ == date_text_of(*start_date),
        r@[1]@ == date_text_of(*end_date),
        nature_of_case matches Some(n) ==> r@[2]@ == nature_label(*n),
        assigned_to matches Some(a) ==> r@[r@.len() - 1]@ == a@,
{
    let mut params: Vec<String> = Vec::new();
    params.push(format_date(start_date));
    params.push(format_date(end_date));
    match nature_of_case {
        Some(n) => params.push(nature_to_label(n)),
        None => (),
    }
    match assigned_to {
        Some(a) => params.push(a.clone()),
        None => (),
    }
    params
}

} // verus!
