//! The boundary operations the shell invokes.  Each validates its plain
//! text payload, reads the clock where the contract names the current day,
//! and drives the store; the store itself trusts pre-validated input.

use vstd::prelude::*;
use crate::calendar::Date;
use crate::calendar::days_in_month;
use crate::calendar::epoch_date_value;
use crate::calendar::parse_date;
use crate::calendar::parse_date_spec;
use crate::calendar::parse_time;
use crate::calendar::parse_time_spec;
use crate::categories::disposal_from_label;
use crate::categories::disposal_from_label_spec;
use crate::categories::nature_from_label;
use crate::categories::nature_from_label_spec;
use crate::categories::NatureOfCase;
use crate::store::filtered_cases;
use crate::store::docket_of;
use crate::store::summary_of;
use crate::store::view_of_name;
use crate::store::Case;
use crate::store::CaseQueryResult;
use crate::store::Db;
use crate::store::StoreError;

verus! {

/// The intake payload of a create request, as plain text fields.
pub struct NewCasePayload {
    pub case_no: i32,
    pub year: i32,
    pub nature_of_case: String,
    pub received_from: String,
    pub time_slot: String,
    pub party1: String,
    pub party2: String,
    pub assigned_to: String,
}

/// The payload of a disposition update request.
pub struct UpdatePayload {
    pub case_no: i32,
    pub ndoh_date: String,
    pub ndoh_time: String,
    pub disposal_of_case: String,
    pub connected: Option<i32>,
}

/// The payload of a filtered query request.
pub struct CaseQueryPayload {
    pub nature_of_case: Option<String>,
    pub assigned_to: Option<String>,
    pub start_date: String,
    pub end_date: String,
}

/// The boundary failures, each mapped to the message the shell reports.
#[derive(Clone, Copy, PartialEq, Eq, Structural, Debug)]
pub enum CommandError {
    InvalidNatureOfCase,
    InvalidTimeFormat,
    InvalidDateFormat,
    InvalidDisposalOfCase,
    InvalidStartDate,
    InvalidEndDate,
    InvalidCaseType,
    UniquenessViolation,
}

/// The message text of a boundary failure.
pub open spec fn command_error_text(e: CommandError) -> Seq<char> {
    match e {
        CommandError::InvalidNatureOfCase => "Invalid nature_of_case"@,
        CommandError::InvalidTimeFormat => "Invalid time format"@,
        CommandError::InvalidDateFormat => "Invalid date format"@,
        CommandError::InvalidDisposalOfCase => "Invalid disposal_of_case"@,
        CommandError::InvalidStartDate => "Invalid start_date"@,
        CommandError::InvalidEndDate => "Invalid end_date"@,
        CommandError::InvalidCaseType => "Invalid case type"@,
        CommandError::UniquenessViolation => "A case with this case number and year already exists"@,
    }
}

impl CommandError {
    /// The message the shell shows for this failure.
    pub fn message(&self) -> (r: String)
        ensures
            r@ == command_error_text(*self),
    {
        match self {
            CommandError::InvalidNatureOfCase => String::from_str("Invalid nature_of_case"),
            CommandError::InvalidTimeFormat => String::from_str("Invalid time format"),
            CommandError::InvalidDateFormat => String::from_str("Invalid date format"),
            CommandError::InvalidDisposalOfCase => String::from_str("Invalid disposal_of_case"),
            CommandError::InvalidStartDate => String::from_str("Invalid start_date"),
            CommandError::InvalidEndDate => String::from_str("Invalid end_date"),
            CommandError::InvalidCaseType => String::from_str("Invalid case type"),
            CommandError::UniquenessViolation => String::from_str(
                "A case with this case number and year already exists",
            ),
        }
    }
}

/// Relies on chrono::Local::now and the chrono::Datelike accessors year,
/// month and day: the current local calendar day as plain numbers.  chrono
/// documents the month in 1..=12 and the day in 1..=31 and valid for its
/// month; which day the clock names cannot be promised.
#[verifier::external_body]
fn now_ymd_local() -> (r: (i32, u32, u32))
    ensures
        1 <= r.1 <= 12,
        1 <= r.2 <= 31,
        r.2 as int <= days_in_month(r.0 as int, r.1 as int),
{
    let now = chrono::Local::now();
    (chrono::Datelike::year(&now), chrono::Datelike::month(&now), chrono::Datelike::day(&now))
}

/// The current local date; a clock outside the store's four-digit-year
/// range falls back to the epoch, so the result is always well formed.
pub fn today_local() -> (r: Date)
    ensures
        r.wf(),
{
    let (y, m, d) = now_ymd_local();
    if 0 <= y && y <= 9999 {
        let date = Date { year: y as u32, month: m, day: d };
        proof {
            assert(date.year as int == y as int);
        }
        date
    } else {
        epoch_date_value()
    }
}

/// The outcome of a create command once its payload validated, for the day
/// the clock named: the store create outcome, with the uniqueness failure
/// carried as the boundary error.
pub open spec fn insert_case_command_post(
    pre: Db,
    post: Db,
    payload: NewCasePayload,
    today: Date,
    r: Result<usize, CommandError>,
) -> bool {
    &&& Db::insert_case_post(
        pre,
        post,
        today,
        payload.case_no,
        payload.year,
        nature_from_label_spec(payload.nature_of_case@).unwrap(),
        payload.received_from,
        parse_time_spec(payload.time_slot@).unwrap(),
        payload.party1,
        payload.party2,
        payload.assigned_to,
        match r {
            Ok(id) => Ok(id),
            Err(_) => Err(StoreError::UniquenessViolation),
        },
    )
    &&& (r is Err ==> r == Result::<usize, CommandError>::Err(CommandError::UniquenessViolation))
}

/// Create a case from a plain payload: reject an unknown nature label or a
/// malformed hearing slot before the store is touched, then create the
/// record dated to the current local day.
pub fn insert_case(db: &mut Db, payload: NewCasePayload) -> (r: Result<usize, CommandError>)
    requires
        old(db).wf(),
    ensures
        final(db).wf(),
        nature_from_label_spec(payload.nature_of_case@) is None ==> r == Result::<
            usize,
            CommandError,
        >::Err(CommandError::InvalidNatureOfCase) && *final(db) == *old(db),
        nature_from_label_spec(payload.nature_of_case@) is Some && parse_time_spec(
            payload.time_slot@,
        ) is None ==> r == Result::<usize, CommandError>::Err(CommandError::InvalidTimeFormat)
            && *final(db) == *old(db),
        nature_from_label_spec(payload.nature_of_case@) is Some && parse_time_spec(
            payload.time_slot@,
        ) is Some ==> exists|today: Date|
            today.wf() && #[trigger] insert_case_command_post(
                *old(db),
                *final(db),
                payload,
                today,
                r,
            ),
{
    let nature = match nature_from_label(payload.nature_of_case.as_str()) {
        Some(n) => n,
        None => {
            return Err(CommandError::InvalidNatureOfCase);
        },
    };
    let time_slot = match parse_time(payload.time_slot.as_str()) {
        Some(t) => t,
        None => {
            return Err(CommandError::InvalidTimeFormat);
        },
    };
    let today = today_local();
    let created = db.insert_case(
        today,
        payload.case_no,
        payload.year,
        nature,
        payload.received_from,
        time_slot,
        payload.party1,
        payload.party2,
        payload.assigned_to,
    );
    match created {
        Ok(id) => {
            proof {
                assert(insert_case_command_post(
                    *old(db),
                    *db,
                    payload,
                    today,
                    Result::<usize, CommandError>::Ok(id),
                ));
            }
            Ok(id)
        },
        Err(StoreError::UniquenessViolation) => {
            proof {
                assert(insert_case_command_post(
                    *old(db),
                    *db,
                    payload,
                    today,
                    Result::<usize, CommandError>::Err(CommandError::UniquenessViolation),
                ));
            }
            Err(CommandError::UniquenessViolation)
        },
    }
}

/// The outcome of an update command once its payload validated, for the
/// filing year the clock named: the store update outcome, with the
/// affected-row count handed through.
pub open spec fn update_case_command_post(
    pre: Db,
    post: Db,
    payload: UpdatePayload,
    year: i32,
    r: Result<usize, CommandError>,
) -> bool {
    &&& r is Ok
    &&& Db::update_case_details_post(
        pre,
        post,
        payload.case_no,
        year,
        parse_date_spec(payload.ndoh_date@).unwrap(),
        parse_time_spec(payload.ndoh_time@).unwrap(),
        disposal_from_label_spec(payload.disposal_of_case@).unwrap(),
        payload.connected,
        r.unwrap(),
    )
}

/// Record a disposition from a plain payload: reject a malformed hearing
/// date or time or an unknown disposal label before the store is touched,
/// then update the record filed under the current year.
pub fn update_case(db: &mut Db, payload: UpdatePayload) -> (r: Result<usize, CommandError>)
    requires
        old(db).wf(),
    ensures
        final(db).wf(),
        parse_date_spec(payload.ndoh_date@) is None ==> r == Result::<usize, CommandError>::Err(
            CommandError::InvalidDateFormat,
        ) && *final(db) == *old(db),
        parse_date_spec(payload.ndoh_date@) is Some && parse_time_spec(payload.ndoh_time@) is None
            ==> r == Result::<usize, CommandError>::Err(CommandError::InvalidTimeFormat)
            && *final(db) == *old(db),
        parse_date_spec(payload.ndoh_date@) is Some && parse_time_spec(payload.ndoh_time@) is Some
            && disposal_from_label_spec(payload.disposal_of_case@) is None ==> r == Result::<
            usize,
            CommandError,
        >::Err(CommandError::InvalidDisposalOfCase) && *final(db) == *old(db),
        parse_date_spec(payload.ndoh_date@) is Some && parse_time_spec(payload.ndoh_time@) is Some
            && disposal_from_label_spec(payload.disposal_of_case@) is Some ==> exists|year: i32|
            0 <= year <= 9999 && #[trigger] update_case_command_post(
                *old(db),
                *final(db),
                payload,
                year,
                r,
            ),
{
    let ndoh_date = match parse_date(payload.ndoh_date.as_str()) {
        Some(d) => d,
        None => {
            return Err(CommandError::InvalidDateFormat);
        },
    };
    let ndoh_time = match parse_time(payload.ndoh_time.as_str()) {
        Some(t) => t,
        None => {
            return Err(CommandError::InvalidTimeFormat);
        },
    };
    let disposal = match disposal_from_label(payload.disposal_of_case.as_str()) {
        Some(d) => d,
        None => {
            return Err(CommandError::InvalidDisposalOfCase);
        },
    };
    let today = today_local();
    let year: i32 = today.year as i32;
    let affected = db.update_case_details(
        payload.case_no,
        year,
        ndoh_date,
        ndoh_time,
        disposal,
        payload.connected,
    );
    proof {
        assert(update_case_command_post(
            *old(db),
            *db,
            payload,
            year,
            Result::<usize, CommandError>::Ok(affected),
        ));
    }
    Ok(affected)
}

/// Fetch the docket of the current local day.
pub fn get_todays_cases(db: &Db) -> (r: Vec<Case>)
    ensures
        exists|today: Date| today.wf() && r@ == #[trigger] docket_of(db.cases@, today),
{
    let today = today_local();
    db.get_cases_for_today(today)
}

/// The nature filter a query payload names: none when absent or empty, the
/// named category otherwise.  Meaningful once the label validated.
pub open spec fn query_nature_filter(nature_of_case: Option<String>) -> Option<NatureOfCase> {
    match nature_of_case {
        Some(v) => if v@.len() == 0 {
            None
        } else {
            nature_from_label_spec(v@)
        },
        None => None,
    }
}

/// Whether a query payload names a nonempty nature label outside the fixed
/// enumeration.
pub open spec fn query_nature_invalid(nature_of_case: Option<String>) -> bool {
    match nature_of_case {
        Some(v) => v@.len() > 0 && nature_from_label_spec(v@) is None,
        None => false,
    }
}

/// Run a filtered range query from a plain payload: reject malformed range
/// bounds or an unknown nonempty case-type label, then hand back the
/// matching cases and their outcome summary.
pub fn query_cases_with_filters(db: &Db, payload: CaseQueryPayload) -> (r: Result<
    CaseQueryResult,
    CommandError,
>)
    ensures
        parse_date_spec(payload.start_date@) is None ==> (r matches Err(e) && e
            == CommandError::InvalidStartDate),
        parse_date_spec(payload.start_date@) is Some && parse_date_spec(payload.end_date@) is None
            ==> (r matches Err(e) && e == CommandError::InvalidEndDate),
        parse_date_spec(payload.start_date@) is Some && parse_date_spec(payload.end_date@) is Some
            && query_nature_invalid(payload.nature_of_case) ==> (r matches Err(e) && e
            == CommandError::InvalidCaseType),
        parse_date_spec(payload.start_date@) is Some && parse_date_spec(payload.end_date@) is Some
            && !query_nature_invalid(payload.nature_of_case) ==> (r matches Ok(q) && q.cases@
            == filtered_cases(
            db.cases@,
            query_nature_filter(payload.nature_of_case),
            view_of_name(payload.assigned_to),
            parse_date_spec(payload.start_date@).unwrap(),
            parse_date_spec(payload.end_date@).unwrap(),
        ) && q.summary == summary_of(q.cases@)),
{
    let start_date = match parse_date(payload.start_date.as_str()) {
        Some(d) => d,
        None => {
            return Err(CommandError::InvalidStartDate);
        },
    };
    let end_date = match parse_date(payload.end_date.as_str()) {
        Some(d) => d,
        None => {
            return Err(CommandError::InvalidEndDate);
        },
    };
    let nature_filter: Option<NatureOfCase> = match &payload.nature_of_case {
        Some(v) => {
            if v.as_str().is_empty() {
                None
            } else {
                match nature_from_label(v.as_str()) {
                    Some(n) => Some(n),
                    None => {
                        return Err(CommandError::InvalidCaseType);
                    },
                }
            }
        },
        None => None,
    };
    let query_result = db.query_cases_filtered(
        nature_filter,
        payload.assigned_to,
        start_date,
        end_date,
    );
    Ok(CaseQueryResult { cases: query_result.0, summary: query_result.1 })
}

} // verus!
