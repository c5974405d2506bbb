//! Decoding raw stored rows into case records.
//!
//! The "today" read path trusts its rows to be fresh and fails hard on a
//! malformed date or time; the historical filtered-query path tolerates
//! legacy rows and falls back to documented defaults instead.

use vstd::prelude::*;
use crate::calendar::Date;
use crate::calendar::Time;
use crate::calendar::epoch_date;
use crate::calendar::epoch_date_value;
use crate::calendar::midnight;
use crate::calendar::midnight_value;
use crate::calendar::parse_date;
use crate::calendar::parse_date_spec;
use crate::calendar::parse_time;
use crate::calendar::parse_time_spec;
use crate::categories::DisposalOfCase;
use crate::categories::NatureOfCase;
use crate::categories::disposal_from_label;
use crate::categories::disposal_from_label_spec;
use crate::categories::nature_from_label;
use crate::categories::nature_from_label_spec;
use crate::store::Case;

verus! {

/// A row as the on-disk engine hands it over: every column still the stored
/// text or integer, before any validation.
pub struct RawCaseRow {
    pub id: usize,
    pub case_no: i32,
    pub year: i32,
    pub nature_of_case: String,
    pub received_from: String,
    pub date: String,
    pub time_slot: String,
    pub party1: String,
    pub party2: String,
    pub assigned_to: String,
    pub ndoh_date: Option<String>,
    pub ndoh_time: Option<String>,
    pub disposal_of_case: Option<String>,
    pub connected: i32,
}

/// Why a strict decode rejected a fresh row.
#[derive(Clone, Copy, PartialEq, Eq, Structural, Debug)]
pub enum DecodeError {
    BadDate,
    BadTimeSlot,
}

/// A stored date read leniently: the documented epoch fallback when the
/// text does not name a date.
pub open spec fn lenient_date(s: Seq<char>) -> Date {
    match parse_date_spec(s) {
        Some(d) => d,
        None => epoch_date(),
    }
}

/// A stored time read leniently: the documented midnight fallback when the
/// text does not name a time.
pub open spec fn lenient_time(s: Seq<char>) -> Time {
    match parse_time_spec(s) {
        Some(t) => t,
        None => midnight(),
    }
}

/// A stored nature label read leniently: the unknown category when the
/// label matches no case type.
pub open spec fn lenient_nature(s: Seq<char>) -> NatureOfCase {
    match nature_from_label_spec(s) {
        Some(n) => n,
        None => NatureOfCase::Unknown,
    }
}

/// An optional stored date: a column that is absent or unreadable decodes
/// to no value, never to a fallback.
pub open spec fn optional_date(s: Option<String>) -> Option<Date> {
    match s {
        Some(text) => parse_date_spec(text@),
        None => None,
    }
}

pub open spec fn optional_time(s: Option<String>) -> Option<Time> {
    match s {
        Some(text) => parse_time_spec(text@),
        None => None,
    }
}

pub open spec fn optional_disposal(s: Option<String>) -> Option<DisposalOfCase> {
    match s {
        Some(text) => disposal_from_label_spec(text@),
        None => None,
    }
}

/// The record a lenient decode yields for a row.
pub open spec fn lenient_case_of(row: RawCaseRow) -> Case {
    Case {
        id: row.id,
        case_no: row.case_no,
        year: row.year,
        nature_of_case: lenient_nature(row.nature_of_case@),
        received_from: row.received_from,
        date: lenient_date(row.date@),
        time_slot: lenient_time(row.time_slot@),
        party1: row.party1,
        party2: row.party2,
        assigned_to: row.assigned_to,
        ndoh_date: optional_date(row.ndoh_date),
        ndoh_time: optional_time(row.ndoh_time),
        disposal_of_case: optional_disposal(row.disposal_of_case),
        connected: row.connected,
    }
}

/// What a strict decode yields: the record, or the first failure among the
/// intake date and the hearing slot.  Optional columns stay lenient even
/// here, as absence is their normal state.
pub open spec fn strict_case_of(row: RawCaseRow) -> Result<Case, DecodeError> {
    if parse_date_spec(row.date@) is None {
        Err(DecodeError::BadDate)
    } else if parse_time_spec(row.time_slot@) is None {
        Err(DecodeError::BadTimeSlot)
    } else {
        Ok(lenient_case_of(row))
    }
}

fn decode_optional_date(s: &Option<String>) -> (r: Option<Date>)
    ensures
        r == optional_date(*s),
{
    match s {
        Some(text) => parse_date(text.as_str()),
        None => None,
    }
}

fn decode_optional_time(s: &Option<String>) -> (r: Option<Time>)
    ensures
        r == optional_time(*s),
{
    match s {
        Some(text) => parse_time(text.as_str()),
        None => None,
    }
}

fn decode_optional_disposal(s: &Option<String>) -> (r: Option<DisposalOfCase>)
    ensures
        r == optional_disposal(*s),
{
    match s {
        Some(text) => disposal_from_label(text.as_str()),
        None => None,
    }
}

/// Decode a historical row, tolerating malformed stored values: an
/// unreadable date, time or nature label falls back to its documented
/// default rather than aborting the query that read it.
pub fn decode_case_lenient(row: RawCaseRow) -> (r: Case)
    ensures
        r == lenient_case_of(row),
        r.wf(),
{
    let date = match parse_date(row.date.as_str()) {
        Some(d) => d,
        None => epoch_date_value(),
    };
    let time_slot = match parse_time(row.time_slot.as_str()) {
        Some(t) => t,
        None => midnight_value(),
    };
    let nature_of_case = match nature_from_label(row.nature_of_case.as_str()) {
        Some(n) => n,
        None => NatureOfCase::Unknown,
    };
    let ndoh_date = decode_optional_date(&row.ndoh_date);
    let ndoh_time = decode_optional_time(&row.ndoh_time);
    let disposal_of_case = decode_optional_disposal(&row.disposal_of_case);
    Case {
        id: row.id,
        case_no: row.case_no,
        year: row.year,
        nature_of_case,
        received_from: row.received_from,
        date,
        time_slot,
        party1: row.party1,
        party2: row.party2,
        assigned_to: row.assigned_to,
        ndoh_date,
        ndoh_time,
        disposal_of_case,
        connected: row.connected,
    }
}

/// Decode a fresh "today" row, failing hard on a malformed intake date or
/// hearing slot: such rows are expected well formed, and a failure here is
/// a fault, not data to tolerate.
pub fn decode_case_strict(row: RawCaseRow) -> (r: Result<Case, DecodeError>)
    ensures
        r == strict_case_of(row),
        r matches Ok(c) ==> c.wf(),
{
    if parse_date(row.date.as_str()).is_none() {
        return Err(DecodeError::BadDate);
    }
    if parse_time(row.time_slot.as_str()).is_none() {
        return Err(DecodeError::BadTimeSlot);
    }
    Ok(decode_case_lenient(row))
}

} // verus!
