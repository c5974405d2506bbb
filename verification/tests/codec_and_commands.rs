use mediation_cases::calendar::Date;
use mediation_cases::calendar::Time;
use mediation_cases::calendar::format_date;
use mediation_cases::calendar::format_time;
use mediation_cases::calendar::parse_date;
use mediation_cases::calendar::parse_time;
use mediation_cases::categories::DisposalOfCase;
use mediation_cases::categories::NatureOfCase;
use mediation_cases::categories::disposal_from_label;
use mediation_cases::categories::disposal_to_label;
use mediation_cases::categories::nature_from_label;
use mediation_cases::categories::nature_to_label;
use mediation_cases::commands::CaseQueryPayload;
use mediation_cases::commands::CommandError;
use mediation_cases::commands::NewCasePayload;
use mediation_cases::commands::UpdatePayload;
use mediation_cases::commands::get_todays_cases;
use mediation_cases::commands::insert_case;
use mediation_cases::commands::query_cases_with_filters;
use mediation_cases::commands::today_local;
use mediation_cases::commands::update_case;
use mediation_cases::decode::DecodeError;
use mediation_cases::decode::RawCaseRow;
use mediation_cases::decode::decode_case_lenient;
use mediation_cases::decode::decode_case_strict;
use mediation_cases::paths::DbPathCell;
use mediation_cases::paths::get_db_path;
use mediation_cases::paths::init_db_path;
use mediation_cases::sql::filtered_query_params;
use mediation_cases::sql::filtered_query_sql;
use mediation_cases::store::Db;
use mediation_cases::text::str_eq;

fn raw_row() -> RawCaseRow {
    RawCaseRow {
        id: 3,
        case_no: 42,
        year: 2019,
        nature_of_case: "CivilRecovery".to_string(),
        received_from: "High Court".to_string(),
        date: "2019-03-08".to_string(),
        time_slot: "10:30:00".to_string(),
        party1: "A".to_string(),
        party2: "B".to_string(),
        assigned_to: "Sh_O_P_Gupta".to_string(),
        ndoh_date: Some("2019-04-01".to_string()),
        ndoh_time: Some("11:00:00".to_string()),
        disposal_of_case: Some("Settled".to_string()),
        connected: 0,
    }
}

#[test]
fn date_codec_round_trips() {
    assert_eq!(parse_date("2024-02-29"), Some(Date { year: 2024, month: 2, day: 29 }));
    assert_eq!(parse_date("2023-02-29"), None);
    assert_eq!(parse_date("2024-13-01"), None);
    assert_eq!(parse_date("2024-00-10"), None);
    assert_eq!(parse_date("2024-1-1"), None);
    assert_eq!(parse_date("garbage"), None);
    let d = Date { year: 2024, month: 2, day: 29 };
    assert_eq!(format_date(&d), "2024-02-29");
    assert_eq!(parse_date(&format_date(&d)), Some(d));
    assert_eq!(format_date(&Date { year: 7, month: 1, day: 2 }), "0007-01-02");
}

#[test]
fn time_codec_round_trips() {
    assert_eq!(parse_time("10:30"), Some(Time { hour: 10, minute: 30, second: 0 }));
    assert_eq!(parse_time("10:30:45"), Some(Time { hour: 10, minute: 30, second: 45 }));
    assert_eq!(parse_time("24:00"), None);
    assert_eq!(parse_time("10:61"), None);
    assert_eq!(parse_time("1030"), None);
    let t = Time { hour: 9, minute: 5, second: 0 };
    assert_eq!(format_time(&t), "09:05:00");
    assert_eq!(parse_time(&format_time(&t)), Some(t));
}

#[test]
fn category_labels_round_trip() {
    assert_eq!(disposal_to_label(&DisposalOfCase::NotFitForMediation), "NotFitForMediation");
    assert_eq!(disposal_from_label("NotFitForMediation"), Some(DisposalOfCase::NotFitForMediation));
    assert_eq!(disposal_from_label("settled"), None);
    assert_eq!(nature_to_label(&NatureOfCase::MotorAccidentClaim), "MotorAccidentClaim");
    assert_eq!(nature_from_label("MotorAccidentClaim"), Some(NatureOfCase::MotorAccidentClaim));
    assert_eq!(nature_from_label(""), None);
    assert_eq!(nature_to_label(&NatureOfCase::Unknown), "");
    assert!(str_eq("abc", "abc"));
    assert!(!str_eq("abc", "abd"));
}

#[test]
fn lenient_decode_falls_back_on_bad_fields() {
    let mut row = raw_row();
    row.date = "not-a-date".to_string();
    row.time_slot = "soon".to_string();
    row.nature_of_case = "SomethingElse".to_string();
    row.ndoh_date = Some("also-bad".to_string());
    let case = decode_case_lenient(row);
    assert_eq!(case.date, Date { year: 1970, month: 1, day: 1 });
    assert_eq!(case.time_slot, Time { hour: 0, minute: 0, second: 0 });
    assert_eq!(case.nature_of_case, NatureOfCase::Unknown);
    assert_eq!(case.ndoh_date, None);
    assert_eq!(case.disposal_of_case, Some(DisposalOfCase::Settled));
    assert_eq!(case.case_no, 42);
}

#[test]
fn lenient_decode_keeps_good_fields() {
    let case = decode_case_lenient(raw_row());
    assert_eq!(case.date, Date { year: 2019, month: 3, day: 8 });
    assert_eq!(case.time_slot, Time { hour: 10, minute: 30, second: 0 });
    assert_eq!(case.nature_of_case, NatureOfCase::CivilRecovery);
    assert_eq!(case.ndoh_date, Some(Date { year: 2019, month: 4, day: 1 }));
    assert_eq!(case.ndoh_time, Some(Time { hour: 11, minute: 0, second: 0 }));
}

#[test]
fn strict_decode_fails_hard_on_bad_date_or_time() {
    let mut row = raw_row();
    row.date = "2019-02-30".to_string();
    assert_eq!(decode_case_strict(row).err(), Some(DecodeError::BadDate));
    let mut row = raw_row();
    row.time_slot = "25:00".to_string();
    assert_eq!(decode_case_strict(row).err(), Some(DecodeError::BadTimeSlot));
    assert!(decode_case_strict(raw_row()).is_ok());
}

#[test]
fn filtered_statement_shapes_and_params() {
    assert!(filtered_query_sql(false, false).ends_with("ndoh_date BETWEEN ?1 AND ?2)"));
    assert!(filtered_query_sql(true, false).ends_with("AND nature_of_case = ?3"));
    assert!(filtered_query_sql(false, true).ends_with("AND assigned_to = ?3"));
    assert!(filtered_query_sql(true, true).ends_with("AND nature_of_case = ?3 AND assigned_to = ?4"));
    let params = filtered_query_params(
        &Date { year: 2024, month: 1, day: 1 },
        &Date { year: 2024, month: 12, day: 31 },
        &Some(NatureOfCase::CivilRecovery),
        &Some("Sh_O_P_Gupta".to_string()),
    );
    assert_eq!(params, vec!["2024-01-01", "2024-12-31", "CivilRecovery", "Sh_O_P_Gupta"]);
    let bare = filtered_query_params(
        &Date { year: 2024, month: 1, day: 1 },
        &Date { year: 2024, month: 12, day: 31 },
        &None,
        &None,
    );
    assert_eq!(bare, vec!["2024-01-01", "2024-12-31"]);
}

fn new_case_payload(case_no: i32, nature: &str, time_slot: &str) -> NewCasePayload {
    NewCasePayload {
        case_no,
        year: 2024,
        nature_of_case: nature.to_string(),
        received_from: "District Court".to_string(),
        time_slot: time_slot.to_string(),
        party1: "Party One".to_string(),
        party2: "Party Two".to_string(),
        assigned_to: "Sh_O_P_Gupta".to_string(),
    }
}

#[test]
fn insert_command_validates_then_creates() {
    let mut db = Db::init();
    let bad_nature = insert_case(&mut db, new_case_payload(1, "NoSuchNature", "10:30"));
    assert_eq!(bad_nature, Err(CommandError::InvalidNatureOfCase));
    assert_eq!(db.cases.len(), 0);
    let bad_time = insert_case(&mut db, new_case_payload(1, "CivilRecovery", "later"));
    assert_eq!(bad_time, Err(CommandError::InvalidTimeFormat));
    assert_eq!(db.cases.len(), 0);
    let created = insert_case(&mut db, new_case_payload(1, "CivilRecovery", "10:30"));
    assert_eq!(created, Ok(0));
    assert_eq!(db.cases.len(), 1);
    // The intake date is the current local day, so the docket shows it.
    let docket = get_todays_cases(&db);
    assert_eq!(docket.len(), 1);
    assert_eq!(docket[0].case_no, 1);
    let duplicate = insert_case(&mut db, new_case_payload(1, "CivilRecovery", "10:30"));
    assert_eq!(duplicate, Err(CommandError::UniquenessViolation));
    assert_eq!(
        duplicate.unwrap_err().message(),
        "A case with this case number and year already exists"
    );
}

#[test]
fn update_command_validates_then_updates() {
    let mut db = Db::init();
    let payload = NewCasePayload {
        case_no: 9,
        year: today_local().year as i32,
        nature_of_case: "CriminalMatter".to_string(),
        received_from: "District Court".to_string(),
        time_slot: "10:30".to_string(),
        party1: "Party One".to_string(),
        party2: "Party Two".to_string(),
        assigned_to: "Sh_O_P_Gupta".to_string(),
    };
    insert_case(&mut db, payload).unwrap();
    let bad_date = update_case(&mut db, UpdatePayload {
        case_no: 9,
        ndoh_date: "bad".to_string(),
        ndoh_time: "11:00".to_string(),
        disposal_of_case: "Settled".to_string(),
        connected: None,
    });
    assert_eq!(bad_date, Err(CommandError::InvalidDateFormat));
    let bad_time = update_case(&mut db, UpdatePayload {
        case_no: 9,
        ndoh_date: "2024-06-01".to_string(),
        ndoh_time: "nope".to_string(),
        disposal_of_case: "Settled".to_string(),
        connected: None,
    });
    assert_eq!(bad_time, Err(CommandError::InvalidTimeFormat));
    let bad_disposal = update_case(&mut db, UpdatePayload {
        case_no: 9,
        ndoh_date: "2024-06-01".to_string(),
        ndoh_time: "11:00".to_string(),
        disposal_of_case: "Resolved".to_string(),
        connected: None,
    });
    assert_eq!(bad_disposal, Err(CommandError::InvalidDisposalOfCase));
    let updated = update_case(&mut db, UpdatePayload {
        case_no: 9,
        ndoh_date: "2024-06-01".to_string(),
        ndoh_time: "11:00".to_string(),
        disposal_of_case: "Settled".to_string(),
        connected: Some(1),
    });
    // The case was filed under the current year, so exactly one row changes.
    assert_eq!(updated, Ok(1));
    assert_eq!(db.cases[0].disposal_of_case, Some(DisposalOfCase::Settled));
    assert_eq!(db.cases[0].connected, 1);
}

fn query_payload(nature: Option<&str>, assigned: Option<&str>, start: &str, end: &str) -> CaseQueryPayload {
    CaseQueryPayload {
        nature_of_case: nature.map(|s| s.to_string()),
        assigned_to: assigned.map(|s| s.to_string()),
        start_date: start.to_string(),
        end_date: end.to_string(),
    }
}

#[test]
fn query_command_validates_then_queries() {
    let mut db = Db::init();
    insert_case(&mut db, new_case_payload(1, "CivilRecovery", "10:30")).unwrap();
    let bad_start = query_cases_with_filters(&db, query_payload(None, None, "soon", "2024-12-31"));
    assert_eq!(bad_start.err(), Some(CommandError::InvalidStartDate));
    let bad_end = query_cases_with_filters(&db, query_payload(None, None, "2024-01-01", "eventually"));
    assert_eq!(bad_end.err(), Some(CommandError::InvalidEndDate));
    let bad_type = query_cases_with_filters(
        &db,
        query_payload(Some("NoSuchNature"), None, "2024-01-01", "2024-12-31"),
    );
    assert_eq!(bad_type.err(), Some(CommandError::InvalidCaseType));
    // An empty nature label means "no nature filter", not an error.
    let today = today_local();
    let start = format!("{:04}-01-01", today.year);
    let end = format!("{:04}-12-31", today.year);
    let all = query_cases_with_filters(&db, query_payload(Some(""), None, &start, &end)).unwrap();
    assert_eq!(all.cases.len(), 1);
    assert_eq!(all.summary.settled + all.summary.not_settled + all.summary.not_fit + all.summary.pending, 0);
    let miss = query_cases_with_filters(
        &db,
        query_payload(Some("DivorcePetition"), None, &start, &end),
    ).unwrap();
    assert_eq!(miss.cases.len(), 0);
}

#[test]
fn today_local_names_a_real_day() {
    let today = today_local();
    assert!(today.is_valid());
    // The stored text form of today must read back as the same day.
    assert_eq!(parse_date(&format_date(&today)), Some(today));
}

#[test]
fn db_path_cell_sets_once() {
    let mut cell = DbPathCell::new();
    init_db_path(&mut cell, "/tmp/cases.db".to_string());
    assert_eq!(get_db_path(&cell).as_str(), "/tmp/cases.db");
    init_db_path(&mut cell, "/elsewhere/cases.db".to_string());
    assert_eq!(get_db_path(&cell).as_str(), "/tmp/cases.db");
}
