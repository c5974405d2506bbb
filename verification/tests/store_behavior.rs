use mediation_cases::calendar::Date;
use mediation_cases::calendar::Time;
use mediation_cases::categories::DisposalOfCase;
use mediation_cases::categories::NatureOfCase;
use mediation_cases::store::Db;
use mediation_cases::store::StoreError;
use mediation_cases::store::summarize;

fn day(year: u32, month: u32, day: u32) -> Date {
    Date { year, month, day }
}

fn slot(hour: u32, minute: u32) -> Time {
    Time { hour, minute, second: 0 }
}

fn create(
    db: &mut Db,
    today: Date,
    case_no: i32,
    year: i32,
    nature: NatureOfCase,
    assigned_to: &str,
) -> Result<usize, StoreError> {
    db.insert_case(
        today,
        case_no,
        year,
        nature,
        "District Court".to_string(),
        slot(10, 30),
        "Party One".to_string(),
        "Party Two".to_string(),
        assigned_to.to_string(),
    )
}

#[test]
fn duplicate_natural_key_rejected() {
    let mut db = Db::init();
    let first = create(&mut db, day(2024, 5, 10), 101, 2024, NatureOfCase::CivilRecovery, "Sh_O_P_Gupta");
    assert_eq!(first, Ok(0));
    let second = create(&mut db, day(2024, 5, 11), 101, 2024, NatureOfCase::DivorcePetition, "Sh_O_P_Gupta");
    assert_eq!(second, Err(StoreError::UniquenessViolation));
    assert_eq!(db.cases.len(), 1);
    let other_year = create(&mut db, day(2024, 5, 11), 101, 2025, NatureOfCase::CivilRecovery, "Sh_O_P_Gupta");
    assert_eq!(other_year, Ok(1));
    assert_eq!(db.cases.len(), 2);
}

#[test]
fn update_existing_case_affects_one_row() {
    let mut db = Db::init();
    create(&mut db, day(2024, 5, 10), 7, 2024, NatureOfCase::CriminalMatter, "Sh_R_B_Singh").unwrap();
    let affected = db.update_case_details(
        7,
        2024,
        day(2024, 6, 1),
        slot(11, 0),
        DisposalOfCase::Settled,
        None,
    );
    assert_eq!(affected, 1);
    let case = &db.cases[0];
    assert_eq!(case.ndoh_date, Some(day(2024, 6, 1)));
    assert_eq!(case.ndoh_time, Some(slot(11, 0)));
    assert_eq!(case.disposal_of_case, Some(DisposalOfCase::Settled));
}

#[test]
fn update_missing_case_affects_nothing() {
    let mut db = Db::init();
    create(&mut db, day(2024, 5, 10), 7, 2024, NatureOfCase::CriminalMatter, "Sh_R_B_Singh").unwrap();
    let affected = db.update_case_details(
        99,
        2024,
        day(2024, 6, 1),
        slot(11, 0),
        DisposalOfCase::Pending,
        Some(3),
    );
    assert_eq!(affected, 0);
    let case = &db.cases[0];
    assert_eq!(case.ndoh_date, None);
    assert_eq!(case.disposal_of_case, None);
    assert_eq!(case.connected, 0);
    // The same case number filed under another year is out of the update's scope.
    let other_year = db.update_case_details(
        7,
        2023,
        day(2024, 6, 1),
        slot(11, 0),
        DisposalOfCase::Pending,
        None,
    );
    assert_eq!(other_year, 0);
}

#[test]
fn connected_marker_coalesces() {
    let mut db = Db::init();
    create(&mut db, day(2024, 5, 10), 7, 2024, NatureOfCase::ChequeBounce, "Ms_Kavita_Kapil").unwrap();
    db.update_case_details(7, 2024, day(2024, 6, 1), slot(11, 0), DisposalOfCase::Pending, Some(5));
    assert_eq!(db.cases[0].connected, 5);
    // Omitting the marker preserves the stored value.
    db.update_case_details(7, 2024, day(2024, 6, 8), slot(12, 0), DisposalOfCase::Settled, None);
    assert_eq!(db.cases[0].connected, 5);
    assert_eq!(db.cases[0].ndoh_date, Some(day(2024, 6, 8)));
    // Supplying it overwrites.
    db.update_case_details(7, 2024, day(2024, 6, 9), slot(9, 0), DisposalOfCase::Settled, Some(2));
    assert_eq!(db.cases[0].connected, 2);
}

#[test]
fn todays_docket_selects_fresh_and_adjourned() {
    let mut db = Db::init();
    let today = day(2024, 5, 10);
    // Created today.
    create(&mut db, today, 1, 2024, NatureOfCase::CivilRecovery, "Sh_O_P_Gupta").unwrap();
    // Created earlier, adjourned to today.
    create(&mut db, day(2024, 4, 1), 2, 2024, NatureOfCase::PropertyDispute, "Sh_O_P_Gupta").unwrap();
    db.update_case_details(2, 2024, today, slot(14, 0), DisposalOfCase::Pending, None);
    // Neither date is today.
    create(&mut db, day(2024, 4, 2), 3, 2024, NatureOfCase::CriminalMatter, "Sh_O_P_Gupta").unwrap();
    let docket = db.get_cases_for_today(today);
    assert_eq!(docket.len(), 2);
    assert_eq!(docket[0].case_no, 1);
    assert_eq!(docket[1].case_no, 2);
}

#[test]
fn filtered_query_by_range_and_summary() {
    let mut db = Db::init();
    create(&mut db, day(2024, 2, 1), 1, 2024, NatureOfCase::CivilRecovery, "Sh_O_P_Gupta").unwrap();
    create(&mut db, day(2024, 7, 15), 2, 2024, NatureOfCase::DivorcePetition, "Ms_Neeru_Nagpal").unwrap();
    create(&mut db, day(2023, 3, 3), 3, 2023, NatureOfCase::CivilRecovery, "Sh_O_P_Gupta").unwrap();
    // Out of range by intake, pulled in by its next hearing date.
    create(&mut db, day(2023, 12, 20), 4, 2023, NatureOfCase::CriminalMatter, "Sh_O_P_Gupta").unwrap();
    db.update_case_details(4, 2023, day(2024, 1, 5), slot(10, 0), DisposalOfCase::NotSettled, None);
    db.update_case_details(1, 2024, day(2024, 8, 1), slot(10, 0), DisposalOfCase::Settled, None);

    let (cases, summary) = db.query_cases_filtered(None, None, day(2024, 1, 1), day(2024, 12, 31));
    assert_eq!(cases.len(), 3);
    assert_eq!(cases[0].case_no, 1);
    assert_eq!(cases[1].case_no, 2);
    assert_eq!(cases[2].case_no, 4);
    // One settled, one not settled, one with no disposal at all.
    assert_eq!(summary.settled, 1);
    assert_eq!(summary.not_settled, 1);
    assert_eq!(summary.not_fit, 0);
    assert_eq!(summary.pending, 0);
    let with_disposal = cases.iter().filter(|c| c.disposal_of_case.is_some()).count();
    assert_eq!(summary.settled + summary.not_settled + summary.not_fit + summary.pending, with_disposal);
}

#[test]
fn filtered_query_with_nature_and_assignee() {
    let mut db = Db::init();
    create(&mut db, day(2024, 2, 1), 1, 2024, NatureOfCase::CivilRecovery, "Sh_O_P_Gupta").unwrap();
    create(&mut db, day(2024, 3, 1), 2, 2024, NatureOfCase::CivilRecovery, "Ms_Neeru_Nagpal").unwrap();
    create(&mut db, day(2024, 4, 1), 3, 2024, NatureOfCase::DivorcePetition, "Sh_O_P_Gupta").unwrap();
    let (by_nature, _) = db.query_cases_filtered(
        Some(NatureOfCase::CivilRecovery),
        None,
        day(2024, 1, 1),
        day(2024, 12, 31),
    );
    assert_eq!(by_nature.len(), 2);
    let (by_both, _) = db.query_cases_filtered(
        Some(NatureOfCase::CivilRecovery),
        Some("Sh_O_P_Gupta".to_string()),
        day(2024, 1, 1),
        day(2024, 12, 31),
    );
    assert_eq!(by_both.len(), 1);
    assert_eq!(by_both[0].case_no, 1);
}

#[test]
fn summary_of_empty_query_is_zero() {
    let db = Db::init();
    let (cases, summary) = db.query_cases_filtered(None, None, day(2024, 1, 1), day(2024, 12, 31));
    assert!(cases.is_empty());
    assert_eq!(summary.settled, 0);
    assert_eq!(summary.not_settled, 0);
    assert_eq!(summary.not_fit, 0);
    assert_eq!(summary.pending, 0);
}

#[test]
fn summarize_counts_each_bucket() {
    let mut db = Db::init();
    for (case_no, disposal) in [
        (1, Some(DisposalOfCase::Settled)),
        (2, Some(DisposalOfCase::Settled)),
        (3, Some(DisposalOfCase::NotSettled)),
        (4, Some(DisposalOfCase::NotFitForMediation)),
        (5, Some(DisposalOfCase::Pending)),
        (6, None),
    ] {
        create(&mut db, day(2024, 5, 1), case_no, 2024, NatureOfCase::Unknown, "Sh_O_P_Gupta").unwrap();
        if let Some(d) = disposal {
            db.update_case_details(case_no, 2024, day(2024, 6, 1), slot(10, 0), d, None);
        }
    }
    let summary = summarize(&db.cases);
    assert_eq!(summary.settled, 2);
    assert_eq!(summary.not_settled, 1);
    assert_eq!(summary.not_fit, 1);
    assert_eq!(summary.pending, 1);
}

#[test]
fn registry_seeded_and_idempotent() {
    let mut db = Db::init();
    let names = db.get_assigned_to_list();
    assert_eq!(names.len(), 25);
    assert!(names.iter().any(|n| n.as_str() == "Judge_In_Charge"));
    assert!(names.iter().any(|n| n.as_str() == "Ms_Urmila_Yadav"));
    // Adding a present name changes nothing.
    db.add_assigned_to("Judge_In_Charge".to_string());
    assert_eq!(db.get_assigned_to_list().len(), 25);
    // Adding a new one appends it.
    db.add_assigned_to("Ms_New_Mediator".to_string());
    let grown = db.get_assigned_to_list();
    assert_eq!(grown.len(), 26);
    assert_eq!(grown[25], "Ms_New_Mediator");
}

#[test]
fn registry_delete_is_idempotent() {
    let mut db = Db::init();
    // Deleting an absent name leaves the registry unchanged and does not error.
    db.delete_assigned_to("Nobody_Here".to_string());
    assert_eq!(db.get_assigned_to_list().len(), 25);
    db.delete_assigned_to("Sh_O_P_Gupta".to_string());
    let names = db.get_assigned_to_list();
    assert_eq!(names.len(), 24);
    assert!(!names.iter().any(|n| n.as_str() == "Sh_O_P_Gupta"));
    // A second delete of the same name is absorbed too.
    db.delete_assigned_to("Sh_O_P_Gupta".to_string());
    assert_eq!(db.get_assigned_to_list().len(), 24);
}
