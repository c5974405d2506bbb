//! The case store: a single table of mediation case records with a unique
//! `(case_no, year)` natural key, plus the registry of mediator names.
//!
//! The store holds decoded records as plain values.  The on-disk engine that
//! mirrors it lives outside the library and exchanges rows with it through
//! the `decode` and `sql` modules.

use vstd::prelude::*;
use crate::calendar::Date;
use crate::calendar::Time;
use crate::calendar::date_le_spec;
use crate::calendar::date_le;
use crate::categories::DisposalOfCase;
use crate::categories::NatureOfCase;

verus! {

/// One mediation case record.
pub struct Case {
    /// Store-assigned surrogate key: the position at which the record was
    /// created (cases are never deleted).
    pub id: usize,
    pub case_no: i32,
    /// Filing year; a case number is unique only within it.
    pub year: i32,
    pub nature_of_case: NatureOfCase,
    pub received_from: String,
    /// Intake date, store-assigned to the current day at creation.
    pub date: Date,
    /// Scheduled hearing slot.
    pub time_slot: Time,
    pub party1: String,
    pub party2: String,
    pub assigned_to: String,
    /// Next date of hearing, set by a disposition update.
    pub ndoh_date: Option<Date>,
    pub ndoh_time: Option<Time>,
    pub disposal_of_case: Option<DisposalOfCase>,
    /// Linkage marker to another case; zero means not connected.
    pub connected: i32,
}

impl Case {
    /// Every stored date and time names a real calendar value.
    pub open spec fn wf(self) -> bool {
        &&& self.date.wf()
        &&& self.time_slot.wf()
        &&& (self.ndoh_date matches Some(d) ==> d.wf())
        &&& (self.ndoh_time matches Some(t) ==> t.wf())
    }
}

impl Clone for Case {
    fn clone(&self) -> (r: Self)
        ensures
            r == *self,
    {
        Case {
            id: self.id,
            case_no: self.case_no,
            year: self.year,
            nature_of_case: self.nature_of_case,
            received_from: self.received_from.clone(),
            date: self.date,
            time_slot: self.time_slot,
            party1: self.party1.clone(),
            party2: self.party2.clone(),
            assigned_to: self.assigned_to.clone(),
            ndoh_date: self.ndoh_date,
            ndoh_time: self.ndoh_time,
            disposal_of_case: self.disposal_of_case,
            connected: self.connected,
        }
    }
}

/// The error a create reports when its natural key is already taken.
#[derive(Clone, Copy, PartialEq, Eq, Structural, Debug)]
pub enum StoreError {
    UniquenessViolation,
}

/// Whether some record in `cases` carries the natural key
/// `(case_no, year)`.
pub open spec fn has_key(cases: Seq<Case>, case_no: i32, year: i32) -> bool {
    exists|i: int|
        0 <= i < cases.len() && (#[trigger] cases[i]).case_no == case_no && cases[i].year == year
}

/// The index of the record carrying `(case_no, year)`; meaningful only
/// when `has_key` holds (it is then unique in a well-formed store).
pub open spec fn key_index(cases: Seq<Case>, case_no: i32, year: i32) -> int {
    choose|i: int|
        0 <= i < cases.len() && (#[trigger] cases[i]).case_no == case_no && cases[i].year == year
}

/// The single-office case store.
pub struct Db {
    pub cases: Vec<Case>,
    pub assignees: Vec<String>,
}

/// Whether the registry sequence holds `name`.
pub open spec fn registry_contains(assignees: Seq<String>, name: Seq<char>) -> bool {
    exists|i: int| 0 <= i < assignees.len() && (#[trigger] assignees[i])@ == name
}

/// Whether `s` is one of the mediator and judge names the registry is
/// seeded with at first initialization.
pub open spec fn is_default_assignee(s: Seq<char>) -> bool {
    ||| s == "Judge_In_Charge"@
    ||| s == "Sh_Surender_Singh"@
    ||| s == "Sh_Nishant_S_Dewan"@
    ||| s == "Ms_Shashi_Jaiswal"@
    ||| s == "Sh_Tarun_Shokeen"@
    ||| s == "Sh_Manmohan_Goel"@
    ||| s == "Sh_Anuj_Rajput"@
    ||| s == "Sh_S_K_Malik"@
    ||| s == "Ms_Indu_Shekhar"@
    ||| s == "Ms_Surinder_Kaur"@
    ||| s == "Sh_Muskesh_Goel"@
    ||| s == "Sh_Anil_Kumar_Chhabra"@
    ||| s == "Ms_Neeru_Nagpal"@
    ||| s == "Ms_Savita_Kasana"@
    ||| s == "Sh_O_P_Gupta"@
    ||| s == "Sh_Jagdish_Sethi"@
    ||| s == "Ms_Meenakshi_Juneja"@
    ||| s == "Sh_R_B_Singh"@
    ||| s == "Sh_Rajbir_Malik"@
    ||| s == "Ms_Nidhi_T_Raj"@
    ||| s == "Ms_Kavita_Kapil"@
    ||| s == "Ms_Jyotsna_Jena"@
    ||| s == "Sh_Chandra_Bose"@
    ||| s == "Sh_Naveen_Tayal"@
    ||| s == "Ms_Urmila_Yadav"@
}

/// The default name list, as owned strings, with every default present and
/// nothing else.
#[verifier::rlimit(100)]
fn default_assignee_names() -> (r: Vec<String>)
    ensures
        forall|k: int| 0 <= k < r@.len() ==> is_default_assignee((#[trigger] r@[k])@),
        forall|s: Seq<char>| is_default_assignee(s) ==> #[trigger] registry_contains(r@, s),
{
    let mut v: Vec<String> = Vec::new();
    v.push(String::from_str("Judge_In_Charge"));
    v.push(String::from_str("Sh_Surender_Singh"));
    v.push(String::from_str("Sh_Nishant_S_Dewan"));
    v.push(String::from_str("Ms_Shashi_Jaiswal"));
    v.push(String::from_str("Sh_Tarun_Shokeen"));
    v.push(String::from_str("Sh_Manmohan_Goel"));
    v.push(String::from_str("Sh_Anuj_Rajput"));
    v.push(String::from_str("Sh_S_K_Malik"));
    v.push(String::from_str("Ms_Indu_Shekhar"));
    v.push(String::from_str("Ms_Surinder_Kaur"));
    v.push(String::from_str("Sh_Muskesh_Goel"));
    v.push(String::from_str("Sh_Anil_Kumar_Chhabra"));
    v.push(String::from_str("Ms_Neeru_Nagpal"));
    v.push(String::from_str("Ms_Savita_Kasana"));
    v.push(String::from_str("Sh_O_P_Gupta"));
    v.push(String::from_str("Sh_Jagdish_Sethi"));
    v.push(String::from_str("Ms_Meenakshi_Juneja"));
    v.push(String::from_str("Sh_R_B_Singh"));
    v.push(String::from_str("Sh_Rajbir_Malik"));
    v.push(String::from_str("Ms_Nidhi_T_Raj"));
    v.push(String::from_str("Ms_Kavita_Kapil"));
    v.push(String::from_str("Ms_Jyotsna_Jena"));
    v.push(String::from_str("Sh_Chandra_Bose"));
    v.push(String::from_str("Sh_Naveen_Tayal"));
    v.push(String::from_str("Ms_Urmila_Yadav"));
    proof {
        assert(v@.len() == 25);
        assert((v@[0])@ == "Judge_In_Charge"@);
        assert((v@[1])@ == "Sh_Surender_Singh"@);
        assert((v@[2])@ == "Sh_Nishant_S_Dewan"@);
        assert((v@[3])@ == "Ms_Shashi_Jaiswal"@);
        assert((v@[4])@ == "Sh_Tarun_Shokeen"@);
        assert((v@[5])@ == "Sh_Manmohan_Goel"@);
        assert((v@[6])@ == "Sh_Anuj_Rajput"@);
        assert((v@[7])@ == "Sh_S_K_Malik"@);
        assert((v@[8])@ == "Ms_Indu_Shekhar"@);
        assert((v@[9])@ == "Ms_Surinder_Kaur"@);
        assert((v@[10])@ == "Sh_Muskesh_Goel"@);
        assert((v@[11])@ == "Sh_Anil_Kumar_Chhabra"@);
        assert((v@[12])@ == "Ms_Neeru_Nagpal"@);
        assert((v@[13])@ == "Ms_Savita_Kasana"@);
        assert((v@[14])@ == "Sh_O_P_Gupta"@);
        assert((v@[15])@ == "Sh_Jagdish_Sethi"@);
        assert((v@[16])@ == "Ms_Meenakshi_Juneja"@);
        assert((v@[17])@ == "Sh_R_B_Singh"@);
        assert((v@[18])@ == "Sh_Rajbir_Malik"@);
        assert((v@[19])@ == "Ms_Nidhi_T_Raj"@);
        assert((v@[20])@ == "Ms_Kavita_Kapil"@);
        assert((v@[21])@ == "Ms_Jyotsna_Jena"@);
        assert((v@[22])@ == "Sh_Chandra_Bose"@);
        assert((v@[23])@ == "Sh_Naveen_Tayal"@);
        assert((v@[24])@ == "Ms_Urmila_Yadav"@);
    }
    v
}

impl Db {
    /// Open a fresh store: an empty case table, and the registry seeded
    /// with the default name list through the idempotent add, so repeated
    /// seeding cannot produce duplicates.
    #[verifier::loop_isolation(false)]
    pub fn init() -> (r: Db)
        ensures
            r.wf(),
            r.cases@.len() == 0,
            forall|i: int|
                0 <= i < r.assignees@.len() ==> is_default_assignee(
                    (#[trigger] r.assignees@[i])@,
                ),
            forall|s: Seq<char>|
                is_default_assignee(s) ==> #[trigger] registry_contains(r.assignees@, s),
    {
        let mut db = Db { cases: Vec::new(), assignees: Vec::new() };
        let names = default_assignee_names();
        let n = names.len();
        let mut i: usize = 0;
        while i < n
            invariant
                db.wf(),
                db.cases@.len() == 0,
                i <= n,
                forall|j: int|
                    0 <= j < db.assignees@.len() ==> is_default_assignee(
                        (#[trigger] db.assignees@[j])@,
                    ),
                forall|k: int|
                    0 <= k < i ==> #[trigger] registry_contains(db.assignees@, names@[k]@),
            decreases n - i,
        {
            db.add_assigned_to(names[i].clone());
            i += 1;
        }
        proof {
            assert forall|s: Seq<char>| is_default_assignee(s) implies #[trigger] registry_contains(
                db.assignees@,
                s,
            ) by {
                assert(registry_contains(names@, s));
                let k = choose|k: int| 0 <= k < names@.len() && (#[trigger] names@[k])@ == s;
                assert(registry_contains(db.assignees@, names@[k]@));
            }
        }
        db
    }

    /// Store invariant: records are well formed, the surrogate key is the
    /// creation position, natural keys are unique, and registry names are
    /// distinct.
    pub open spec fn wf(self) -> bool {
        &&& forall|i: int|
            0 <= i < self.cases@.len() ==> (#[trigger] self.cases@[i]).wf() && self.cases@[i].id
                == i
        &&& forall|i: int, j: int|
            0 <= i < j < self.cases@.len() ==> !((#[trigger] self.cases@[i]).case_no
                == (#[trigger] self.cases@[j]).case_no && self.cases@[i].year
                == self.cases@[j].year)
        &&& forall|i: int, j: int|
            0 <= i < j < self.assignees@.len() ==> (#[trigger] self.assignees@[i])@ != (
            #[trigger] self.assignees@[j])@
    }

    /// What a create does: reject an already-taken natural key unchanged,
    /// or append the new record with today's date, empty disposition and a
    /// cleared connection marker, and hand back its surrogate key.
    pub open spec fn insert_case_post(
        pre: Db,
        post: Db,
        today: Date,
        case_no: i32,
        year: i32,
        nature_of_case: NatureOfCase,
        received_from: String,
        time_slot: Time,
        party1: String,
        party2: String,
        assigned_to: String,
        r: Result<usize, StoreError>,
    ) -> bool {
        &&& post.assignees == pre.assignees
        &&& if has_key(pre.cases@, case_no, year) {
            r == Result::<usize, StoreError>::Err(StoreError::UniquenessViolation) && post.cases
                == pre.cases
        } else {
            r == Result::<usize, StoreError>::Ok(pre.cases@.len() as usize) && post.cases@
                == pre.cases@.push(
                Case {
                    id: pre.cases@.len() as usize,
                    case_no,
                    year,
                    nature_of_case,
                    received_from,
                    date: today,
                    time_slot,
                    party1,
                    party2,
                    assigned_to,
                    ndoh_date: None,
                    ndoh_time: None,
                    disposal_of_case: None,
                    connected: 0,
                },
            )
        }
    }

    /// Create a case.  The intake date is always `today`, handed in by the
    /// caller that read the clock: records cannot be backdated past it.
    #[verifier::loop_isolation(false)]
    pub fn insert_case(
        &mut self,
        today: Date,
        case_no: i32,
        year: i32,
        nature_of_case: NatureOfCase,
        received_from: String,
        time_slot: Time,
        party1: String,
        party2: String,
        assigned_to: String,
    ) -> (r: Result<usize, StoreError>)
        requires
            old(self).wf(),
            today.wf(),
            time_slot.wf(),
        ensures
            final(self).wf(),
            r is Ok ==> has_key(final(self).cases@, case_no, year),
            Db::insert_case_post(
                *old(self),
                *final(self),
                today,
                case_no,
                year,
                nature_of_case,
                received_from,
                time_slot,
                party1,
                party2,
                assigned_to,
                r,
            ),
    {
        let n = self.cases.len();
        let mut i: usize = 0;
        while i < n
            invariant
                *self == *old(self),
                n == self.cases@.len(),
                i <= n,
                forall|k: int|
                    0 <= k < i ==> !((#[trigger] self.cases@[k]).case_no == case_no
                        && self.cases@[k].year == year),
            decreases n - i,
        {
            if self.cases[i].case_no == case_no && self.cases[i].year == year {
                return Err(StoreError::UniquenessViolation);
            }
            i += 1;
        }
        let id = self.cases.len();
        self.cases.push(
            Case {
                id,
                case_no,
                year,
                nature_of_case,
                received_from,
                date: today,
                time_slot,
                party1,
                party2,
                assigned_to,
                ndoh_date: None,
                ndoh_time: None,
                disposal_of_case: None,
                connected: 0,
            },
        );
        proof {
            assert(self.cases@[id as int].case_no == case_no && self.cases@[id as int].year
                == year);
        }
        Ok(id)
    }

    /// The record as a disposition update leaves it: new hearing date and
    /// time, new disposal, and a connection marker that keeps its prior
    /// value when the caller supplies none.
    pub open spec fn updated_case(
        c: Case,
        ndoh_date: Date,
        ndoh_time: Time,
        disposal_of_case: DisposalOfCase,
        connected: Option<i32>,
    ) -> Case {
        Case {
            ndoh_date: Some(ndoh_date),
            ndoh_time: Some(ndoh_time),
            disposal_of_case: Some(disposal_of_case),
            connected: match connected {
                Some(v) => v,
                None => c.connected,
            },
            ..c
        }
    }

    /// What a disposition update does: rewrite the one record under the
    /// natural key and report one affected row, or report zero affected
    /// rows and change nothing when the key is absent.
    pub open spec fn update_case_details_post(
        pre: Db,
        post: Db,
        case_no: i32,
        year: i32,
        ndoh_date: Date,
        ndoh_time: Time,
        disposal_of_case: DisposalOfCase,
        connected: Option<i32>,
        r: usize,
    ) -> bool {
        &&& post.assignees == pre.assignees
        &&& if has_key(pre.cases@, case_no, year) {
            let i = key_index(pre.cases@, case_no, year);
            r == 1 && post.cases@ == pre.cases@.update(
                i,
                Db::updated_case(pre.cases@[i], ndoh_date, ndoh_time, disposal_of_case, connected),
            )
        } else {
            r == 0 && post.cases == pre.cases
        }
    }

    /// Record a disposition.  A missing natural key is a no-op reported by
    /// the affected-row count, not an error.
    #[verifier::loop_isolation(false)]
    pub fn update_case_details(
        &mut self,
        case_no: i32,
        year: i32,
        ndoh_date: Date,
        ndoh_time: Time,
        disposal_of_case: DisposalOfCase,
        connected: Option<i32>,
    ) -> (r: usize)
        requires
            old(self).wf(),
            ndoh_date.wf(),
            ndoh_time.wf(),
        ensures
            final(self).wf(),
            Db::update_case_details_post(
                *old(self),
                *final(self),
                case_no,
                year,
                ndoh_date,
                ndoh_time,
                disposal_of_case,
                connected,
                r,
            ),
    {
        let n = self.cases.len();
        let mut i: usize = 0;
        while i < n
            invariant
                *self == *old(self),
                n == self.cases@.len(),
                i <= n,
                forall|k: int|
                    0 <= k < i ==> !((#[trigger] self.cases@[k]).case_no == case_no
                        && self.cases@[k].year == year),
            decreases n - i,
        {
            if self.cases[i].case_no == case_no && self.cases[i].year == year {
                proof {
                    assert(has_key(self.cases@, case_no, year));
                    let ki = key_index(self.cases@, case_no, year);
                    assert(ki == i as int) by {
                        if ki < i as int {
                            assert(!(self.cases@[ki].case_no == case_no && self.cases@[ki].year
                                == year));
                        }
                    }
                }
                let prior = self.cases[i].clone();
                let connected_value = match connected {
                    Some(v) => v,
                    None => prior.connected,
                };
                self.cases[i] = Case {
                    ndoh_date: Some(ndoh_date),
                    ndoh_time: Some(ndoh_time),
                    disposal_of_case: Some(disposal_of_case),
                    connected: connected_value,
                    ..prior
                };
                return 1;
            }
            i += 1;
        }
        0
    }

    /// Fetch every case whose intake date or next hearing date is `today`:
    /// fresh intakes and adjourned hearings alike, in storage order.
    #[verifier::loop_isolation(false)]
    pub fn get_cases_for_today(&self, today: Date) -> (r: Vec<Case>)
        ensures
            r@ == docket_of(self.cases@, today),
    {
        let mut out: Vec<Case> = Vec::new();
        let n = self.cases.len();
        let mut i: usize = 0;
        while i < n
            invariant
                n == self.cases@.len(),
                i <= n,
                out@ == docket_of(self.cases@.take(i as int), today),
            decreases n - i,
        {
            let c = &self.cases[i];
            let fresh = c.date == today;
            let adjourned = match &c.ndoh_date {
                Some(d) => *d == today,
                None => false,
            };
            if fresh || adjourned {
                out.push(c.clone());
            }
            proof {
                reveal(Seq::filter);
                assert(self.cases@.take(i + 1).drop_last() =~= self.cases@.take(i as int));
                assert(self.cases@.take(i + 1).last() == self.cases@[i as int]);
            }
            i += 1;
        }
        proof {
            assert(self.cases@.take(n as int) =~= self.cases@);
        }
        out
    }

    /// Fetch every case whose intake or next hearing date falls in the
    /// inclusive range and which meets each supplied filter exactly, with
    /// the outcome summary of that set.
    #[verifier::loop_isolation(false)]
    pub fn query_cases_filtered(
        &self,
        nature_of_case: Option<NatureOfCase>,
        assigned_to: Option<String>,
        start_date: Date,
        end_date: Date,
    ) -> (r: (Vec<Case>, CaseSummary))
        ensures
            r.0@ == filtered_cases(
                self.cases@,
                nature_of_case,
                view_of_name(assigned_to),
                start_date,
                end_date,
            ),
            r.1 == summary_of(r.0@),
    {
        let mut out: Vec<Case> = Vec::new();
        let n = self.cases.len();
        let mut i: usize = 0;
        while i < n
            invariant
                n == self.cases@.len(),
                i <= n,
                out@ == filtered_cases(
                    self.cases@.take(i as int),
                    nature_of_case,
                    view_of_name(assigned_to),
                    start_date,
                    end_date,
                ),
            decreases n - i,
        {
            let c = &self.cases[i];
            let date_hit = date_le(&start_date, &c.date) && date_le(&c.date, &end_date);
            let ndoh_hit = match &c.ndoh_date {
                Some(d) => date_le(&start_date, d) && date_le(d, &end_date),
                None => false,
            };
            let nature_hit = match &nature_of_case {
                Some(filter_nature) => c.nature_of_case == *filter_nature,
                None => true,
            };
            let assigned_hit = match &assigned_to {
                Some(name) => crate::text::str_eq(c.assigned_to.as_str(), name.as_str()),
                None => true,
            };
            if (date_hit || ndoh_hit) && nature_hit && assigned_hit {
                out.push(c.clone());
            }
            proof {
                reveal(Seq::filter);
                assert(self.cases@.take(i + 1).drop_last() =~= self.cases@.take(i as int));
                assert(self.cases@.take(i + 1).last() == self.cases@[i as int]);
            }
            i += 1;
        }
        proof {
            assert(self.cases@.take(n as int) =~= self.cases@);
        }
        let summary = summarize(&out);
        (out, summary)
    }

    /// List the registry of mediator names, in storage order.
    #[verifier::loop_isolation(false)]
    pub fn get_assigned_to_list(&self) -> (r: Vec<String>)
        ensures
            r@ == self.assignees@,
    {
        let mut out: Vec<String> = Vec::new();
        let n = self.assignees.len();
        let mut i: usize = 0;
        while i < n
            invariant
                n == self.assignees@.len(),
                i <= n,
                out@.len() == i,
                forall|k: int| 0 <= k < i ==> out@[k] == self.assignees@[k],
            decreases n - i,
        {
            out.push(self.assignees[i].clone());
            i += 1;
        }
        proof {
            assert(out@ =~= self.assignees@);
        }
        out
    }

    /// Add a mediator name; a duplicate add is silently absorbed.
    #[verifier::loop_isolation(false)]
    pub fn add_assigned_to(&mut self, name: String)
        requires
            old(self).wf(),
        ensures
            final(self).wf(),
            final(self).cases == old(self).cases,
            final(self).assignees@ == if registry_contains(old(self).assignees@, name@) {
                old(self).assignees@
            } else {
                old(self).assignees@.push(name)
            },
            registry_contains(final(self).assignees@, name@),
            forall|s: Seq<char>|
                registry_contains(old(self).assignees@, s) ==> #[trigger] registry_contains(
                    final(self).assignees@,
                    s,
                ),
    {
        let n = self.assignees.len();
        let mut i: usize = 0;
        while i < n
            invariant
                *self == *old(self),
                n == self.assignees@.len(),
                i <= n,
                forall|k: int| 0 <= k < i ==> (#[trigger] self.assignees@[k])@ != name@,
            decreases n - i,
        {
            if crate::text::str_eq(self.assignees[i].as_str(), name.as_str()) {
                return ;
            }
            i += 1;
        }
        let ghost pre = self.assignees@;
        self.assignees.push(name);
        proof {
            assert((self.assignees@[pre.len() as int])@ == name@);
            assert(registry_contains(self.assignees@, name@));
            assert(forall|s: Seq<char>|
                registry_contains(pre, s) ==> #[trigger] registry_contains(
                    self.assignees@,
                    s,
                )) by {
                assert(forall|k: int| 0 <= k < pre.len() ==> self.assignees@[k] == pre[k]);
            }
        }
    }

    /// Delete a mediator name; deleting an absent name is a silent no-op.
    #[verifier::loop_isolation(false)]
    pub fn delete_assigned_to(&mut self, name: String)
        requires
            old(self).wf(),
        ensures
            final(self).wf(),
            final(self).cases == old(self).cases,
            !registry_contains(old(self).assignees@, name@) ==> final(self).assignees
                == old(self).assignees,
            registry_contains(old(self).assignees@, name@) ==> exists|j: int|
                0 <= j < old(self).assignees@.len() && (#[trigger] old(self).assignees@[j])@
                    == name@ && final(self).assignees@ == old(self).assignees@.remove(j),
            !registry_contains(final(self).assignees@, name@),
    {
        let n = self.assignees.len();
        let mut i: usize = 0;
        while i < n
            invariant
                *self == *old(self),
                n == self.assignees@.len(),
                i <= n,
                forall|k: int| 0 <= k < i ==> (#[trigger] self.assignees@[k])@ != name@,
            decreases n - i,
        {
            if crate::text::str_eq(self.assignees[i].as_str(), name.as_str()) {
                let ghost pre = self.assignees@;
                self.assignees.remove(i);
                proof {
                    assert(forall|k: int|
                        0 <= k < self.assignees@.len() ==> #[trigger] self.assignees@[k] == (
                        if k < i as int {
                            pre[k]
                        } else {
                            pre[k + 1]
                        }));
                }
                return ;
            }
            i += 1;
        }
    }
}

/// Whether a record belongs on the docket of `today`.
pub open spec fn on_docket(c: Case, today: Date) -> bool {
    c.date == today || c.ndoh_date == Some(today)
}

/// The docket of `today`, in storage order.
pub open spec fn docket_of(cases: Seq<Case>, today: Date) -> Seq<Case> {
    cases.filter(|c: Case| on_docket(c, today))
}

/// Whether a date falls in the inclusive range `[start, end]`.
pub open spec fn in_range(d: Date, start: Date, end: Date) -> bool {
    date_le_spec(start, d) && date_le_spec(d, end)
}

/// Whether a record matches a filtered query: its intake date or next
/// hearing date falls in the range, and each supplied filter matches
/// exactly.
pub open spec fn matches_filter(
    c: Case,
    nature_of_case: Option<NatureOfCase>,
    assigned_to: Option<Seq<char>>,
    start_date: Date,
    end_date: Date,
) -> bool {
    &&& (in_range(c.date, start_date, end_date) || (match c.ndoh_date {
        Some(d) => in_range(d, start_date, end_date),
        None => false,
    }))
    &&& (match nature_of_case {
        Some(n) => c.nature_of_case == n,
        None => true,
    })
    &&& (match assigned_to {
        Some(a) => c.assigned_to@ == a,
        None => true,
    })
}

/// The result set of a filtered query, in storage order.
pub open spec fn filtered_cases(
    cases: Seq<Case>,
    nature_of_case: Option<NatureOfCase>,
    assigned_to: Option<Seq<char>>,
    start_date: Date,
    end_date: Date,
) -> Seq<Case> {
    cases.filter(|c: Case| matches_filter(c, nature_of_case, assigned_to, start_date, end_date))
}

/// The text of an optional assignee filter.
pub open spec fn view_of_name(name: Option<String>) -> Option<Seq<char>> {
    match name {
        Some(s) => Some(s@),
        None => None,
    }
}

/// Counts of a result set by disposition category; cases with no
/// disposition yet fall in no bucket.
#[derive(Clone, Copy, PartialEq, Eq, Structural, Debug)]
pub struct CaseSummary {
    pub settled: usize,
    pub not_settled: usize,
    pub not_fit: usize,
    pub pending: usize,
}

/// What a filtered query hands the shell: the matching cases and their
/// outcome summary.
pub struct CaseQueryResult {
    pub cases: Vec<Case>,
    pub summary: CaseSummary,
}

/// How many records of `cases` carry the disposition `d`.
pub open spec fn count_disposal(cases: Seq<Case>, d: DisposalOfCase) -> int
    decreases cases.len(),
{
    if cases.len() == 0 {
        0
    } else {
        count_disposal(cases.drop_last(), d) + if cases.last().disposal_of_case == Some(d) {
            1int
        } else {
            0int
        }
    }
}

/// How many records of `cases` carry any disposition at all.
pub open spec fn count_with_disposal(cases: Seq<Case>) -> int
    decreases cases.len(),
{
    if cases.len() == 0 {
        0
    } else {
        count_with_disposal(cases.drop_last()) + if cases.last().disposal_of_case is Some {
            1int
        } else {
            0int
        }
    }
}

/// The summary of a result set.
pub open spec fn summary_of(cases: Seq<Case>) -> CaseSummary {
    CaseSummary {
        settled: count_disposal(cases, DisposalOfCase::Settled) as usize,
        not_settled: count_disposal(cases, DisposalOfCase::NotSettled) as usize,
        not_fit: count_disposal(cases, DisposalOfCase::NotFitForMediation) as usize,
        pending: count_disposal(cases, DisposalOfCase::Pending) as usize,
    }
}

pub proof fn lemma_count_disposal_bounds(cases: Seq<Case>, d: DisposalOfCase)
    ensures
        0 <= count_disposal(cases, d) <= cases.len(),
    decreases cases.len(),
{
    if cases.len() > 0 {
        lemma_count_disposal_bounds(cases.drop_last(), d);
    }
}

proof fn lemma_counts_sum(cases: Seq<Case>)
    ensures
        count_disposal(cases, DisposalOfCase::Settled) + count_disposal(
            cases,
            DisposalOfCase::NotSettled,
        ) + count_disposal(cases, DisposalOfCase::NotFitForMediation) + count_disposal(
            cases,
            DisposalOfCase::Pending,
        ) == count_with_disposal(cases),
        0 <= count_with_disposal(cases) <= cases.len(),
    decreases cases.len(),
{
    if cases.len() > 0 {
        lemma_counts_sum(cases.drop_last());
        let last_disposal = cases.last().disposal_of_case;
        assert(last_disposal is None || last_disposal == Some(DisposalOfCase::Settled)
            || last_disposal == Some(DisposalOfCase::NotSettled) || last_disposal == Some(
            DisposalOfCase::NotFitForMediation,
        ) || last_disposal == Some(DisposalOfCase::Pending));
    }
}

/// Law: the four summary buckets sum to the number of records that carry
/// any disposition at all, so records with no disposition land in no
/// bucket.
pub proof fn lemma_summary_counts(cases: Seq<Case>)
    requires
        cases.len() <= usize::MAX,
    ensures
        summary_of(cases).settled + summary_of(cases).not_settled + summary_of(cases).not_fit
            + summary_of(cases).pending == count_with_disposal(cases),
        0 <= count_with_disposal(cases) <= cases.len(),
{
    lemma_count_disposal_bounds(cases, DisposalOfCase::Settled);
    lemma_count_disposal_bounds(cases, DisposalOfCase::NotSettled);
    lemma_count_disposal_bounds(cases, DisposalOfCase::NotFitForMediation);
    lemma_count_disposal_bounds(cases, DisposalOfCase::Pending);
    lemma_counts_sum(cases);
}

/// Law: after a create takes a natural key, a second create with the same
/// key is rejected with the uniqueness error and leaves the store
/// unchanged, while the same case number under another free year stays
/// free.
pub proof fn lemma_duplicate_create_rejected(
    s0: Db,
    s1: Db,
    s2: Db,
    today1: Date,
    today2: Date,
    case_no: i32,
    year: i32,
    other_year: i32,
    nature1: NatureOfCase,
    received_from1: String,
    time_slot1: Time,
    party1a: String,
    party2a: String,
    assigned1: String,
    nature2: NatureOfCase,
    received_from2: String,
    time_slot2: Time,
    party1b: String,
    party2b: String,
    assigned2: String,
    r1: Result<usize, StoreError>,
    r2: Result<usize, StoreError>,
)
    requires
        !has_key(s0.cases@, case_no, year),
        Db::insert_case_post(
            s0,
            s1,
            today1,
            case_no,
            year,
            nature1,
            received_from1,
            time_slot1,
            party1a,
            party2a,
            assigned1,
            r1,
        ),
        Db::insert_case_post(
            s1,
            s2,
            today2,
            case_no,
            year,
            nature2,
            received_from2,
            time_slot2,
            party1b,
            party2b,
            assigned2,
            r2,
        ),
        other_year != year,
        !has_key(s0.cases@, case_no, other_year),
    ensures
        r1 == Result::<usize, StoreError>::Ok(s0.cases@.len() as usize),
        r2 == Result::<usize, StoreError>::Err(StoreError::UniquenessViolation),
        s2.cases == s1.cases,
        !has_key(s1.cases@, case_no, other_year),
{
    let n = s0.cases@.len() as int;
    assert(s1.cases@[n].case_no == case_no && s1.cases@[n].year == year);
    assert(has_key(s1.cases@, case_no, year));
    assert(forall|i: int|
        0 <= i < s1.cases@.len() ==> !((#[trigger] s1.cases@[i]).case_no == case_no
            && s1.cases@[i].year == other_year));
}

/// Law: a disposition update on a present key reports one affected row,
/// and the record re-read under that key carries the new hearing values
/// and disposal; with the new hearing date for "today" the record appears
/// on that day's docket.
pub proof fn lemma_update_reflected_in_read(
    s0: Db,
    s1: Db,
    case_no: i32,
    year: i32,
    ndoh_date: Date,
    ndoh_time: Time,
    disposal_of_case: DisposalOfCase,
    connected: Option<i32>,
    r: usize,
)
    requires
        s0.wf(),
        has_key(s0.cases@, case_no, year),
        Db::update_case_details_post(
            s0,
            s1,
            case_no,
            year,
            ndoh_date,
            ndoh_time,
            disposal_of_case,
            connected,
            r,
        ),
    ensures
        r == 1,
        has_key(s1.cases@, case_no, year),
        s1.cases@[key_index(s1.cases@, case_no, year)].ndoh_date == Some(ndoh_date),
        s1.cases@[key_index(s1.cases@, case_no, year)].ndoh_time == Some(ndoh_time),
        s1.cases@[key_index(s1.cases@, case_no, year)].disposal_of_case == Some(disposal_of_case),
        docket_of(s1.cases@, ndoh_date).contains(s1.cases@[key_index(s1.cases@, case_no, year)]),
{
    let i0 = key_index(s0.cases@, case_no, year);
    assert(0 <= i0 < s0.cases@.len() && s0.cases@[i0].case_no == case_no && s0.cases@[i0].year
        == year);
    assert(s1.cases@[i0].case_no == case_no && s1.cases@[i0].year == year);
    assert(has_key(s1.cases@, case_no, year));
    let i1 = key_index(s1.cases@, case_no, year);
    assert(0 <= i1 < s1.cases@.len() && s1.cases@[i1].case_no == case_no && s1.cases@[i1].year
        == year);
    assert(i1 == i0) by {
        if i1 != i0 {
            assert(s0.cases@[i1].case_no == case_no && s0.cases@[i1].year == year);
        }
    }
    assert(on_docket(s1.cases@[i1], ndoh_date));
    s1.cases@.lemma_filter_contains(|c: Case| on_docket(c, ndoh_date), i1);
}

/// Reduce a result set to its outcome summary in one pass.
#[verifier::loop_isolation(false)]
pub fn summarize(cases: &Vec<Case>) -> (r: CaseSummary)
    ensures
        r == summary_of(cases@),
{
    let mut settled: usize = 0;
    let mut not_settled: usize = 0;
    let mut not_fit: usize = 0;
    let mut pending: usize = 0;
    let n = cases.len();
    let mut i: usize = 0;
    while i < n
        invariant
            n == cases@.len(),
            i <= n,
            settled == count_disposal(cases@.take(i as int), DisposalOfCase::Settled),
            not_settled == count_disposal(cases@.take(i as int), DisposalOfCase::NotSettled),
            not_fit == count_disposal(cases@.take(i as int), DisposalOfCase::NotFitForMediation),
            pending == count_disposal(cases@.take(i as int), DisposalOfCase::Pending),
        decreases n - i,
    {
        proof {
            lemma_count_disposal_bounds(cases@.take(i as int), DisposalOfCase::Settled);
            lemma_count_disposal_bounds(cases@.take(i as int), DisposalOfCase::NotSettled);
            lemma_count_disposal_bounds(
                cases@.take(i as int),
                DisposalOfCase::NotFitForMediation,
            );
            lemma_count_disposal_bounds(cases@.take(i as int), DisposalOfCase::Pending);
            assert(cases@.take(i as int).len() == i as int);
        }
        match cases[i].disposal_of_case {
            Some(DisposalOfCase::Settled) => settled += 1,
            Some(DisposalOfCase::NotSettled) => not_settled += 1,
            Some(DisposalOfCase::NotFitForMediation) => not_fit += 1,
            Some(DisposalOfCase::Pending) => pending += 1,
            None => (),
        }
        proof {
            assert(cases@.take(i + 1).drop_last() =~= cases@.take(i as int));
            assert(cases@.take(i + 1).last() == cases@[i as int]);
        }
        i += 1;
    }
    proof {
        assert(cases@.take(n as int) =~= cases@);
    }
    CaseSummary { settled, not_settled, not_fit, pending }
}

} // verus!
