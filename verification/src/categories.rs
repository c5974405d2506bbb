//! The closed categorical values of a case record — the nature of a case and
//! its disposition — together with the canonical text labels under which the
//! store persists them.

use vstd::prelude::*;
use crate::text::str_eq;

verus! {

/// The outcome category assigned once mediation proceeds.
#[derive(Clone, Copy, PartialEq, Eq, Structural, Debug)]
pub enum DisposalOfCase {
    Settled,
    NotSettled,
    NotFitForMediation,
    Pending,
}

/// The type of a case, drawn from the office's fixed enumeration.
/// `Unknown` stands for a historical row whose stored label matches no
/// category; it renders as an empty label.
#[derive(Clone, Copy, PartialEq, Eq, Structural, Debug)]
pub enum NatureOfCase {
    CivilRecovery,
    CriminalMatter,
    DivorcePetition,
    PropertyDispute,
    MatrimonialDispute,
    MotorAccidentClaim,
    ChequeBounce,
    Unknown,
}

/// The canonical stored label of a disposition.
pub open spec fn disposal_label(d: DisposalOfCase) -> Seq<char> {
    match d {
        DisposalOfCase::Settled => "Settled"@,
        DisposalOfCase::NotSettled => "NotSettled"@,
        DisposalOfCase::NotFitForMediation => "NotFitForMediation"@,
        DisposalOfCase::Pending => "Pending"@,
    }
}

/// The canonical stored label of a nature category.
pub open spec fn nature_label(n: NatureOfCase) -> Seq<char> {
    match n {
        NatureOfCase::CivilRecovery => "CivilRecovery"@,
        NatureOfCase::CriminalMatter => "CriminalMatter"@,
        NatureOfCase::DivorcePetition => "DivorcePetition"@,
        NatureOfCase::PropertyDispute => "PropertyDispute"@,
        NatureOfCase::MatrimonialDispute => "MatrimonialDispute"@,
        NatureOfCase::MotorAccidentClaim => "MotorAccidentClaim"@,
        NatureOfCase::ChequeBounce => "ChequeBounce"@,
        NatureOfCase::Unknown => ""@,
    }
}

pub fn disposal_to_label(d: &DisposalOfCase) -> (r: String)
    ensures
        r@ == disposal_label(*d),
{
    match d {
        DisposalOfCase::Settled => String::from_str("Settled"),
        DisposalOfCase::NotSettled => String::from_str("NotSettled"),
        DisposalOfCase::NotFitForMediation => String::from_str("NotFitForMediation"),
        DisposalOfCase::Pending => String::from_str("Pending"),
    }
}

pub fn nature_to_label(n: &NatureOfCase) -> (r: String)
    ensures
        r@ == nature_label(*n),
{
    proof {
        reveal_strlit("");
    }
    match n {
        NatureOfCase::CivilRecovery => String::from_str("CivilRecovery"),
        NatureOfCase::CriminalMatter => String::from_str("CriminalMatter"),
        NatureOfCase::DivorcePetition => String::from_str("DivorcePetition"),
        NatureOfCase::PropertyDispute => String::from_str("PropertyDispute"),
        NatureOfCase::MatrimonialDispute => String::from_str("MatrimonialDispute"),
        NatureOfCase::MotorAccidentClaim => String::from_str("MotorAccidentClaim"),
        NatureOfCase::ChequeBounce => String::from_str("ChequeBounce"),
        NatureOfCase::Unknown => String::new(),
    }
}

/// What reading a stored disposition label yields: the category whose
/// canonical label it is, and nothing for any other text.
pub open spec fn disposal_from_label_spec(s: Seq<char>) -> Option<DisposalOfCase> {
    if s == disposal_label(DisposalOfCase::Settled) {
        Some(DisposalOfCase::Settled)
    } else if s == disposal_label(DisposalOfCase::NotSettled) {
        Some(DisposalOfCase::NotSettled)
    } else if s == disposal_label(DisposalOfCase::NotFitForMediation) {
        Some(DisposalOfCase::NotFitForMediation)
    } else if s == disposal_label(DisposalOfCase::Pending) {
        Some(DisposalOfCase::Pending)
    } else {
        None
    }
}

/// What reading a stored nature label yields: the named category, and
/// nothing for any other text (`Unknown` has no accepted label).
pub open spec fn nature_from_label_spec(s: Seq<char>) -> Option<NatureOfCase> {
    if s == nature_label(NatureOfCase::CivilRecovery) {
        Some(NatureOfCase::CivilRecovery)
    } else if s == nature_label(NatureOfCase::CriminalMatter) {
        Some(NatureOfCase::CriminalMatter)
    } else if s == nature_label(NatureOfCase::DivorcePetition) {
        Some(NatureOfCase::DivorcePetition)
    } else if s == nature_label(NatureOfCase::PropertyDispute) {
        Some(NatureOfCase::PropertyDispute)
    } else if s == nature_label(NatureOfCase::MatrimonialDispute) {
        Some(NatureOfCase::MatrimonialDispute)
    } else if s == nature_label(NatureOfCase::MotorAccidentClaim) {
        Some(NatureOfCase::MotorAccidentClaim)
    } else if s == nature_label(NatureOfCase::ChequeBounce) {
        Some(NatureOfCase::ChequeBounce)
    } else {
        None
    }
}

pub fn disposal_from_label(s: &str) -> (r: Option<DisposalOfCase>)
    ensures
        r == disposal_from_label_spec(s@),
{
    if str_eq(s, "Settled") {
        Some(DisposalOfCase::Settled)
    } else if str_eq(s, "NotSettled") {
        Some(DisposalOfCase::NotSettled)
    } else if str_eq(s, "NotFitForMediation") {
        Some(DisposalOfCase::NotFitForMediation)
    } else if str_eq(s, "Pending") {
        Some(DisposalOfCase::Pending)
    } else {
        None
    }
}

pub fn nature_from_label(s: &str) -> (r: Option<NatureOfCase>)
    ensures
        r == nature_from_label_spec(s@),
{
    if str_eq(s, "CivilRecovery") {
        Some(NatureOfCase::CivilRecovery)
    } else if str_eq(s, "CriminalMatter") {
        Some(NatureOfCase::CriminalMatter)
    } else if str_eq(s, "DivorcePetition") {
        Some(NatureOfCase::DivorcePetition)
    } else if str_eq(s, "PropertyDispute") {
        Some(NatureOfCase::PropertyDispute)
    } else if str_eq(s, "MatrimonialDispute") {
        Some(NatureOfCase::MatrimonialDispute)
    } else if str_eq(s, "MotorAccidentClaim") {
        Some(NatureOfCase::MotorAccidentClaim)
    } else if str_eq(s, "ChequeBounce") {
        Some(NatureOfCase::ChequeBounce)
    } else {
        None
    }
}

/// Law: every disposition label reads back as the disposition it was
/// written for.
pub proof fn lemma_disposal_label_roundtrip(d: DisposalOfCase)
    ensures
        disposal_from_label_spec(disposal_label(d)) == Some(d),
{
    reveal_strlit("Settled");
    reveal_strlit("NotSettled");
    reveal_strlit("NotFitForMediation");
    reveal_strlit("Pending");
    assert("Settled"@.len() == 7);
    assert("NotSettled"@.len() == 10);
    assert("NotFitForMediation"@.len() == 18);
    assert("Pending"@.len() == 7);
    assert("Pending"@[0] == 'P' && "Settled"@[0] == 'S');
}

/// Law: every nature label but the empty `Unknown` one reads back as the
/// category it was written for.
pub proof fn lemma_nature_label_roundtrip(n: NatureOfCase)
    requires
        n != NatureOfCase::Unknown,
    ensures
        nature_from_label_spec(nature_label(n)) == Some(n),
{
    reveal_strlit("CivilRecovery");
    reveal_strlit("CriminalMatter");
    reveal_strlit("DivorcePetition");
    reveal_strlit("PropertyDispute");
    reveal_strlit("MatrimonialDispute");
    reveal_strlit("MotorAccidentClaim");
    reveal_strlit("ChequeBounce");
    assert("CivilRecovery"@.len() == 13);
    assert("CriminalMatter"@.len() == 14);
    assert("DivorcePetition"@.len() == 15);
    assert("PropertyDispute"@.len() == 15);
    assert("MatrimonialDispute"@.len() == 18);
    assert("MotorAccidentClaim"@.len() == 18);
    assert("ChequeBounce"@.len() == 12);
    assert("DivorcePetition"@[0] == 'D' && "PropertyDispute"@[0] == 'P');
    assert("MatrimonialDispute"@[1] == 'a' && "MotorAccidentClaim"@[1] == 'o');
}

} // verus!
