//! Governance proposals and the results of their tallies.
use vstd::prelude::*;

verus! {

/// The outcome of a proposal's tally.
#[derive(Debug, Clone, Copy, PartialEq, Eq, Structural)]
pub enum TallyOutcome {
    Passed,
    Rejected,
}

/// The rule by which a proposal's votes are tallied.
#[derive(Debug, Clone, Copy, PartialEq, Eq, Structural)]
pub enum TallyKind {
    LessOneHalfOverOneThirdNay,
    TwoThirds,
    OneHalfOverOneThird,
}

/// The text that stands for a tally's outcome.
pub open spec fn tally_outcome_text(r: TallyOutcome) -> Seq<char> {
    match r {
        TallyOutcome::Passed => "passed"@,
        TallyOutcome::Rejected => "rejected"@,
    }
}

/// The text that stands for a tally rule.
pub open spec fn tally_kind_text(t: TallyKind) -> Seq<char> {
    match t {
        TallyKind::LessOneHalfOverOneThirdNay => "LessOneHalfOverOneThirdNay"@,
        TallyKind::TwoThirds => "TwoThirds"@,
        TallyKind::OneHalfOverOneThird => "OneHalfOverOneThird"@,
    }
}

/// The result of a proposal as the server reports it: `passed` or
/// `rejected`.
pub fn tally_result_name(result: &TallyOutcome) -> (r: String)
    ensures
        r@ == tally_outcome_text(*result),
{
    match result {
        TallyOutcome::Passed => "passed".to_owned(),
        TallyOutcome::Rejected => "rejected".to_owned(),
    }
}

/// The tally rule of a proposal as the server reports it: the rule's name.
pub fn tally_type_name(tally_type: &TallyKind) -> (r: String)
    ensures
        r@ == tally_kind_text(*tally_type),
{
    match tally_type {
        TallyKind::LessOneHalfOverOneThirdNay => "LessOneHalfOverOneThirdNay".to_owned(),
        TallyKind::TwoThirds => "TwoThirds".to_owned(),
        TallyKind::OneHalfOverOneThird => "OneHalfOverOneThird".to_owned(),
    }
}

/// The texts the server reports for tally outcomes and rules.
pub proof fn tally_texts_of_the_server()
    ensures
        tally_outcome_text(TallyOutcome::Passed) =~= seq!['p', 'a', 's', 's', 'e', 'd'],
        tally_outcome_text(TallyOutcome::Rejected) =~= seq!['r', 'e', 'j', 'e', 'c', 't', 'e', 'd'],
        tally_kind_text(TallyKind::TwoThirds) =~= seq!['T', 'w', 'o', 'T', 'h', 'i', 'r', 'd', 's'],
        tally_kind_text(TallyKind::OneHalfOverOneThird) == "OneHalfOverOneThird"@,
        tally_kind_text(TallyKind::LessOneHalfOverOneThirdNay) == "LessOneHalfOverOneThirdNay"@,
{
    reveal_strlit("passed");
    reveal_strlit("rejected");
    reveal_strlit("TwoThirds");
}

} // verus!
