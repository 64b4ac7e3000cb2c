use vstd::prelude::*;

use crate::decl::TypeDeclaration;
use crate::emit::GeneratedFragment;
use crate::emit::fragment_spec;
use crate::emit::generate;
use crate::normalize::NormalizeError;
use crate::validate::Reason;
use crate::validate::is_eligible;
use crate::validate::rejection;

verus! {

/// The harness's verdict after comparing formatted text against the
/// stored baseline for a case.
#[derive(Clone, PartialEq, Eq, Debug)]
pub enum ComparisonOutcome {
    /// The formatted text equals the stored baseline.
    Match,
    /// The formatted text differs from the stored baseline; both texts
    /// are carried for diagnostic diffing, expected first.
    Mismatch(String, String),
    /// No baseline is stored for this case; the formatted text is
    /// carried so that it can be recorded on explicit acceptance.
    NoBaseline(String),
}

/// How one harness case ended. A stage failure short-circuits the
/// case, tagged with the stage it arose in; comparison never sees
/// partial output.
#[derive(Clone, PartialEq, Eq, Debug)]
pub enum RunOutcome {
    /// All stages ran; the comparison's verdict.
    Compared(ComparisonOutcome),
    /// The declaration was rejected in the validating stage.
    FailedValidation(Reason),
    /// The external formatter failed in the normalizing stage.
    FailedNormalization(NormalizeError),
}

/// The stored baseline's text, if one is stored.
pub open spec fn baseline_view(baseline: Option<&String>) -> Option<Seq<char>> {
    match baseline {
        Some(b) => Some(b@),
        None => None,
    }
}

/// What `compare` promises: a missing baseline yields `NoBaseline`
/// carrying the actual text, an equal baseline yields `Match`, and a
/// differing one yields `Mismatch` carrying both texts unchanged.
pub open spec fn compare_post(
    r: ComparisonOutcome,
    actual: Seq<char>,
    baseline: Option<Seq<char>>,
) -> bool {
    match baseline {
        None => r matches ComparisonOutcome::NoBaseline(a) && a@ == actual,
        Some(b) => if b == actual {
            r is Match
        } else {
            r matches ComparisonOutcome::Mismatch(e, a) && e@ == b && a@ == actual
        },
    }
}

/// Compares formatted text against the stored baseline for a case.
pub fn compare(actual: String, baseline: Option<&String>) -> (r: ComparisonOutcome)
    ensures
        compare_post(r, actual@, baseline_view(baseline)),
{
    match baseline {
        None => ComparisonOutcome::NoBaseline(actual),
        Some(expected) => {
            if actual == *expected {
                ComparisonOutcome::Match
            } else {
                ComparisonOutcome::Mismatch(expected.clone(), actual)
            }
        },
    }
}

/// Runs the validating and emitting stages of one case. An eligible
/// declaration yields its unformatted fragment, to be handed to the
/// external formatter; a rejected one short-circuits to a failed
/// outcome and nothing is emitted.
pub fn start_case(decl: &TypeDeclaration) -> (r: Result<GeneratedFragment, RunOutcome>)
    ensures
        is_eligible(*decl) ==> (r matches Ok(f) && f@ == fragment_spec(
            decl.name@,
            decl.fields@[0].ty@,
        )),
        !is_eligible(*decl) ==> r == Err::<GeneratedFragment, RunOutcome>(
            RunOutcome::FailedValidation(rejection(*decl)),
        ),
{
    match generate(decl) {
        Ok(fragment) => Ok(fragment),
        Err(reason) => Err(RunOutcome::FailedValidation(reason)),
    }
}

/// Runs the comparing stage of one case, given what the external
/// formatter returned for the emitted fragment and the stored
/// baseline. A normalization failure aborts the case: the outcome is
/// then `FailedNormalization`, never a comparison verdict.
pub fn finish_case(
    normalized: Result<String, NormalizeError>,
    baseline: Option<&String>,
) -> (r: RunOutcome)
    ensures
        normalized matches Err(e) ==> r == RunOutcome::FailedNormalization(e),
        normalized matches Ok(text) ==> (r matches RunOutcome::Compared(c) && compare_post(
            c,
            text@,
            baseline_view(baseline),
        )),
{
    match normalized {
        Ok(text) => RunOutcome::Compared(compare(text, baseline)),
        Err(e) => RunOutcome::FailedNormalization(e),
    }
}

} // verus!
