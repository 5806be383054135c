use vstd::prelude::*;

verus! {

/// Verdict on whether the last reading is still representative of the
/// device's current state. Formatting (labels, colors) is a presentation
/// concern and lives outside the core.
#[derive(PartialEq, Eq, Structural, Clone, Copy, Debug)]
pub enum Freshness {
    Fresh,
    Stale,
}

/// A reading is fresh while strictly less than the threshold has elapsed
/// since it was taken.
pub open spec fn fresh_within(elapsed_secs: u64, threshold_secs: u64) -> bool {
    elapsed_secs < threshold_secs
}

/// Classify the elapsed seconds since the last accepted update: `Fresh` if
/// and only if strictly less than `threshold_secs` has elapsed.
pub fn classify(elapsed_secs: u64, threshold_secs: u64) -> (verdict: Freshness)
    ensures
        (verdict == Freshness::Fresh) <==> fresh_within(elapsed_secs, threshold_secs),
        (verdict == Freshness::Stale) <==> !fresh_within(elapsed_secs, threshold_secs),
{
    if elapsed_secs < threshold_secs {
        Freshness::Fresh
    } else {
        Freshness::Stale
    }
}

}
