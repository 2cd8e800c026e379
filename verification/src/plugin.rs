//! Plugin registry decisions.
//!
//! Registered decorators are tried in registration order against a payload
//! draft; the first one to claim the payload stops the iteration.  A
//! failing plugin is reported as a distinct plugin error and skipped: it
//! never aborts the overall reporting attempt.

use vstd::prelude::*;

verus! {

/// Error occurred during plugin processing.
#[derive(Debug)]
pub enum PluginError {
    Other(String),
}

/// What one registered decorator did with the payload draft.
#[derive(Debug, Clone, Copy, PartialEq, Eq, Structural)]
pub enum PluginOutcome {
    /// The decorator claimed the payload; iteration stops.
    Claimed,
    /// The decorator declined; the next one is tried.
    Declined,
    /// The decorator failed; it is skipped and the next one is tried.
    Failed,
}

/// Whether the registry should try the next decorator after this outcome:
/// only a claimed payload stops the iteration.
pub fn plugin_continue(outcome: PluginOutcome) -> (r: bool)
    ensures
        r == (outcome != PluginOutcome::Claimed),
{
    match outcome {
        PluginOutcome::Claimed => false,
        PluginOutcome::Declined => true,
        PluginOutcome::Failed => true,
    }
}

/// The index of the first decorator that claimed the payload, if any.
pub open spec fn first_claim_spec(outs: Seq<PluginOutcome>) -> Option<int>
    decreases outs.len(),
{
    if outs.len() == 0 {
        None
    } else if outs[0] == PluginOutcome::Claimed {
        Some(0)
    } else {
        match first_claim_spec(outs.drop_first()) {
            Some(i) => Some(i + 1),
            None => None,
        }
    }
}

proof fn lemma_first_claim_at(outs: Seq<PluginOutcome>, i: int)
    requires
        0 <= i <= outs.len(),
        forall|j: int| 0 <= j < i ==> outs[j] != PluginOutcome::Claimed,
        i < outs.len() ==> outs[i] == PluginOutcome::Claimed,
    ensures
        i < outs.len() ==> first_claim_spec(outs) == Some(i),
        i == outs.len() ==> first_claim_spec(outs) is None,
    decreases i + 1,
{
    if outs.len() == 0 {
    } else if i == 0 {
    } else {
        lemma_first_claim_at(outs.drop_first(), i - 1);
    }
}

/// The decorator whose contribution wins: the first of the recorded
/// outcomes that claimed the payload, or none when every decorator
/// declined or failed.
pub fn winning_plugin(outcomes: &Vec<PluginOutcome>) -> (r: Option<usize>)
    ensures
        match r {
            Some(i) => first_claim_spec(outcomes@) == Some(i as int),
            None => first_claim_spec(outcomes@) is None,
        },
{
    let mut i: usize = 0;
    while i < outcomes.len()
        invariant
            0 <= i <= outcomes@.len(),
            forall|j: int| 0 <= j < i ==> outcomes@[j] != PluginOutcome::Claimed,
        decreases outcomes@.len() - i,
    {
        if outcomes[i] == PluginOutcome::Claimed {
            proof {
                lemma_first_claim_at(outcomes@, i as int);
            }
            return Some(i);
        }
        i = i + 1;
    }
    proof {
        lemma_first_claim_at(outcomes@, outcomes@.len() as int);
    }
    None
}

} // verus!
