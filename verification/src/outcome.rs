//! Cost results and the demand-control policy: combine the estimated cost
//! (computed before execution) with the actual cost (recomputed from the
//! real response shape) into a classified result, and decide admission
//! against configured limits.
//!
//! Neither the classifier nor the policy has side effects: rejection is a
//! first-class decision value for the surrounding plugin to enforce.

use vstd::prelude::*;

verus! {

/// How a cost evaluation relates to the configured limits.
#[derive(Clone, Copy, PartialEq, Eq, Structural, Debug)]
pub enum CostClassification {
    /// Both costs are within their limits.
    Within,
    /// The estimated cost exceeds its limit.
    EstimatedExceeded,
    /// The actual cost exceeds its limit.
    ActualExceeded,
    /// Evaluation failed; no costs were produced.
    Error,
}

/// Independent thresholds for the estimated and the actual cost. A
/// missing threshold never rejects.
#[derive(Clone, Copy, PartialEq, Eq, Structural, Debug)]
pub struct CostLimits {
    pub estimated: Option<u64>,
    pub actual: Option<u64>,
}

/// One operation evaluation's costs, their delta, and the classification
/// against the limits in force. Ephemeral: one per operation.
#[derive(Clone, Copy, Debug)]
pub struct CostResult {
    pub estimated: u64,
    pub actual: Option<u64>,
    pub delta: Option<i128>,
    pub classification: CostClassification,
}

/// Whether the estimated cost exceeds its configured limit.
pub open spec fn estimated_exceeds(estimated: u64, limits: CostLimits) -> bool {
    match limits.estimated {
        Some(m) => estimated > m,
        None => false,
    }
}

/// Whether the actual cost is known and exceeds its configured limit.
pub open spec fn actual_exceeds(actual: Option<u64>, limits: CostLimits) -> bool {
    match (actual, limits.actual) {
        (Some(a), Some(m)) => a > m,
        _ => false,
    }
}

/// `actual - estimated`, when the actual cost is known.
pub open spec fn delta_spec(estimated: u64, actual: Option<u64>) -> Option<i128> {
    match actual {
        Some(a) => Some((a as i128 - estimated as i128) as i128),
        None => None,
    }
}

/// Classification of a completed evaluation: an exceeded estimated limit
/// dominates, then an exceeded actual limit, otherwise `Within`.
pub open spec fn classification_spec(
    estimated: u64,
    actual: Option<u64>,
    limits: CostLimits,
) -> CostClassification {
    if estimated_exceeds(estimated, limits) {
        CostClassification::EstimatedExceeded
    } else if actual_exceeds(actual, limits) {
        CostClassification::ActualExceeded
    } else {
        CostClassification::Within
    }
}

impl CostResult {
    /// Combines the two costs into a classified result.
    pub fn new(estimated: u64, actual: Option<u64>, limits: &CostLimits) -> (r: CostResult)
        ensures
            r.estimated == estimated,
            r.actual == actual,
            r.delta == delta_spec(estimated, actual),
            r.classification == classification_spec(estimated, actual, *limits),
    {
        let delta: Option<i128> = match actual {
            Some(a) => Some(a as i128 - estimated as i128),
            None => None,
        };
        let estimated_over = match limits.estimated {
            Some(m) => estimated > m,
            None => false,
        };
        let actual_over = match (actual, limits.actual) {
            (Some(a), Some(m)) => a > m,
            _ => false,
        };
        let classification = if estimated_over {
            CostClassification::EstimatedExceeded
        } else if actual_over {
            CostClassification::ActualExceeded
        } else {
            CostClassification::Within
        };
        CostResult { estimated, actual, delta, classification }
    }

    /// The result of an evaluation that failed before producing a cost.
    pub fn erroneous() -> (r: CostResult)
        ensures
            r.estimated == 0,
            r.actual is None,
            r.delta is None,
            r.classification == CostClassification::Error,
    {
        CostResult {
            estimated: 0,
            actual: None,
            delta: None,
            classification: CostClassification::Error,
        }
    }
}

/// Why an operation was rejected.
#[derive(Clone, Copy, PartialEq, Eq, Structural, Debug)]
pub enum RejectReason {
    /// The estimated cost exceeded its limit.
    OverEstimatedLimit,
    /// The actual cost exceeded its limit.
    OverActualLimit,
    /// Cost evaluation failed.
    EvaluationFailed,
}

/// The admission decision handed back to the surrounding plugin.
#[derive(Clone, Copy, PartialEq, Eq, Structural, Debug)]
pub enum PolicyDecision {
    Admit,
    Reject(RejectReason),
}

/// What `DemandControlPolicy::decide` yields: a failed evaluation is
/// rejected, exceeding either threshold is rejected (the estimated
/// threshold checked first), anything else is admitted.
pub open spec fn decide_spec(result: CostResult, limits: CostLimits) -> PolicyDecision {
    if result.classification == CostClassification::Error {
        PolicyDecision::Reject(RejectReason::EvaluationFailed)
    } else if estimated_exceeds(result.estimated, limits) {
        PolicyDecision::Reject(RejectReason::OverEstimatedLimit)
    } else if actual_exceeds(result.actual, limits) {
        PolicyDecision::Reject(RejectReason::OverActualLimit)
    } else {
        PolicyDecision::Admit
    }
}

/// The policy agrees with the classifier: for a result classified against
/// the same limits, the policy admits exactly the results classified
/// `Within`.
pub proof fn lemma_decision_matches_classification(r: CostResult, limits: CostLimits)
    requires
        r.classification == classification_spec(r.estimated, r.actual, limits),
    ensures
        (decide_spec(r, limits) == PolicyDecision::Admit) <==> (r.classification
            == CostClassification::Within),
{
}

/// The demand-control policy: configured limits, and a pure decision
/// function over them. The surrounding middleware performs the actual
/// request short-circuiting.
#[derive(Clone, Copy, PartialEq, Eq, Structural, Debug)]
pub struct DemandControlPolicy {
    pub limits: CostLimits,
}

impl DemandControlPolicy {
    pub fn new(limits: CostLimits) -> (r: DemandControlPolicy)
        ensures
            r.limits == limits,
    {
        DemandControlPolicy { limits }
    }

    /// Decides admission for a cost result. Pure: no hidden state.
    pub fn decide(&self, result: &CostResult) -> (r: PolicyDecision)
        ensures
            r == decide_spec(*result, self.limits),
            (r == PolicyDecision::Admit) <==> (result.classification
                != CostClassification::Error && !estimated_exceeds(result.estimated, self.limits)
                && !actual_exceeds(result.actual, self.limits)),
    {
        let failed = match result.classification {
            CostClassification::Error => true,
            _ => false,
        };
        if failed {
            return PolicyDecision::Reject(RejectReason::EvaluationFailed);
        }
        let estimated_over = match self.limits.estimated {
            Some(m) => result.estimated > m,
            None => false,
        };
        if estimated_over {
            return PolicyDecision::Reject(RejectReason::OverEstimatedLimit);
        }
        let actual_over = match (result.actual, self.limits.actual) {
            (Some(a), Some(m)) => a > m,
            _ => false,
        };
        if actual_over {
            return PolicyDecision::Reject(RejectReason::OverActualLimit);
        }
        PolicyDecision::Admit
    }
}

} // verus!
