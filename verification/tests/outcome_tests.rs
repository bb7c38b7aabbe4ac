//! Tests of the classifier, the demand-control policy, and the telemetry
//! selectors.

use demand_control::outcome::CostClassification;
use demand_control::outcome::CostLimits;
use demand_control::outcome::CostResult;
use demand_control::outcome::DemandControlPolicy;
use demand_control::outcome::PolicyDecision;
use demand_control::outcome::RejectReason;
use demand_control::telemetry::CostAttributes;
use demand_control::telemetry::CostValue;
use demand_control::telemetry::SelectedValue;

const NO_LIMITS: CostLimits = CostLimits { estimated: None, actual: None };

#[test]
fn delta_reflects_an_overestimate() {
    // A list estimated at 10 items resolved to 7: the delta is negative.
    let result = CostResult::new(10, Some(7), &NO_LIMITS);
    assert_eq!(result.estimated, 10);
    assert_eq!(result.actual, Some(7));
    assert_eq!(result.delta, Some(-3));
    assert!(result.delta.unwrap() < 0);
    assert_eq!(result.classification, CostClassification::Within);
}

#[test]
fn delta_absent_without_an_actual_cost() {
    let result = CostResult::new(10, None, &NO_LIMITS);
    assert_eq!(result.delta, None);
    assert_eq!(result.classification, CostClassification::Within);
}

#[test]
fn estimated_limit_classification_dominates() {
    let limits = CostLimits { estimated: Some(5), actual: Some(5) };
    let result = CostResult::new(10, Some(20), &limits);
    assert_eq!(result.classification, CostClassification::EstimatedExceeded);
}

#[test]
fn actual_limit_classification() {
    let limits = CostLimits { estimated: Some(50), actual: Some(5) };
    let result = CostResult::new(10, Some(20), &limits);
    assert_eq!(result.classification, CostClassification::ActualExceeded);
}

#[test]
fn within_both_limits() {
    let limits = CostLimits { estimated: Some(50), actual: Some(50) };
    let result = CostResult::new(10, Some(20), &limits);
    assert_eq!(result.classification, CostClassification::Within);
}

#[test]
fn limits_are_inclusive_bounds() {
    let limits = CostLimits { estimated: Some(10), actual: Some(20) };
    let result = CostResult::new(10, Some(20), &limits);
    assert_eq!(result.classification, CostClassification::Within);
}

#[test]
fn erroneous_result_carries_the_error_classification() {
    let result = CostResult::erroneous();
    assert_eq!(result.estimated, 0);
    assert_eq!(result.actual, None);
    assert_eq!(result.delta, None);
    assert_eq!(result.classification, CostClassification::Error);
}

#[test]
fn policy_admits_within_limits() {
    let policy = DemandControlPolicy::new(CostLimits { estimated: Some(100), actual: Some(100) });
    let result = CostResult::new(10, Some(20), &policy.limits);
    assert_eq!(policy.decide(&result), PolicyDecision::Admit);
}

#[test]
fn policy_rejects_over_estimated_limit() {
    let policy = DemandControlPolicy::new(CostLimits { estimated: Some(5), actual: None });
    let result = CostResult::new(10, None, &policy.limits);
    assert_eq!(
        policy.decide(&result),
        PolicyDecision::Reject(RejectReason::OverEstimatedLimit)
    );
}

#[test]
fn policy_rejects_over_actual_limit() {
    let policy = DemandControlPolicy::new(CostLimits { estimated: None, actual: Some(5) });
    let result = CostResult::new(1, Some(10), &policy.limits);
    assert_eq!(
        policy.decide(&result),
        PolicyDecision::Reject(RejectReason::OverActualLimit)
    );
}

#[test]
fn policy_rejects_failed_evaluations() {
    let policy = DemandControlPolicy::new(NO_LIMITS);
    let result = CostResult::erroneous();
    assert_eq!(
        policy.decide(&result),
        PolicyDecision::Reject(RejectReason::EvaluationFailed)
    );
}

#[test]
fn policy_without_limits_admits_everything_evaluated() {
    let policy = DemandControlPolicy::new(NO_LIMITS);
    let result = CostResult::new(u64::MAX, Some(u64::MAX), &policy.limits);
    assert_eq!(policy.decide(&result), PolicyDecision::Admit);
}

#[test]
fn selectors_extract_each_value() {
    let limits = CostLimits { estimated: Some(5), actual: None };
    let result = CostResult::new(10, Some(7), &limits);
    assert_eq!(
        CostValue::Estimated.select(&result),
        SelectedValue::Number(10)
    );
    assert_eq!(CostValue::Actual.select(&result), SelectedValue::Number(7));
    assert_eq!(CostValue::Delta.select(&result), SelectedValue::Number(-3));
    assert_eq!(
        CostValue::Resolution.select(&result),
        SelectedValue::Outcome(CostClassification::EstimatedExceeded)
    );
}

#[test]
fn selectors_report_absent_values() {
    let result = CostResult::new(10, None, &NO_LIMITS);
    assert_eq!(CostValue::Actual.select(&result), SelectedValue::Absent);
    assert_eq!(CostValue::Delta.select(&result), SelectedValue::Absent);
}

#[test]
fn cost_attributes_default_to_unset() {
    let attributes = CostAttributes::default();
    assert_eq!(attributes.cost_estimated, None);
    assert_eq!(attributes.cost_actual, None);
    assert_eq!(attributes.cost_delta, None);
    assert_eq!(attributes.cost_result, None);
}
