//! Cost telemetry configuration: which cost attributes to attach to spans,
//! and a selector for extracting one value out of a cost result.

use vstd::prelude::*;

use crate::outcome::CostClassification;
use crate::outcome::CostResult;

verus! {

/// Attributes for cost telemetry. Each flag toggles one attribute on
/// spans and logs; an unset flag means the attribute is not attached.
#[derive(Clone, Copy, PartialEq, Eq, Structural, Debug)]
pub struct CostAttributes {
    /// Attach the estimated cost of the operation (`cost.estimated`).
    pub cost_estimated: Option<bool>,
    /// Attach the actual cost of the operation (`cost.actual`).
    pub cost_actual: Option<bool>,
    /// Attach the delta between estimated and actual cost (`cost.delta`).
    pub cost_delta: Option<bool>,
    /// Attach the resolution of the cost calculation (`cost.result`).
    pub cost_result: Option<bool>,
}

impl Default for CostAttributes {
    /// By default no cost attribute is attached.
    fn default() -> (r: CostAttributes)
        ensures
            r.cost_estimated is None,
            r.cost_actual is None,
            r.cost_delta is None,
            r.cost_result is None,
    {
        CostAttributes {
            cost_estimated: None,
            cost_actual: None,
            cost_delta: None,
            cost_result: None,
        }
    }
}

/// Selects one value of a cost result for a configured attribute.
#[derive(Clone, Copy, PartialEq, Eq, Structural, Debug)]
pub enum CostValue {
    /// The estimated cost of the operation.
    Estimated,
    /// The actual cost of the operation.
    Actual,
    /// The delta between the estimated and actual cost.
    Delta,
    /// The resolution of the cost calculation.
    Resolution,
}

/// What a selector extracts: a number, the classification, or nothing
/// (the selected value is not known for this result).
#[derive(Clone, Copy, PartialEq, Eq, Structural, Debug)]
pub enum SelectedValue {
    Number(i128),
    Outcome(CostClassification),
    Absent,
}

/// The value each selector extracts from a cost result.
pub open spec fn select_spec(v: CostValue, r: CostResult) -> SelectedValue {
    match v {
        CostValue::Estimated => SelectedValue::Number(r.estimated as i128),
        CostValue::Actual => match r.actual {
            Some(a) => SelectedValue::Number(a as i128),
            None => SelectedValue::Absent,
        },
        CostValue::Delta => match r.delta {
            Some(d) => SelectedValue::Number(d),
            None => SelectedValue::Absent,
        },
        CostValue::Resolution => SelectedValue::Outcome(r.classification),
    }
}

impl CostValue {
    /// Extracts the selected value from a cost result.
    pub fn select(&self, result: &CostResult) -> (r: SelectedValue)
        ensures
            r == select_spec(*self, *result),
    {
        match self {
            CostValue::Estimated => SelectedValue::Number(result.estimated as i128),
            CostValue::Actual => match result.actual {
                Some(a) => SelectedValue::Number(a as i128),
                None => SelectedValue::Absent,
            },
            CostValue::Delta => match result.delta {
                Some(d) => SelectedValue::Number(d),
                None => SelectedValue::Absent,
            },
            CostValue::Resolution => SelectedValue::Outcome(result.classification),
        }
    }
}

} // verus!
