//! Scenario tests for the selection-cost evaluator.

use demand_control::cost::estimated_cost;
use demand_control::directives::DemandControlError;
use demand_control::model::ArgumentValue;
use demand_control::model::DirectiveArgument;
use demand_control::model::DirectiveInstance;
use demand_control::model::FieldDefinition;
use demand_control::model::FieldSelection;
use demand_control::model::Operation;
use demand_control::model::RequiresSource;
use demand_control::model::Schema;
use demand_control::model::SchemaViews;

fn directive(name: &str, args: Vec<(&str, ArgumentValue)>) -> DirectiveInstance {
    DirectiveInstance {
        name: name.to_string(),
        arguments: args
            .into_iter()
            .map(|(n, v)| DirectiveArgument { name: n.to_string(), value: v })
            .collect(),
    }
}

fn cost_directive(weight: u64) -> DirectiveInstance {
    directive("cost", vec![("weight", ArgumentValue::Number(weight))])
}

fn skip_directive(condition: bool) -> DirectiveInstance {
    directive("skip", vec![("if", ArgumentValue::Boolean(condition))])
}

fn include_directive(condition: bool) -> DirectiveInstance {
    directive("include", vec![("if", ArgumentValue::Boolean(condition))])
}

fn field(name: &str) -> FieldSelection {
    FieldSelection {
        name: name.to_string(),
        directives: vec![],
        selections: vec![],
    }
}

fn field_with(name: &str, directives: Vec<DirectiveInstance>) -> FieldSelection {
    FieldSelection {
        name: name.to_string(),
        directives,
        selections: vec![],
    }
}

fn definition(
    parent: &str,
    name: &str,
    result: &str,
    directives: Vec<DirectiveInstance>,
    requires: Option<RequiresSource>,
) -> FieldDefinition {
    FieldDefinition {
        parent_type: parent.to_string(),
        name: name.to_string(),
        result_type: result.to_string(),
        directives,
        requires,
    }
}

fn operation(fields: Vec<FieldSelection>) -> Operation {
    Operation {
        root_type: "Query".to_string(),
        selections: fields,
    }
}

#[test]
fn single_weighted_field_costs_its_weight() {
    let schemas = SchemaViews {
        api: Schema {
            fields: vec![definition("Query", "a", "Int", vec![cost_directive(5)], None)],
        },
        supergraph: Schema {
            fields: vec![definition("Query", "a", "Int", vec![], None)],
        },
    };
    let op = operation(vec![field("a")]);
    assert_eq!(estimated_cost(&schemas, &op).unwrap(), 5);
}

#[test]
fn skipped_field_costs_nothing() {
    let schemas = SchemaViews {
        api: Schema {
            fields: vec![definition("Query", "a", "Int", vec![cost_directive(10)], None)],
        },
        supergraph: Schema {
            fields: vec![definition("Query", "a", "Int", vec![], None)],
        },
    };
    let op = operation(vec![field_with("a", vec![skip_directive(true)])]);
    assert_eq!(estimated_cost(&schemas, &op).unwrap(), 0);
}

#[test]
fn shared_requirement_charged_once() {
    // x (weight 2) and y (weight 3) both require b (weight 4):
    // the total is 2 + 3 + 4 = 9, not 13.
    let requires_b = || Some(RequiresSource::Parsed(vec![field("b")]));
    let schemas = SchemaViews {
        api: Schema {
            fields: vec![
                definition("Query", "x", "Int", vec![cost_directive(2)], None),
                definition("Query", "y", "Int", vec![cost_directive(3)], None),
                definition("Query", "b", "Int", vec![cost_directive(4)], None),
            ],
        },
        supergraph: Schema {
            fields: vec![
                definition("Query", "x", "Int", vec![], requires_b()),
                definition("Query", "y", "Int", vec![], requires_b()),
                definition("Query", "b", "Int", vec![], None),
            ],
        },
    };
    let op = operation(vec![field("x"), field("y")]);
    assert_eq!(estimated_cost(&schemas, &op).unwrap(), 9);
}

#[test]
fn operation_without_cost_directives_is_free() {
    let schemas = SchemaViews {
        api: Schema {
            fields: vec![
                definition("Query", "a", "Obj", vec![], None),
                definition("Obj", "b", "Int", vec![], None),
            ],
        },
        supergraph: Schema {
            fields: vec![
                definition("Query", "a", "Obj", vec![], None),
                definition("Obj", "b", "Int", vec![], None),
            ],
        },
    };
    let op = operation(vec![FieldSelection {
        name: "a".to_string(),
        directives: vec![],
        selections: vec![field("b")],
    }]);
    assert_eq!(estimated_cost(&schemas, &op).unwrap(), 0);
}

#[test]
fn skip_prunes_descendants_entirely() {
    // A descendant carrying weight 100 must not appear in the total when
    // its parent is skipped.
    let schemas = SchemaViews {
        api: Schema {
            fields: vec![
                definition("Query", "a", "Obj", vec![], None),
                definition("Obj", "heavy", "Int", vec![cost_directive(100)], None),
            ],
        },
        supergraph: Schema {
            fields: vec![
                definition("Query", "a", "Obj", vec![], None),
                definition("Obj", "heavy", "Int", vec![], None),
            ],
        },
    };
    let op = operation(vec![FieldSelection {
        name: "a".to_string(),
        directives: vec![skip_directive(true)],
        selections: vec![field("heavy")],
    }]);
    assert_eq!(estimated_cost(&schemas, &op).unwrap(), 0);
}

#[test]
fn include_false_behaves_like_skip_true() {
    let schemas = SchemaViews {
        api: Schema {
            fields: vec![definition("Query", "a", "Int", vec![cost_directive(10)], None)],
        },
        supergraph: Schema {
            fields: vec![definition("Query", "a", "Int", vec![], None)],
        },
    };
    let skipped = operation(vec![field_with("a", vec![skip_directive(true)])]);
    let excluded = operation(vec![field_with("a", vec![include_directive(false)])]);
    assert_eq!(
        estimated_cost(&schemas, &skipped).unwrap(),
        estimated_cost(&schemas, &excluded).unwrap()
    );
    assert_eq!(estimated_cost(&schemas, &excluded).unwrap(), 0);
}

#[test]
fn include_true_is_a_noop() {
    let schemas = SchemaViews {
        api: Schema {
            fields: vec![definition("Query", "a", "Int", vec![cost_directive(7)], None)],
        },
        supergraph: Schema {
            fields: vec![definition("Query", "a", "Int", vec![], None)],
        },
    };
    let plain = operation(vec![field("a")]);
    let included = operation(vec![field_with("a", vec![include_directive(true)])]);
    assert_eq!(estimated_cost(&schemas, &plain).unwrap(), 7);
    assert_eq!(
        estimated_cost(&schemas, &included).unwrap(),
        estimated_cost(&schemas, &plain).unwrap()
    );
}

#[test]
fn nested_selections_accumulate() {
    let schemas = SchemaViews {
        api: Schema {
            fields: vec![
                definition("Query", "a", "Obj", vec![cost_directive(1)], None),
                definition("Obj", "b", "Int", vec![cost_directive(2)], None),
                definition("Obj", "c", "Int", vec![cost_directive(3)], None),
            ],
        },
        supergraph: Schema {
            fields: vec![
                definition("Query", "a", "Obj", vec![], None),
                definition("Obj", "b", "Int", vec![], None),
                definition("Obj", "c", "Int", vec![], None),
            ],
        },
    };
    let op = operation(vec![FieldSelection {
        name: "a".to_string(),
        directives: vec![],
        selections: vec![field("b"), field("c")],
    }]);
    assert_eq!(estimated_cost(&schemas, &op).unwrap(), 6);
}

#[test]
fn requirement_cycle_is_detected() {
    // a requires b and b requires a: evaluation aborts with CycleDetected
    // instead of recursing unboundedly.
    let schemas = SchemaViews {
        api: Schema {
            fields: vec![
                definition("Query", "a", "Int", vec![], None),
                definition("Query", "b", "Int", vec![], None),
            ],
        },
        supergraph: Schema {
            fields: vec![
                definition(
                    "Query",
                    "a",
                    "Int",
                    vec![],
                    Some(RequiresSource::Parsed(vec![field("b")])),
                ),
                definition(
                    "Query",
                    "b",
                    "Int",
                    vec![],
                    Some(RequiresSource::Parsed(vec![field("a")])),
                ),
            ],
        },
    };
    let op = operation(vec![field("a")]);
    let outcome = estimated_cost(&schemas, &op);
    assert!(matches!(
        outcome,
        Err(DemandControlError::CycleDetected { .. })
    ));
}

#[test]
fn missing_supergraph_field_is_a_parse_failure() {
    let schemas = SchemaViews {
        api: Schema {
            fields: vec![definition("Query", "a", "Int", vec![], None)],
        },
        supergraph: Schema { fields: vec![] },
    };
    let op = operation(vec![field("a")]);
    let outcome = estimated_cost(&schemas, &op);
    match outcome {
        Err(DemandControlError::QueryParseFailure {
            parent_name,
            field_name,
        }) => {
            assert_eq!(parent_name, "Query");
            assert_eq!(field_name, "a");
        }
        other => panic!("expected a query parse failure, got {:?}", other.is_ok()),
    }
}

#[test]
fn malformed_requires_string_is_a_parse_failure() {
    let schemas = SchemaViews {
        api: Schema {
            fields: vec![definition("Query", "a", "Int", vec![], None)],
        },
        supergraph: Schema {
            fields: vec![definition(
                "Query",
                "a",
                "Int",
                vec![],
                Some(RequiresSource::Malformed),
            )],
        },
    };
    let op = operation(vec![field("a")]);
    assert!(matches!(
        estimated_cost(&schemas, &op),
        Err(DemandControlError::QueryParseFailure { .. })
    ));
}

#[test]
fn excluded_field_does_no_requirement_bookkeeping() {
    // x is skipped, so its requirement must not be expanded nor recorded;
    // y then pays for the shared requirement itself.
    let requires_b = || Some(RequiresSource::Parsed(vec![field("b")]));
    let schemas = SchemaViews {
        api: Schema {
            fields: vec![
                definition("Query", "x", "Int", vec![cost_directive(2)], None),
                definition("Query", "y", "Int", vec![cost_directive(3)], None),
                definition("Query", "b", "Int", vec![cost_directive(4)], None),
            ],
        },
        supergraph: Schema {
            fields: vec![
                definition("Query", "x", "Int", vec![], requires_b()),
                definition("Query", "y", "Int", vec![], requires_b()),
                definition("Query", "b", "Int", vec![], None),
            ],
        },
    };
    let op = operation(vec![
        field_with("x", vec![skip_directive(true)]),
        field("y"),
    ]);
    assert_eq!(estimated_cost(&schemas, &op).unwrap(), 7);
}

#[test]
fn requirement_fields_carry_their_own_weight_and_children() {
    // a requires b { c }: the required selection's nested fields count.
    let schemas = SchemaViews {
        api: Schema {
            fields: vec![
                definition("Query", "a", "Int", vec![cost_directive(1)], None),
                definition("Query", "b", "Obj", vec![cost_directive(2)], None),
                definition("Obj", "c", "Int", vec![cost_directive(3)], None),
            ],
        },
        supergraph: Schema {
            fields: vec![
                definition(
                    "Query",
                    "a",
                    "Int",
                    vec![],
                    Some(RequiresSource::Parsed(vec![FieldSelection {
                        name: "b".to_string(),
                        directives: vec![],
                        selections: vec![field("c")],
                    }])),
                ),
                definition("Query", "b", "Obj", vec![], None),
                definition("Obj", "c", "Int", vec![], None),
            ],
        },
    };
    let op = operation(vec![field("a")]);
    assert_eq!(estimated_cost(&schemas, &op).unwrap(), 6);
}

#[test]
fn cost_saturates_instead_of_overflowing() {
    let schemas = SchemaViews {
        api: Schema {
            fields: vec![
                definition("Query", "a", "Int", vec![cost_directive(u64::MAX)], None),
                definition("Query", "b", "Int", vec![cost_directive(u64::MAX)], None),
            ],
        },
        supergraph: Schema {
            fields: vec![
                definition("Query", "a", "Int", vec![], None),
                definition("Query", "b", "Int", vec![], None),
            ],
        },
    };
    let op = operation(vec![field("a"), field("b")]);
    assert_eq!(estimated_cost(&schemas, &op).unwrap(), u64::MAX);
}

#[test]
fn empty_operation_is_free() {
    let schemas = SchemaViews {
        api: Schema { fields: vec![] },
        supergraph: Schema { fields: vec![] },
    };
    let op = operation(vec![]);
    assert_eq!(estimated_cost(&schemas, &op).unwrap(), 0);
}

#[test]
fn first_schema_entry_wins_on_duplicates() {
    let schemas = SchemaViews {
        api: Schema {
            fields: vec![
                definition("Query", "a", "Int", vec![cost_directive(5)], None),
                definition("Query", "a", "Int", vec![cost_directive(9)], None),
            ],
        },
        supergraph: Schema {
            fields: vec![definition("Query", "a", "Int", vec![], None)],
        },
    };
    let op = operation(vec![field("a")]);
    assert_eq!(estimated_cost(&schemas, &op).unwrap(), 5);
}

#[test]
fn unrelated_directives_are_ignored() {
    let schemas = SchemaViews {
        api: Schema {
            fields: vec![definition("Query", "a", "Int", vec![cost_directive(5)], None)],
        },
        supergraph: Schema {
            fields: vec![definition("Query", "a", "Int", vec![], None)],
        },
    };
    let op = operation(vec![field_with(
        "a",
        vec![directive("defer", vec![("if", ArgumentValue::Boolean(true))])],
    )]);
    assert_eq!(estimated_cost(&schemas, &op).unwrap(), 5);
}

#[test]
fn skip_with_non_boolean_condition_defaults_to_not_skipped() {
    let schemas = SchemaViews {
        api: Schema {
            fields: vec![definition("Query", "a", "Int", vec![cost_directive(5)], None)],
        },
        supergraph: Schema {
            fields: vec![definition("Query", "a", "Int", vec![], None)],
        },
    };
    let op = operation(vec![field_with(
        "a",
        vec![directive("skip", vec![("if", ArgumentValue::Text("yes".to_string()))])],
    )]);
    assert_eq!(estimated_cost(&schemas, &op).unwrap(), 5);
}

#[test]
fn adding_a_field_never_decreases_the_estimate() {
    let schemas = SchemaViews {
        api: Schema {
            fields: vec![
                definition("Query", "a", "Int", vec![cost_directive(5)], None),
                definition("Query", "zero", "Int", vec![], None),
            ],
        },
        supergraph: Schema {
            fields: vec![
                definition("Query", "a", "Int", vec![], None),
                definition("Query", "zero", "Int", vec![], None),
            ],
        },
    };
    let smaller = operation(vec![field("a")]);
    let larger = operation(vec![field("a"), field("zero")]);
    assert!(
        estimated_cost(&schemas, &larger).unwrap() >= estimated_cost(&schemas, &smaller).unwrap()
    );
}
