//! Tests of directive resolution: typed values, safe defaults for absent
//! or wrong-shaped arguments, and the supergraph-side requires lookup.

use demand_control::directives::CostDirective;
use demand_control::directives::DemandControlError;
use demand_control::directives::IncludeDirective;
use demand_control::directives::RequiresDirective;
use demand_control::directives::SkipDirective;
use demand_control::model::ArgumentValue;
use demand_control::model::DirectiveArgument;
use demand_control::model::DirectiveInstance;
use demand_control::model::FieldDefinition;
use demand_control::model::FieldSelection;
use demand_control::model::RequiresSource;
use demand_control::model::Schema;

fn directive(name: &str, args: Vec<(&str, ArgumentValue)>) -> DirectiveInstance {
    DirectiveInstance {
        name: name.to_string(),
        arguments: args
            .into_iter()
            .map(|(n, v)| DirectiveArgument { name: n.to_string(), value: v })
            .collect(),
    }
}

fn definition(directives: Vec<DirectiveInstance>) -> FieldDefinition {
    FieldDefinition {
        parent_type: "Query".to_string(),
        name: "a".to_string(),
        result_type: "Int".to_string(),
        directives,
        requires: None,
    }
}

fn selection(directives: Vec<DirectiveInstance>) -> FieldSelection {
    FieldSelection {
        name: "a".to_string(),
        directives,
        selections: vec![],
    }
}

#[test]
fn cost_directive_reads_numeric_weight() {
    let def = definition(vec![directive(
        "cost",
        vec![("weight", ArgumentValue::Number(5))],
    )]);
    let resolved = CostDirective::from_field(&def).unwrap().unwrap();
    assert_eq!(resolved.weight, 5);
}

#[test]
fn cost_directive_absent_yields_none() {
    let def = definition(vec![]);
    assert!(CostDirective::from_field(&def).unwrap().is_none());
}

#[test]
fn cost_directive_with_wrong_argument_shape_yields_none() {
    let textual = definition(vec![directive(
        "cost",
        vec![("weight", ArgumentValue::Text("five".to_string()))],
    )]);
    assert!(CostDirective::from_field(&textual).unwrap().is_none());
    let misnamed = definition(vec![directive(
        "cost",
        vec![("height", ArgumentValue::Number(5))],
    )]);
    assert!(CostDirective::from_field(&misnamed).unwrap().is_none());
}

#[test]
fn first_cost_directive_wins() {
    let def = definition(vec![
        directive("cost", vec![("weight", ArgumentValue::Number(2))]),
        directive("cost", vec![("weight", ArgumentValue::Number(9))]),
    ]);
    assert_eq!(CostDirective::from_field(&def).unwrap().unwrap().weight, 2);
}

#[test]
fn skip_directive_reads_bound_condition() {
    let on = selection(vec![directive(
        "skip",
        vec![("if", ArgumentValue::Boolean(true))],
    )]);
    assert!(SkipDirective::from_field(&on).unwrap().unwrap().is_skipped);
    let off = selection(vec![directive(
        "skip",
        vec![("if", ArgumentValue::Boolean(false))],
    )]);
    assert!(!SkipDirective::from_field(&off).unwrap().unwrap().is_skipped);
}

#[test]
fn skip_directive_with_non_boolean_condition_yields_none() {
    let sel = selection(vec![directive(
        "skip",
        vec![("if", ArgumentValue::Text("yes".to_string()))],
    )]);
    assert!(SkipDirective::from_field(&sel).unwrap().is_none());
}

#[test]
fn include_directive_reads_bound_condition() {
    let sel = selection(vec![directive(
        "include",
        vec![("if", ArgumentValue::Boolean(false))],
    )]);
    assert!(!IncludeDirective::from_field(&sel).unwrap().unwrap().is_included);
}

#[test]
fn include_directive_absent_yields_none() {
    let sel = selection(vec![]);
    assert!(IncludeDirective::from_field(&sel).unwrap().is_none());
}

#[test]
fn requires_directive_resolves_through_the_supergraph() {
    let supergraph = Schema {
        fields: vec![FieldDefinition {
            parent_type: "Query".to_string(),
            name: "a".to_string(),
            result_type: "Int".to_string(),
            directives: vec![],
            requires: Some(RequiresSource::Parsed(vec![FieldSelection {
                name: "b".to_string(),
                directives: vec![],
                selections: vec![],
            }])),
        }],
    };
    let sel = selection(vec![]);
    let parent = "Query".to_string();
    let resolved = RequiresDirective::from_field(&sel, &parent, &supergraph)
        .unwrap()
        .unwrap();
    assert_eq!(resolved.fields.len(), 1);
    assert_eq!(resolved.fields[0].name, "b");
}

#[test]
fn requires_directive_absent_yields_none() {
    let supergraph = Schema {
        fields: vec![FieldDefinition {
            parent_type: "Query".to_string(),
            name: "a".to_string(),
            result_type: "Int".to_string(),
            directives: vec![],
            requires: None,
        }],
    };
    let sel = selection(vec![]);
    let parent = "Query".to_string();
    assert!(RequiresDirective::from_field(&sel, &parent, &supergraph)
        .unwrap()
        .is_none());
}

#[test]
fn requires_lookup_failure_is_a_parse_failure() {
    let supergraph = Schema { fields: vec![] };
    let sel = selection(vec![]);
    let parent = "Query".to_string();
    let outcome = RequiresDirective::from_field(&sel, &parent, &supergraph);
    match outcome {
        Err(DemandControlError::QueryParseFailure {
            parent_name,
            field_name,
        }) => {
            assert_eq!(parent_name, "Query");
            assert_eq!(field_name, "a");
        }
        _ => panic!("expected a query parse failure"),
    }
}

#[test]
fn requires_malformed_field_set_is_a_parse_failure() {
    let supergraph = Schema {
        fields: vec![FieldDefinition {
            parent_type: "Query".to_string(),
            name: "a".to_string(),
            result_type: "Int".to_string(),
            directives: vec![],
            requires: Some(RequiresSource::Malformed),
        }],
    };
    let sel = selection(vec![]);
    let parent = "Query".to_string();
    assert!(matches!(
        RequiresDirective::from_field(&sel, &parent, &supergraph),
        Err(DemandControlError::QueryParseFailure { .. })
    ));
}
