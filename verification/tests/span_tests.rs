//! Tests of the span default-attribute levels for the three span kinds.

use demand_control::spans::DefaultAttributeRequirementLevel;
use demand_control::spans::RouterSpans;
use demand_control::spans::Spans;
use demand_control::spans::SubgraphSpans;
use demand_control::spans::SupergraphSpans;
use demand_control::spans::TelemetryDataKind;

#[test]
fn test_router_spans_level_none() {
    let mut spans = RouterSpans::default();
    spans.defaults_for_level(
        DefaultAttributeRequirementLevel::NoDefaults,
        TelemetryDataKind::Traces,
    );
    assert!(spans.attributes.http_request_method.is_none());
    assert!(spans.attributes.network_protocol_version.is_none());
    assert!(spans.attributes.url_path.is_none());
    assert!(spans.attributes.user_agent_original.is_none());
}

#[test]
fn test_router_spans_level_required() {
    let mut spans = RouterSpans::default();
    spans.defaults_for_level(
        DefaultAttributeRequirementLevel::Required,
        TelemetryDataKind::Traces,
    );
    assert_eq!(spans.attributes.http_request_method, Some(true));
    assert!(spans.attributes.network_protocol_version.is_none());
    assert_eq!(spans.attributes.url_path, Some(true));
    assert!(spans.attributes.user_agent_original.is_none());
}

#[test]
fn test_router_spans_level_recommended() {
    let mut spans = RouterSpans::default();
    spans.defaults_for_level(
        DefaultAttributeRequirementLevel::Recommended,
        TelemetryDataKind::Traces,
    );
    assert_eq!(spans.attributes.http_request_method, Some(true));
    assert_eq!(spans.attributes.network_protocol_version, Some(true));
    assert_eq!(spans.attributes.url_path, Some(true));
    assert_eq!(spans.attributes.user_agent_original, Some(true));
}

#[test]
fn test_supergraph_spans_level_none() {
    let mut spans = SupergraphSpans::default();
    spans.defaults_for_level(
        DefaultAttributeRequirementLevel::NoDefaults,
        TelemetryDataKind::Traces,
    );
    assert!(spans.attributes.graphql_document.is_none());
}

#[test]
fn test_supergraph_spans_level_required() {
    let mut spans = SupergraphSpans::default();
    spans.defaults_for_level(
        DefaultAttributeRequirementLevel::Required,
        TelemetryDataKind::Traces,
    );
    assert!(spans.attributes.graphql_document.is_none());
}

#[test]
fn test_supergraph_spans_level_recommended() {
    let mut spans = SupergraphSpans::default();
    spans.defaults_for_level(
        DefaultAttributeRequirementLevel::Recommended,
        TelemetryDataKind::Traces,
    );
    assert_eq!(spans.attributes.graphql_document, Some(true));
}

#[test]
fn test_subgraph_spans_level_none() {
    let mut spans = SubgraphSpans::default();
    spans.defaults_for_level(
        DefaultAttributeRequirementLevel::NoDefaults,
        TelemetryDataKind::Traces,
    );
    assert!(spans.attributes.subgraph_graphql_document.is_none());
    assert!(spans.attributes.subgraph_name.is_none());
}

#[test]
fn test_subgraph_spans_level_required() {
    let mut spans = SubgraphSpans::default();
    spans.defaults_for_level(
        DefaultAttributeRequirementLevel::Required,
        TelemetryDataKind::Traces,
    );
    assert!(spans.attributes.subgraph_graphql_document.is_none());
    assert_eq!(spans.attributes.subgraph_name, Some(true));
}

#[test]
fn test_subgraph_spans_level_recommended() {
    let mut spans = SubgraphSpans::default();
    spans.defaults_for_level(
        DefaultAttributeRequirementLevel::Recommended,
        TelemetryDataKind::Traces,
    );
    assert_eq!(spans.attributes.subgraph_graphql_document, Some(true));
    assert_eq!(spans.attributes.subgraph_name, Some(true));
}

#[test]
fn explicit_configuration_is_never_overridden() {
    let mut spans = RouterSpans::default();
    spans.attributes.http_request_method = Some(false);
    spans.defaults_for_level(
        DefaultAttributeRequirementLevel::Recommended,
        TelemetryDataKind::Traces,
    );
    assert_eq!(spans.attributes.http_request_method, Some(false));
    assert_eq!(spans.attributes.url_path, Some(true));
}

#[test]
fn defaults_apply_only_to_trace_data() {
    let mut spans = RouterSpans::default();
    spans.defaults_for_level(
        DefaultAttributeRequirementLevel::Recommended,
        TelemetryDataKind::Metrics,
    );
    assert!(spans.attributes.http_request_method.is_none());
    assert!(spans.attributes.url_path.is_none());
}

#[test]
fn update_defaults_applies_the_configured_level_everywhere() {
    let mut spans = Spans::default();
    spans.default_attribute_requirement_level = DefaultAttributeRequirementLevel::Recommended;
    spans.update_defaults();
    assert_eq!(spans.router.attributes.http_request_method, Some(true));
    assert_eq!(spans.supergraph.attributes.graphql_document, Some(true));
    assert_eq!(spans.subgraph.attributes.subgraph_graphql_document, Some(true));
}

#[test]
fn update_defaults_with_level_none_sets_nothing() {
    let mut spans = Spans::default();
    spans.update_defaults();
    assert!(spans.router.attributes.http_request_method.is_none());
    assert!(spans.supergraph.attributes.graphql_document.is_none());
    assert!(spans.subgraph.attributes.subgraph_graphql_document.is_none());
}
