//! Span attribute configuration: which default attributes each span kind
//! receives for a configured requirement level.
//!
//! A flag the operator set explicitly is never overridden; applying a
//! level only fills flags that are still unset, and only for trace data.

use vstd::prelude::*;

verus! {

/// The default-attribute requirement level: which tiers of attributes are
/// attached when the operator has not configured them explicitly.
#[derive(Clone, Copy, PartialEq, Eq, Structural, Debug)]
pub enum DefaultAttributeRequirementLevel {
    /// Attach no attribute by default.
    NoDefaults,
    /// Attach the required attributes.
    Required,
    /// Attach the required and the recommended attributes.
    Recommended,
}

/// Which kind of telemetry data defaults are being applied for.
#[derive(Clone, Copy, PartialEq, Eq, Structural, Debug)]
pub enum TelemetryDataKind {
    Traces,
    Metrics,
}

/// Span attribute naming mode.
#[derive(Clone, Copy, PartialEq, Eq, Structural, Debug)]
pub enum SpanMode {
    SpecCompliant,
    Deprecated,
}

/// The level covers the required tier.
pub open spec fn includes_required(level: DefaultAttributeRequirementLevel) -> bool {
    level == DefaultAttributeRequirementLevel::Required || level
        == DefaultAttributeRequirementLevel::Recommended
}

/// The level covers the recommended tier.
pub open spec fn includes_recommended(level: DefaultAttributeRequirementLevel) -> bool {
    level == DefaultAttributeRequirementLevel::Recommended
}

/// Fills an unset flag with `Some(true)` when its tier is enabled; an
/// explicitly configured flag is kept.
pub open spec fn with_default(flag: Option<bool>, enabled: bool) -> Option<bool> {
    match flag {
        Some(b) => Some(b),
        None => if enabled {
            Some(true)
        } else {
            None
        },
    }
}

/// Applies one tier decision to one flag.
fn apply_default(flag: &mut Option<bool>, enabled: bool)
    ensures
        *final(flag) == with_default(*old(flag), enabled),
{
    if enabled {
        match flag {
            Some(_) => {},
            None => {
                *flag = Some(true);
            },
        }
    }
}

/// Attributes of the router span: http request and response information.
#[derive(Clone, Copy, PartialEq, Eq, Structural, Debug)]
pub struct RouterAttributes {
    /// The http request method (required tier).
    pub http_request_method: Option<bool>,
    /// The network protocol version (recommended tier).
    pub network_protocol_version: Option<bool>,
    /// The url path (required tier).
    pub url_path: Option<bool>,
    /// The original user agent (recommended tier).
    pub user_agent_original: Option<bool>,
}

impl Default for RouterAttributes {
    fn default() -> (r: RouterAttributes)
        ensures
            r == (RouterAttributes {
                http_request_method: None,
                network_protocol_version: None,
                url_path: None,
                user_agent_original: None,
            }),
    {
        RouterAttributes {
            http_request_method: None,
            network_protocol_version: None,
            url_path: None,
            user_agent_original: None,
        }
    }
}

/// The router attributes after applying a level for a data kind.
pub open spec fn router_attribute_defaults(
    a: RouterAttributes,
    level: DefaultAttributeRequirementLevel,
    kind: TelemetryDataKind,
) -> RouterAttributes {
    if kind == TelemetryDataKind::Traces {
        RouterAttributes {
            http_request_method: with_default(a.http_request_method, includes_required(level)),
            network_protocol_version: with_default(
                a.network_protocol_version,
                includes_recommended(level),
            ),
            url_path: with_default(a.url_path, includes_required(level)),
            user_agent_original: with_default(a.user_agent_original, includes_recommended(level)),
        }
    } else {
        a
    }
}

impl RouterAttributes {
    pub fn defaults_for_level(
        &mut self,
        requirement_level: DefaultAttributeRequirementLevel,
        kind: TelemetryDataKind,
    )
        ensures
            *final(self) == router_attribute_defaults(*old(self), requirement_level, kind),
    {
        let traces = match kind {
            TelemetryDataKind::Traces => true,
            TelemetryDataKind::Metrics => false,
        };
        if !traces {
            return ;
        }
        let required = match requirement_level {
            DefaultAttributeRequirementLevel::NoDefaults => false,
            _ => true,
        };
        let recommended = match requirement_level {
            DefaultAttributeRequirementLevel::Recommended => true,
            _ => false,
        };
        apply_default(&mut self.http_request_method, required);
        apply_default(&mut self.network_protocol_version, recommended);
        apply_default(&mut self.url_path, required);
        apply_default(&mut self.user_agent_original, recommended);
    }
}

/// Attributes of the supergraph span: graphql request information.
#[derive(Clone, Copy, PartialEq, Eq, Structural, Debug)]
pub struct SupergraphAttributes {
    /// The graphql document (recommended tier).
    pub graphql_document: Option<bool>,
    /// The operation name (recommended tier).
    pub graphql_operation_name: Option<bool>,
}

impl Default for SupergraphAttributes {
    fn default() -> (r: SupergraphAttributes)
        ensures
            r == (SupergraphAttributes { graphql_document: None, graphql_operation_name: None }),
    {
        SupergraphAttributes { graphql_document: None, graphql_operation_name: None }
    }
}

/// The supergraph attributes after applying a level for a data kind.
pub open spec fn supergraph_attribute_defaults(
    a: SupergraphAttributes,
    level: DefaultAttributeRequirementLevel,
    kind: TelemetryDataKind,
) -> SupergraphAttributes {
    if kind == TelemetryDataKind::Traces {
        SupergraphAttributes {
            graphql_document: with_default(a.graphql_document, includes_recommended(level)),
            graphql_operation_name: with_default(
                a.graphql_operation_name,
                includes_recommended(level),
            ),
        }
    } else {
        a
    }
}

impl SupergraphAttributes {
    pub fn defaults_for_level(
        &mut self,
        requirement_level: DefaultAttributeRequirementLevel,
        kind: TelemetryDataKind,
    )
        ensures
            *final(self) == supergraph_attribute_defaults(*old(self), requirement_level, kind),
    {
        let traces = match kind {
            TelemetryDataKind::Traces => true,
            TelemetryDataKind::Metrics => false,
        };
        if !traces {
            return ;
        }
        let recommended = match requirement_level {
            DefaultAttributeRequirementLevel::Recommended => true,
            _ => false,
        };
        apply_default(&mut self.graphql_document, recommended);
        apply_default(&mut self.graphql_operation_name, recommended);
    }
}

/// Attributes of the subgraph span: subgraph request information.
#[derive(Clone, Copy, PartialEq, Eq, Structural, Debug)]
pub struct SubgraphAttributes {
    /// The subgraph name (required tier).
    pub subgraph_name: Option<bool>,
    /// The subgraph graphql document (recommended tier).
    pub subgraph_graphql_document: Option<bool>,
}

impl Default for SubgraphAttributes {
    fn default() -> (r: SubgraphAttributes)
        ensures
            r == (SubgraphAttributes { subgraph_name: None, subgraph_graphql_document: None }),
    {
        SubgraphAttributes { subgraph_name: None, subgraph_graphql_document: None }
    }
}

/// The subgraph attributes after applying a level for a data kind.
pub open spec fn subgraph_attribute_defaults(
    a: SubgraphAttributes,
    level: DefaultAttributeRequirementLevel,
    kind: TelemetryDataKind,
) -> SubgraphAttributes {
    if kind == TelemetryDataKind::Traces {
        SubgraphAttributes {
            subgraph_name: with_default(a.subgraph_name, includes_required(level)),
            subgraph_graphql_document: with_default(
                a.subgraph_graphql_document,
                includes_recommended(level),
            ),
        }
    } else {
        a
    }
}

impl SubgraphAttributes {
    pub fn defaults_for_level(
        &mut self,
        requirement_level: DefaultAttributeRequirementLevel,
        kind: TelemetryDataKind,
    )
        ensures
            *final(self) == subgraph_attribute_defaults(*old(self), requirement_level, kind),
    {
        let traces = match kind {
            TelemetryDataKind::Traces => true,
            TelemetryDataKind::Metrics => false,
        };
        if !traces {
            return ;
        }
        let required = match requirement_level {
            DefaultAttributeRequirementLevel::NoDefaults => false,
            _ => true,
        };
        let recommended = match requirement_level {
            DefaultAttributeRequirementLevel::Recommended => true,
            _ => false,
        };
        apply_default(&mut self.subgraph_name, required);
        apply_default(&mut self.subgraph_graphql_document, recommended);
    }
}

/// Configuration of router spans.
#[derive(Clone, Copy, PartialEq, Eq, Structural, Debug)]
pub struct RouterSpans {
    /// Attributes attached to the router span.
    pub attributes: RouterAttributes,
}

impl Default for RouterSpans {
    fn default() -> (r: RouterSpans)
        ensures
            r.attributes == (RouterAttributes {
                http_request_method: None,
                network_protocol_version: None,
                url_path: None,
                user_agent_original: None,
            }),
    {
        RouterSpans { attributes: RouterAttributes::default() }
    }
}

impl RouterSpans {
    pub fn defaults_for_level(
        &mut self,
        requirement_level: DefaultAttributeRequirementLevel,
        kind: TelemetryDataKind,
    )
        ensures
            final(self).attributes == router_attribute_defaults(
                old(self).attributes,
                requirement_level,
                kind,
            ),
    {
        self.attributes.defaults_for_level(requirement_level, kind);
    }
}

/// Configuration of supergraph spans.
#[derive(Clone, Copy, PartialEq, Eq, Structural, Debug)]
pub struct SupergraphSpans {
    /// Attributes attached to the supergraph span.
    pub attributes: SupergraphAttributes,
}

impl Default for SupergraphSpans {
    fn default() -> (r: SupergraphSpans)
        ensures
            r.attributes == (SupergraphAttributes {
                graphql_document: None,
                graphql_operation_name: None,
            }),
    {
        SupergraphSpans { attributes: SupergraphAttributes::default() }
    }
}

impl SupergraphSpans {
    pub fn defaults_for_level(
        &mut self,
        requirement_level: DefaultAttributeRequirementLevel,
        kind: TelemetryDataKind,
    )
        ensures
            final(self).attributes == supergraph_attribute_defaults(
                old(self).attributes,
                requirement_level,
                kind,
            ),
    {
        self.attributes.defaults_for_level(requirement_level, kind);
    }
}

/// Configuration of subgraph spans.
#[derive(Clone, Copy, PartialEq, Eq, Structural, Debug)]
pub struct SubgraphSpans {
    /// Attributes attached to the subgraph span.
    pub attributes: SubgraphAttributes,
}

impl Default for SubgraphSpans {
    fn default() -> (r: SubgraphSpans)
        ensures
            r.attributes == (SubgraphAttributes {
                subgraph_name: None,
                subgraph_graphql_document: None,
            }),
    {
        SubgraphSpans { attributes: SubgraphAttributes::default() }
    }
}

impl SubgraphSpans {
    pub fn defaults_for_level(
        &mut self,
        requirement_level: DefaultAttributeRequirementLevel,
        kind: TelemetryDataKind,
    )
        ensures
            final(self).attributes == subgraph_attribute_defaults(
                old(self).attributes,
                requirement_level,
                kind,
            ),
    {
        self.attributes.defaults_for_level(requirement_level, kind);
    }
}

/// Span configuration for the three span kinds, with the requirement
/// level that governs their default attributes.
#[derive(Clone, Copy, PartialEq, Eq, Structural, Debug)]
pub struct Spans {
    /// Span attribute naming mode.
    pub mode: SpanMode,
    /// The level of default attributes to attach.
    pub default_attribute_requirement_level: DefaultAttributeRequirementLevel,
    /// Configuration of router spans.
    pub router: RouterSpans,
    /// Configuration of supergraph spans.
    pub supergraph: SupergraphSpans,
    /// Configuration of subgraph spans.
    pub subgraph: SubgraphSpans,
}

impl Default for Spans {
    fn default() -> (r: Spans)
        ensures
            r.mode == SpanMode::SpecCompliant,
            r.default_attribute_requirement_level
                == DefaultAttributeRequirementLevel::NoDefaults,
            r.router.attributes == (RouterAttributes {
                http_request_method: None,
                network_protocol_version: None,
                url_path: None,
                user_agent_original: None,
            }),
            r.supergraph.attributes == (SupergraphAttributes {
                graphql_document: None,
                graphql_operation_name: None,
            }),
            r.subgraph.attributes == (SubgraphAttributes {
                subgraph_name: None,
                subgraph_graphql_document: None,
            }),
    {
        Spans {
            mode: SpanMode::SpecCompliant,
            default_attribute_requirement_level: DefaultAttributeRequirementLevel::NoDefaults,
            router: RouterSpans::default(),
            supergraph: SupergraphSpans::default(),
            subgraph: SubgraphSpans::default(),
        }
    }
}

impl Spans {
    /// Applies the configured requirement level to the default attributes
    /// of all three span kinds, for trace data.
    pub fn update_defaults(&mut self)
        ensures
            final(self).mode == old(self).mode,
            final(self).default_attribute_requirement_level == old(
                self,
            ).default_attribute_requirement_level,
            final(self).router.attributes == router_attribute_defaults(
                old(self).router.attributes,
                old(self).default_attribute_requirement_level,
                TelemetryDataKind::Traces,
            ),
            final(self).supergraph.attributes == supergraph_attribute_defaults(
                old(self).supergraph.attributes,
                old(self).default_attribute_requirement_level,
                TelemetryDataKind::Traces,
            ),
            final(self).subgraph.attributes == subgraph_attribute_defaults(
                old(self).subgraph.attributes,
                old(self).default_attribute_requirement_level,
                TelemetryDataKind::Traces,
            ),
    {
        let level = self.default_attribute_requirement_level;
        self.router.defaults_for_level(level, TelemetryDataKind::Traces);
        self.supergraph.defaults_for_level(level, TelemetryDataKind::Traces);
        self.subgraph.defaults_for_level(level, TelemetryDataKind::Traces);
    }
}

} // verus!
