//! Directive resolution: typed views of `@cost`, `@skip`, `@include` and the
//! federation rewrite of `@requires` into `@join__field(requires:)`.
//!
//! Resolution is a pure function of `(field, parent type, schema view)`.
//! Absence of a directive or of its argument is never an error; a
//! wrong-shaped argument degrades to the directive's safe default (no
//! weight, not skipped, included). Only the supergraph-side `@requires`
//! lookup can fail, and only because of a schema-composition fault: the
//! field is missing from the supergraph, or its `requires` field-set string
//! did not parse.

use vstd::prelude::*;

use crate::model::ArgumentValue;
use crate::model::DirectiveArgument;
use crate::model::DirectiveArgumentView;
use crate::model::DirectiveInstance;
use crate::model::DirectiveInstanceView;
use crate::model::FieldDefinition;
use crate::model::FieldSelection;
use crate::model::RequiresSource;
use crate::model::Schema;
use crate::model::arg_value_view;
use crate::model::argument_view;
use crate::model::arguments_view;
use crate::model::bool_argument;
use crate::model::clone_fields;
use crate::model::directive_view;
use crate::model::directives_view;
use crate::model::field_def_view;
use crate::model::field_view;
use crate::model::fields_view;
use crate::model::first_argument;
use crate::model::first_directive;
use crate::model::lookup_spec;
use crate::model::name_matches;
use crate::model::number_argument;
use crate::model::schema_model;
use crate::model::FieldSelectionView;
use crate::model::RequiresSourceView;

verus! {

// ---------------------------------------------------------------------------
// Error surface
// ---------------------------------------------------------------------------

/// Structured error kinds of the engine. The surrounding plugin maps them
/// to operator- or client-facing diagnostics; this core only produces them.
#[derive(Debug)]
pub enum DemandControlError {
    /// A field expected to exist in the supergraph (by the same parent type
    /// and field name as in the API schema) is missing, or its
    /// `@join__field(requires:)` field-set string failed to parse. A
    /// composition invariant was violated; not a client error.
    QueryParseFailure { parent_name: String, field_name: String },
    /// A directive argument had the wrong shape. Resolution itself degrades
    /// to the safe default instead of raising this; the variant is part of
    /// the surface so a strict policy layer can report the condition.
    DirectiveResolutionError { directive_name: String },
    /// Requirement expansion revisited a `(parent type, field name)` pair
    /// already on the active expansion path. Fatal for the operation.
    CycleDetected { parent_name: String, field_name: String },
    /// Cooperative cancellation was observed between field expansions.
    Cancelled,
}

/// Mathematical value of a `DemandControlError`.
#[verifier::ext_equal]
pub enum DemandControlErrorView {
    QueryParseFailure { parent_name: Seq<char>, field_name: Seq<char> },
    DirectiveResolutionError { directive_name: Seq<char> },
    CycleDetected { parent_name: Seq<char>, field_name: Seq<char> },
    Cancelled,
}

pub open spec fn error_view(e: DemandControlError) -> DemandControlErrorView {
    match e {
        DemandControlError::QueryParseFailure { parent_name, field_name } =>
            DemandControlErrorView::QueryParseFailure {
            parent_name: parent_name@,
            field_name: field_name@,
        },
        DemandControlError::DirectiveResolutionError { directive_name } =>
            DemandControlErrorView::DirectiveResolutionError { directive_name: directive_name@ },
        DemandControlError::CycleDetected { parent_name, field_name } =>
            DemandControlErrorView::CycleDetected {
            parent_name: parent_name@,
            field_name: field_name@,
        },
        DemandControlError::Cancelled => DemandControlErrorView::Cancelled,
    }
}

// ---------------------------------------------------------------------------
// Directive semantics, as spec functions
// ---------------------------------------------------------------------------

/// The weight `@cost(weight: N)` declares on a field definition's
/// directives, if the directive is present with a numeric weight.
pub open spec fn cost_weight_spec(ds: Seq<DirectiveInstanceView>) -> Option<u64> {
    number_argument(ds, "cost"@, "weight"@)
}

/// The bound value of `@skip(if:)` on an operation field's directives.
pub open spec fn skip_spec(ds: Seq<DirectiveInstanceView>) -> Option<bool> {
    bool_argument(ds, "skip"@, "if"@)
}

/// The bound value of `@include(if:)` on an operation field's directives.
pub open spec fn include_spec(ds: Seq<DirectiveInstanceView>) -> Option<bool> {
    bool_argument(ds, "include"@, "if"@)
}

/// Whether a field selection contributes to cost at all: it is excluded
/// exactly when `@skip(if: true)` or `@include(if: false)` applies; absent
/// or wrong-shaped conditions default to "not skipped" and "included".
pub open spec fn field_included_spec(f: FieldSelectionView) -> bool {
    &&& skip_spec(f.directives) != Some(true)
    &&& include_spec(f.directives) != Some(false)
}

// ---------------------------------------------------------------------------
// Executable directive lookup
// ---------------------------------------------------------------------------

/// Finds the first directive with the given name.
pub fn find_directive<'a>(ds: &'a Vec<DirectiveInstance>, name: &str) -> (r: Option<
    &'a DirectiveInstance,
>)
    ensures
        match r {
            Some(d) => first_directive(directives_view(ds@), name@) == Some(directive_view(*d)),
            None => first_directive(directives_view(ds@), name@) is None,
        },
{
    let ghost all = directives_view(ds@);
    let n = ds.len();
    let mut i: usize = 0;
    proof {
        assert(all.skip(0) =~= all);
    }
    while i < n
        invariant
            n == ds.len(),
            0 <= i <= n,
            all == directives_view(ds@),
            forall|j: int| 0 <= j < i ==> (#[trigger] all[j]).name != name@,
            first_directive(all, name@) == first_directive(all.skip(i as int), name@),
        decreases n - i,
    {
        let d = &ds[i];
        if name_matches(&d.name, name) {
            proof {
                assert(all.skip(i as int)[0] == all[i as int]);
                assert(first_directive(all.skip(i as int), name@) == Some(all[i as int]));
            }
            return Some(d);
        }
        proof {
            assert(all.skip(i as int).drop_first() =~= all.skip(i as int + 1));
        }
        i = i + 1;
    }
    proof {
        assert(all.skip(n as int) =~= Seq::<DirectiveInstanceView>::empty());
    }
    None
}

/// Finds the value of the first argument with the given name.
pub fn find_argument<'a>(args: &'a Vec<DirectiveArgument>, name: &str) -> (r: Option<
    &'a ArgumentValue,
>)
    ensures
        match r {
            Some(v) => first_argument(arguments_view(args@), name@) == Some(arg_value_view(*v)),
            None => first_argument(arguments_view(args@), name@) is None,
        },
{
    let ghost all = arguments_view(args@);
    let n = args.len();
    let mut i: usize = 0;
    proof {
        assert(all.skip(0) =~= all);
    }
    while i < n
        invariant
            n == args.len(),
            0 <= i <= n,
            all == arguments_view(args@),
            forall|j: int| 0 <= j < i ==> (#[trigger] all[j]).name != name@,
            first_argument(all, name@) == first_argument(all.skip(i as int), name@),
        decreases n - i,
    {
        let a = &args[i];
        if name_matches(&a.name, name) {
            proof {
                assert(all.skip(i as int)[0] == all[i as int]);
                assert(first_argument(all.skip(i as int), name@) == Some(all[i as int].value));
            }
            return Some(&a.value);
        }
        proof {
            assert(all.skip(i as int).drop_first() =~= all.skip(i as int + 1));
        }
        i = i + 1;
    }
    proof {
        assert(all.skip(n as int) =~= Seq::<DirectiveArgumentView>::empty());
    }
    None
}

/// The value of argument `arg_name` of the first directive named
/// `directive_name`, matching `directive_argument` of the model.
pub fn find_directive_argument<'a>(
    ds: &'a Vec<DirectiveInstance>,
    directive_name: &str,
    arg_name: &str,
) -> (r: Option<&'a ArgumentValue>)
    ensures
        match r {
            Some(v) => crate::model::directive_argument(directives_view(ds@), directive_name@,
                arg_name@) == Some(arg_value_view(*v)),
            None => crate::model::directive_argument(directives_view(ds@), directive_name@,
                arg_name@) is None,
        },
{
    match find_directive(ds, directive_name) {
        Some(d) => find_argument(&d.arguments, arg_name),
        None => None,
    }
}

// ---------------------------------------------------------------------------
// Typed directive values
// ---------------------------------------------------------------------------

/// The value of `@cost(weight:)` on a field definition.
pub struct CostDirective {
    pub weight: u64,
}

impl CostDirective {
    /// Reads `@cost(weight:)` from the field's own definition. The API-side
    /// definition suffices because `@cost` is not rewritten by composition.
    /// A missing directive, a missing argument or a non-numeric weight all
    /// yield `None`: the safe default of weight 0 applies.
    pub fn from_field(definition: &FieldDefinition) -> (r: Result<
        Option<CostDirective>,
        DemandControlError,
    >)
        ensures
            r matches Ok(o),
            match cost_weight_spec(field_def_view(*definition).directives) {
                Some(w) => r == Ok::<_, DemandControlError>(Some(CostDirective { weight: w })),
                None => r == Ok::<Option<CostDirective>, DemandControlError>(None),
            },
    {
        match find_directive_argument(&definition.directives, "cost", "weight") {
            Some(ArgumentValue::Number(n)) => Ok(Some(CostDirective { weight: *n })),
            _ => Ok(None),
        }
    }
}

/// The bound value of `@include(if:)` on an operation field.
pub struct IncludeDirective {
    pub is_included: bool,
}

impl IncludeDirective {
    /// Reads the `if` condition of `@include` from the operation field's
    /// own directives, where the parsing layer has already bound it to its
    /// variable value. Absent or non-boolean conditions yield `None`.
    pub fn from_field(field: &FieldSelection) -> (r: Result<
        Option<IncludeDirective>,
        DemandControlError,
    >)
        ensures
            r matches Ok(o),
            match include_spec(field_view(*field).directives) {
                Some(b) => r == Ok::<_, DemandControlError>(Some(
                    IncludeDirective { is_included: b },
                )),
                None => r == Ok::<Option<IncludeDirective>, DemandControlError>(None),
            },
    {
        match find_directive_argument(&field.directives, "include", "if") {
            Some(ArgumentValue::Boolean(b)) => Ok(Some(IncludeDirective { is_included: *b })),
            _ => Ok(None),
        }
    }
}

/// The bound value of `@skip(if:)` on an operation field.
pub struct SkipDirective {
    pub is_skipped: bool,
}

impl SkipDirective {
    /// Reads the `if` condition of `@skip` from the operation field's own
    /// directives. Absent or non-boolean conditions yield `None`.
    pub fn from_field(field: &FieldSelection) -> (r: Result<
        Option<SkipDirective>,
        DemandControlError,
    >)
        ensures
            r matches Ok(o),
            match skip_spec(field_view(*field).directives) {
                Some(b) => r == Ok::<_, DemandControlError>(Some(SkipDirective { is_skipped: b })),
                None => r == Ok::<Option<SkipDirective>, DemandControlError>(None),
            },
    {
        match find_directive_argument(&field.directives, "skip", "if") {
            Some(ArgumentValue::Boolean(b)) => Ok(Some(SkipDirective { is_skipped: *b })),
            _ => Ok(None),
        }
    }
}

/// The additional upstream selection a field depends on, discovered through
/// the supergraph schema.
pub struct RequiresDirective {
    pub fields: Vec<FieldSelection>,
}

/// What `RequiresDirective::from_field` yields on the supergraph view,
/// stated over the mathematical values.
pub open spec fn requires_spec(
    supergraph: crate::model::SchemaModel,
    parent_name: Seq<char>,
    field_name: Seq<char>,
) -> Result<Option<Seq<FieldSelectionView>>, DemandControlErrorView> {
    match lookup_spec(supergraph.fields, parent_name, field_name) {
        None => Err(
            DemandControlErrorView::QueryParseFailure { parent_name, field_name },
        ),
        Some(def) => match def.requires {
            None => Ok(None),
            Some(RequiresSourceView::Malformed) => Err(
                DemandControlErrorView::QueryParseFailure { parent_name, field_name },
            ),
            Some(RequiresSourceView::Parsed(fields)) => Ok(Some(fields)),
        },
    }
}

impl RequiresDirective {
    /// When a subgraph schema marks a field with `@requires`, composition
    /// replaces `@requires(fields: "<selection>")` with
    /// `@join__field(requires: "<selection>")` on the supergraph schema.
    /// The operation resolves against the API schema, so the supergraph
    /// definition must be found again by `(parent type name, field name)`;
    /// a failed lookup is a composition fault, reported as
    /// `QueryParseFailure`, as is a `requires` field-set string that did
    /// not parse when the supergraph view was built.
    pub fn from_field(
        field: &FieldSelection,
        parent_name: &String,
        schema: &Schema,
    ) -> (r: Result<Option<RequiresDirective>, DemandControlError>)
        ensures
            match requires_spec(schema_model(*schema), parent_name@, field_view(*field).name) {
                Ok(Some(fields)) => r matches Ok(o) && o matches Some(d) && fields_view(d.fields@)
                    == fields,
                Ok(None) => r == Ok::<Option<RequiresDirective>, DemandControlError>(None),
                Err(e) => r matches Err(a) && error_view(a) == e,
            },
    {
        match schema.lookup(parent_name, &field.name) {
            None => Err(
                DemandControlError::QueryParseFailure {
                    parent_name: parent_name.clone(),
                    field_name: field.name.clone(),
                },
            ),
            Some(def) => match &def.requires {
                None => Ok(None),
                Some(RequiresSource::Malformed) => Err(
                    DemandControlError::QueryParseFailure {
                        parent_name: parent_name.clone(),
                        field_name: field.name.clone(),
                    },
                ),
                Some(RequiresSource::Parsed(fields)) => Ok(
                    Some(RequiresDirective { fields: clone_fields(fields) }),
                ),
            },
        }
    }
}

} // verus!
