//! Data model of the cost engine: operations, selection sets, directive
//! instances, and the two schema views (API and supergraph) that directive
//! resolution consults.
//!
//! Values of these types are plain data. The surrounding gateway parses
//! GraphQL documents and schemas with its own tooling and hands the engine
//! this representation; the engine itself never parses documents. Fragments
//! are pre-resolved into fields, and `@skip`/`@include` conditions are
//! already bound to their runtime variable values.

use vstd::prelude::*;

verus! {

// ---------------------------------------------------------------------------
// Executable data model
// ---------------------------------------------------------------------------

/// A literal argument value carried by a directive instance.
///
/// The cost algebra is integral: `@cost(weight:)` weights are non-negative
/// integers, and an `if:` condition is a boolean already bound to its
/// variable value.
pub enum ArgumentValue {
    Boolean(bool),
    Number(u64),
    Text(String),
}

/// One named argument of a directive instance, e.g. `weight: 5`.
pub struct DirectiveArgument {
    pub name: String,
    pub value: ArgumentValue,
}

/// One directive instance, e.g. `@cost(weight: 5)`, attached either to a
/// field selection of the operation or to a field definition of a schema.
pub struct DirectiveInstance {
    pub name: String,
    pub arguments: Vec<DirectiveArgument>,
}

/// One field of a selection set in the operation, with its operation-side
/// directives (`@skip`, `@include`) and its nested selection set (empty for
/// a leaf field).
pub struct FieldSelection {
    pub name: String,
    pub directives: Vec<DirectiveInstance>,
    pub selections: Vec<FieldSelection>,
}

/// The selection a supergraph field declares through
/// `@join__field(requires: "<selection>")`, as handed to the engine.
///
/// The argument is a field-set string that the gateway's parser expands
/// against the supergraph schema when the schema view is built. A string
/// that failed to parse is kept as `Malformed`: the engine reports it as a
/// query-parse failure when (and only when) an included field actually
/// depends on it.
pub enum RequiresSource {
    Parsed(Vec<FieldSelection>),
    Malformed,
}

/// One field definition of a schema view: the field `name` on type
/// `parent_type`, producing `result_type`, with its schema-side directives
/// (`@cost`) and, on the supergraph view, its required selection.
pub struct FieldDefinition {
    pub parent_type: String,
    pub name: String,
    pub result_type: String,
    pub directives: Vec<DirectiveInstance>,
    pub requires: Option<RequiresSource>,
}

/// One schema view: a finite table of field definitions. Lookup is by
/// `(parent type name, field name)`; the first matching entry wins.
pub struct Schema {
    pub fields: Vec<FieldDefinition>,
}

/// The two views of the same composed schema. The operation resolves
/// against the client-facing API view; federation join directives
/// (`@join__field(requires:)`) live only on the supergraph view.
pub struct SchemaViews {
    pub api: Schema,
    pub supergraph: Schema,
}

/// A parsed operation: its root type name and its root selection set.
pub struct Operation {
    pub root_type: String,
    pub selections: Vec<FieldSelection>,
}

// ---------------------------------------------------------------------------
// Mathematical views
// ---------------------------------------------------------------------------

/// Mathematical value of an `ArgumentValue`.
#[verifier::ext_equal]
pub enum ArgumentValueView {
    Boolean(bool),
    Number(u64),
    Text(Seq<char>),
}

/// Mathematical value of a `DirectiveArgument`.
#[verifier::ext_equal]
pub struct DirectiveArgumentView {
    pub name: Seq<char>,
    pub value: ArgumentValueView,
}

/// Mathematical value of a `DirectiveInstance`.
#[verifier::ext_equal]
pub struct DirectiveInstanceView {
    pub name: Seq<char>,
    pub arguments: Seq<DirectiveArgumentView>,
}

/// Mathematical value of a `FieldSelection`.
#[verifier::ext_equal]
pub struct FieldSelectionView {
    pub name: Seq<char>,
    pub directives: Seq<DirectiveInstanceView>,
    pub selections: Seq<FieldSelectionView>,
}

/// Mathematical value of a `RequiresSource`.
#[verifier::ext_equal]
pub enum RequiresSourceView {
    Parsed(Seq<FieldSelectionView>),
    Malformed,
}

/// Mathematical value of a `FieldDefinition`.
#[verifier::ext_equal]
pub struct FieldDefinitionView {
    pub parent_type: Seq<char>,
    pub name: Seq<char>,
    pub result_type: Seq<char>,
    pub directives: Seq<DirectiveInstanceView>,
    pub requires: Option<RequiresSourceView>,
}

/// Mathematical value of a `Schema`.
#[verifier::ext_equal]
pub struct SchemaModel {
    pub fields: Seq<FieldDefinitionView>,
}

pub open spec fn arg_value_view(v: ArgumentValue) -> ArgumentValueView {
    match v {
        ArgumentValue::Boolean(b) => ArgumentValueView::Boolean(b),
        ArgumentValue::Number(n) => ArgumentValueView::Number(n),
        ArgumentValue::Text(s) => ArgumentValueView::Text(s@),
    }
}

pub open spec fn argument_view(a: DirectiveArgument) -> DirectiveArgumentView {
    DirectiveArgumentView { name: a.name@, value: arg_value_view(a.value) }
}

pub open spec fn arguments_view(s: Seq<DirectiveArgument>) -> Seq<DirectiveArgumentView> {
    Seq::new(s.len(), |i: int| argument_view(s[i]))
}

pub open spec fn directive_view(d: DirectiveInstance) -> DirectiveInstanceView {
    DirectiveInstanceView { name: d.name@, arguments: arguments_view(d.arguments@) }
}

pub open spec fn directives_view(s: Seq<DirectiveInstance>) -> Seq<DirectiveInstanceView> {
    Seq::new(s.len(), |i: int| directive_view(s[i]))
}

pub open spec fn field_view(f: FieldSelection) -> FieldSelectionView
    decreases f, 0int,
{
    FieldSelectionView {
        name: f.name@,
        directives: directives_view(f.directives@),
        selections: fields_view(f.selections@),
    }
}

pub open spec fn fields_view(s: Seq<FieldSelection>) -> Seq<FieldSelectionView>
    decreases s, 1int,
{
    if s.len() == 0 {
        Seq::empty()
    } else {
        seq![field_view(s[0])] + fields_view(s.drop_first())
    }
}

/// `fields_view` maps the sequence elementwise.
pub broadcast proof fn lemma_fields_view_len(s: Seq<FieldSelection>)
    ensures
        #[trigger] fields_view(s).len() == s.len(),
    decreases s.len(),
{
    if s.len() > 0 {
        lemma_fields_view_len(s.drop_first());
    }
}

/// Indexing the view of a sequence is the view of the indexed element.
pub broadcast proof fn lemma_fields_view_index(s: Seq<FieldSelection>, i: int)
    requires
        0 <= i < s.len(),
    ensures
        #[trigger] fields_view(s)[i] == field_view(s[i]),
    decreases s.len(),
{
    lemma_fields_view_len(s);
    if i > 0 {
        lemma_fields_view_index(s.drop_first(), i - 1);
    }
}

pub open spec fn requires_view(r: RequiresSource) -> RequiresSourceView {
    match r {
        RequiresSource::Parsed(fields) => RequiresSourceView::Parsed(fields_view(fields@)),
        RequiresSource::Malformed => RequiresSourceView::Malformed,
    }
}

pub open spec fn field_def_view(d: FieldDefinition) -> FieldDefinitionView {
    FieldDefinitionView {
        parent_type: d.parent_type@,
        name: d.name@,
        result_type: d.result_type@,
        directives: directives_view(d.directives@),
        requires: match d.requires {
            Some(r) => Some(requires_view(r)),
            None => None,
        },
    }
}

pub open spec fn schema_model(s: Schema) -> SchemaModel {
    SchemaModel { fields: Seq::new(s.fields@.len(), |i: int| field_def_view(s.fields@[i])) }
}

// ---------------------------------------------------------------------------
// Directive and argument lookup (first match wins, as in GraphQL documents)
// ---------------------------------------------------------------------------

/// The first directive named `name` in `ds`, if any.
pub open spec fn first_directive(ds: Seq<DirectiveInstanceView>, name: Seq<char>) -> Option<
    DirectiveInstanceView,
>
    decreases ds.len(),
{
    if ds.len() == 0 {
        None
    } else if ds[0].name == name {
        Some(ds[0])
    } else {
        first_directive(ds.drop_first(), name)
    }
}

/// The value of the first argument named `name` in `args`, if any.
pub open spec fn first_argument(args: Seq<DirectiveArgumentView>, name: Seq<char>) -> Option<
    ArgumentValueView,
>
    decreases args.len(),
{
    if args.len() == 0 {
        None
    } else if args[0].name == name {
        Some(args[0].value)
    } else {
        first_argument(args.drop_first(), name)
    }
}

/// The value of argument `arg_name` of the first directive named
/// `directive_name`, if both exist.
pub open spec fn directive_argument(
    ds: Seq<DirectiveInstanceView>,
    directive_name: Seq<char>,
    arg_name: Seq<char>,
) -> Option<ArgumentValueView> {
    match first_directive(ds, directive_name) {
        Some(d) => first_argument(d.arguments, arg_name),
        None => None,
    }
}

/// Reads `directive_argument` as a boolean; any other shape is `None`
/// (the directive's safe default applies).
pub open spec fn bool_argument(
    ds: Seq<DirectiveInstanceView>,
    directive_name: Seq<char>,
    arg_name: Seq<char>,
) -> Option<bool> {
    match directive_argument(ds, directive_name, arg_name) {
        Some(ArgumentValueView::Boolean(b)) => Some(b),
        _ => None,
    }
}

/// Reads `directive_argument` as a number; any other shape is `None`.
pub open spec fn number_argument(
    ds: Seq<DirectiveInstanceView>,
    directive_name: Seq<char>,
    arg_name: Seq<char>,
) -> Option<u64> {
    match directive_argument(ds, directive_name, arg_name) {
        Some(ArgumentValueView::Number(n)) => Some(n),
        _ => None,
    }
}

// ---------------------------------------------------------------------------
// Schema lookup
// ---------------------------------------------------------------------------

/// The first definition of field `field_name` on type `parent_name`, if any.
pub open spec fn lookup_spec(
    fields: Seq<FieldDefinitionView>,
    parent_name: Seq<char>,
    field_name: Seq<char>,
) -> Option<FieldDefinitionView>
    decreases fields.len(),
{
    if fields.len() == 0 {
        None
    } else if fields[0].parent_type == parent_name && fields[0].name == field_name {
        Some(fields[0])
    } else {
        lookup_spec(fields.drop_first(), parent_name, field_name)
    }
}

/// Compares a `String` against a literal name.
pub fn name_matches(name: &String, literal: &str) -> (r: bool)
    ensures
        r == (name@ == literal@),
{
    *name == literal.to_owned()
}

// ---------------------------------------------------------------------------
// Deep clone (view-preserving)
// ---------------------------------------------------------------------------

/// Clones an argument value, preserving its mathematical value.
pub fn clone_arg_value(v: &ArgumentValue) -> (r: ArgumentValue)
    ensures
        arg_value_view(r) == arg_value_view(*v),
{
    match v {
        ArgumentValue::Boolean(b) => ArgumentValue::Boolean(*b),
        ArgumentValue::Number(n) => ArgumentValue::Number(*n),
        ArgumentValue::Text(s) => ArgumentValue::Text(s.clone()),
    }
}

/// Clones a directive argument, preserving its mathematical value.
pub fn clone_argument(a: &DirectiveArgument) -> (r: DirectiveArgument)
    ensures
        argument_view(r) == argument_view(*a),
{
    DirectiveArgument { name: a.name.clone(), value: clone_arg_value(&a.value) }
}

/// Clones a directive instance, preserving its mathematical value.
pub fn clone_directive(d: &DirectiveInstance) -> (r: DirectiveInstance)
    ensures
        directive_view(r) == directive_view(*d),
{
    let n = d.arguments.len();
    let mut arguments: Vec<DirectiveArgument> = Vec::new();
    let mut i: usize = 0;
    while i < n
        invariant
            n == d.arguments.len(),
            0 <= i <= n,
            arguments@.len() == i,
            forall|j: int|
                0 <= j < i ==> argument_view(#[trigger] arguments@[j]) == argument_view(
                    d.arguments@[j],
                ),
        decreases n - i,
    {
        arguments.push(clone_argument(&d.arguments[i]));
        i = i + 1;
    }
    proof {
        assert(arguments_view(arguments@) =~= arguments_view(d.arguments@));
    }
    DirectiveInstance { name: d.name.clone(), arguments }
}

/// Clones a directive list, preserving its mathematical value.
pub fn clone_directives(ds: &Vec<DirectiveInstance>) -> (r: Vec<DirectiveInstance>)
    ensures
        directives_view(r@) == directives_view(ds@),
{
    let n = ds.len();
    let mut out: Vec<DirectiveInstance> = Vec::new();
    let mut i: usize = 0;
    while i < n
        invariant
            n == ds.len(),
            0 <= i <= n,
            out@.len() == i,
            forall|j: int|
                0 <= j < i ==> directive_view(#[trigger] out@[j]) == directive_view(ds@[j]),
        decreases n - i,
    {
        out.push(clone_directive(&ds[i]));
        i = i + 1;
    }
    proof {
        assert(directives_view(out@) =~= directives_view(ds@));
    }
    out
}

/// Clones a field selection, preserving its mathematical value.
pub fn clone_field(f: &FieldSelection) -> (r: FieldSelection)
    ensures
        field_view(r) == field_view(*f),
    decreases *f, 0int,
{
    FieldSelection {
        name: f.name.clone(),
        directives: clone_directives(&f.directives),
        selections: clone_fields(&f.selections),
    }
}

/// Clones a selection set, preserving its mathematical value.
pub fn clone_fields(s: &Vec<FieldSelection>) -> (r: Vec<FieldSelection>)
    ensures
        fields_view(r@) == fields_view(s@),
    decreases *s, 1int,
{
    let n = s.len();
    let mut out: Vec<FieldSelection> = Vec::new();
    let mut i: usize = 0;
    while i < n
        invariant
            n == s.len(),
            0 <= i <= n,
            out@.len() == i,
            forall|j: int|
                0 <= j < i ==> field_view(#[trigger] out@[j]) == field_view(s@[j]),
        decreases n - i,
    {
        out.push(clone_field(&s[i]));
        i = i + 1;
    }
    proof {
        lemma_fields_view_len(out@);
        lemma_fields_view_len(s@);
        assert forall|j: int| 0 <= j < n implies fields_view(out@)[j] == fields_view(s@)[j] by {
            lemma_fields_view_index(out@, j);
            lemma_fields_view_index(s@, j);
        }
        assert(fields_view(out@) =~= fields_view(s@));
    }
    out
}

// ---------------------------------------------------------------------------
// Deep equality (decides equality of mathematical values)
// ---------------------------------------------------------------------------

/// Decides equality of two argument values.
pub fn arg_values_equal(a: &ArgumentValue, b: &ArgumentValue) -> (r: bool)
    ensures
        r == (arg_value_view(*a) == arg_value_view(*b)),
{
    match (a, b) {
        (ArgumentValue::Boolean(x), ArgumentValue::Boolean(y)) => *x == *y,
        (ArgumentValue::Number(x), ArgumentValue::Number(y)) => *x == *y,
        (ArgumentValue::Text(x), ArgumentValue::Text(y)) => *x == *y,
        _ => false,
    }
}

/// Decides equality of two directive arguments.
pub fn arguments_equal(a: &DirectiveArgument, b: &DirectiveArgument) -> (r: bool)
    ensures
        r == (argument_view(*a) == argument_view(*b)),
{
    let names = a.name == b.name;
    let values = arg_values_equal(&a.value, &b.value);
    names && values
}

/// Decides equality of two directive instances.
pub fn directives_equal(a: &DirectiveInstance, b: &DirectiveInstance) -> (r: bool)
    ensures
        r == (directive_view(*a) == directive_view(*b)),
{
    if a.name != b.name {
        return false;
    }
    let n = a.arguments.len();
    if n != b.arguments.len() {
        proof {
            assert(directive_view(*a).arguments.len() != directive_view(*b).arguments.len());
        }
        return false;
    }
    let mut i: usize = 0;
    while i < n
        invariant
            n == a.arguments.len(),
            n == b.arguments.len(),
            0 <= i <= n,
            a.name@ == b.name@,
            forall|j: int|
                0 <= j < i ==> argument_view(#[trigger] a.arguments@[j]) == argument_view(
                    b.arguments@[j],
                ),
        decreases n - i,
    {
        if !arguments_equal(&a.arguments[i], &b.arguments[i]) {
            proof {
                let j = i as int;
                assert(arguments_view(a.arguments@)[j] != arguments_view(b.arguments@)[j]);
            }
            return false;
        }
        i = i + 1;
    }
    proof {
        assert(arguments_view(a.arguments@) =~= arguments_view(b.arguments@));
        assert(directive_view(*a) =~= directive_view(*b));
    }
    true
}

/// Decides equality of two directive lists.
pub fn directive_lists_equal(a: &Vec<DirectiveInstance>, b: &Vec<DirectiveInstance>) -> (r: bool)
    ensures
        r == (directives_view(a@) == directives_view(b@)),
{
    let n = a.len();
    if n != b.len() {
        proof {
            assert(directives_view(a@).len() != directives_view(b@).len());
        }
        return false;
    }
    let mut i: usize = 0;
    while i < n
        invariant
            n == a.len(),
            n == b.len(),
            0 <= i <= n,
            forall|j: int|
                0 <= j < i ==> directive_view(#[trigger] a@[j]) == directive_view(b@[j]),
        decreases n - i,
    {
        if !directives_equal(&a[i], &b[i]) {
            proof {
                assert(directives_view(a@)[i as int] != directives_view(b@)[i as int]);
            }
            return false;
        }
        i = i + 1;
    }
    proof {
        assert(directives_view(a@) =~= directives_view(b@));
    }
    true
}

/// Decides equality of two field selections.
pub fn field_selections_equal(a: &FieldSelection, b: &FieldSelection) -> (r: bool)
    ensures
        r == (field_view(*a) == field_view(*b)),
    decreases *a, 0int,
{
    if a.name != b.name {
        return false;
    }
    if !directive_lists_equal(&a.directives, &b.directives) {
        return false;
    }
    if !selection_sets_equal(&a.selections, &b.selections) {
        return false;
    }
    proof {
        assert(field_view(*a) =~= field_view(*b));
    }
    true
}

/// Decides equality of two selection sets.
pub fn selection_sets_equal(a: &Vec<FieldSelection>, b: &Vec<FieldSelection>) -> (r: bool)
    ensures
        r == (fields_view(a@) == fields_view(b@)),
    decreases *a, 1int,
{
    let n = a.len();
    proof {
        lemma_fields_view_len(a@);
        lemma_fields_view_len(b@);
    }
    if n != b.len() {
        proof {
            assert(fields_view(a@).len() != fields_view(b@).len());
        }
        return false;
    }
    let mut i: usize = 0;
    while i < n
        invariant
            n == a.len(),
            n == b.len(),
            0 <= i <= n,
            forall|j: int|
                0 <= j < i ==> field_view(#[trigger] a@[j]) == field_view(b@[j]),
        decreases n - i,
    {
        if !field_selections_equal(&a[i], &b[i]) {
            proof {
                lemma_fields_view_index(a@, i as int);
                lemma_fields_view_index(b@, i as int);
                assert(fields_view(a@)[i as int] != fields_view(b@)[i as int]);
            }
            return false;
        }
        i = i + 1;
    }
    proof {
        lemma_fields_view_len(a@);
        lemma_fields_view_len(b@);
        assert forall|j: int| 0 <= j < n implies fields_view(a@)[j] == fields_view(b@)[j] by {
            lemma_fields_view_index(a@, j);
            lemma_fields_view_index(b@, j);
        }
        assert(fields_view(a@) =~= fields_view(b@));
    }
    true
}

impl Schema {
    /// The first definition of `(parent_name, field_name)` in this view.
    pub fn lookup(&self, parent_name: &String, field_name: &String) -> (r: Option<&FieldDefinition>)
        ensures
            match r {
                Some(d) => lookup_spec(schema_model(*self).fields, parent_name@, field_name@)
                    == Some(field_def_view(*d)),
                None => lookup_spec(schema_model(*self).fields, parent_name@, field_name@)
                    is None,
            },
    {
        let ghost all = schema_model(*self).fields;
        let n = self.fields.len();
        let mut i: usize = 0;
        proof {
            assert(all.skip(0) =~= all);
        }
        while i < n
            invariant
                n == self.fields.len(),
                0 <= i <= n,
                all == schema_model(*self).fields,
                lookup_spec(all, parent_name@, field_name@) == lookup_spec(
                    all.skip(i as int),
                    parent_name@,
                    field_name@,
                ),
            decreases n - i,
        {
            let d = &self.fields[i];
            let type_hit = d.parent_type == *parent_name;
            let field_hit = d.name == *field_name;
            proof {
                assert(all[i as int] == field_def_view(self.fields@[i as int]));
                assert(all.skip(i as int)[0] == all[i as int]);
            }
            if type_hit && field_hit {
                proof {
                    assert(lookup_spec(all.skip(i as int), parent_name@, field_name@) == Some(
                        all[i as int],
                    ));
                }
                return Some(d);
            }
            proof {
                assert(all.skip(i as int).drop_first() =~= all.skip(i as int + 1));
            }
            i = i + 1;
        }
        proof {
            assert(all.skip(n as int) =~= Seq::<FieldDefinitionView>::empty());
        }
        None
    }
}

} // verus!
