//! Laws of the cost algebra: what the evaluator guarantees for every
//! operation, schema pair, and bookkeeping state.

use vstd::prelude::*;

use crate::cost::EvalSuccess;
use crate::cost::PathKey;
use crate::cost::RequirementFingerprint;
use crate::cost::estimate_spec;
use crate::cost::eval_field;
use crate::cost::eval_fields_from;
use crate::cost::eval_requirement;
use crate::cost::expansion_budget;
use crate::cost::field_size;
use crate::cost::fields_size_from;
use crate::cost::lemma_keys_of_finite;
use crate::cost::lemma_lookup_key;
use crate::cost::own_weight;
use crate::cost::schema_keys;
use crate::cost::stack_wf;
use crate::directives::DemandControlErrorView;
use crate::directives::cost_weight_spec;
use crate::directives::field_included_spec;
use crate::directives::include_spec;
use crate::directives::requires_spec;
use crate::directives::skip_spec;
use crate::model::FieldDefinitionView;
use crate::model::FieldSelectionView;
use crate::model::SchemaModel;
use crate::model::lookup_spec;

verus! {

// ---------------------------------------------------------------------------
// Supporting facts
// ---------------------------------------------------------------------------

/// A successful lookup yields one of the table's entries.
proof fn lemma_lookup_is_element(fields: Seq<FieldDefinitionView>, parent: Seq<char>, name: Seq<char>)
    requires
        lookup_spec(fields, parent, name) is Some,
    ensures
        exists|i: int|
            0 <= i < fields.len() && #[trigger] fields[i] == lookup_spec(
                fields,
                parent,
                name,
            )->Some_0,
    decreases fields.len(),
{
    if fields[0].parent_type == parent && fields[0].name == name {
        assert(fields[0] == lookup_spec(fields, parent, name)->Some_0);
    } else {
        lemma_lookup_is_element(fields.drop_first(), parent, name);
        let i = choose|i: int|
            0 <= i < fields.drop_first().len() && #[trigger] fields.drop_first()[i] == lookup_spec(
                fields.drop_first(),
                parent,
                name,
            )->Some_0;
        assert(fields[i + 1] == lookup_spec(fields, parent, name)->Some_0);
    }
}

/// Requirement expansion pushes a key of the supergraph that is not yet on
/// the path, so the path stays well-formed and the budget shrinks.
proof fn lemma_expansion_step(sg: SchemaModel, parent: Seq<char>, name: Seq<char>, stack: Set<PathKey>)
    requires
        stack_wf(sg, stack),
        lookup_spec(sg.fields, parent, name) is Some,
        !stack.contains(PathKey { parent_name: parent, field_name: name }),
    ensures
        stack_wf(sg, stack.insert(PathKey { parent_name: parent, field_name: name })),
        0 <= expansion_budget(
            sg,
            stack.insert(PathKey { parent_name: parent, field_name: name }),
        ),
        expansion_budget(sg, stack.insert(PathKey { parent_name: parent, field_name: name }))
            < expansion_budget(sg, stack),
{
    let key = PathKey { parent_name: parent, field_name: name };
    lemma_lookup_key(sg.fields, parent, name);
    lemma_keys_of_finite(sg.fields);
    assert(stack.insert(key).subset_of(schema_keys(sg)));
    vstd::set_lib::lemma_len_subset(stack.insert(key), schema_keys(sg));
    assert(stack.insert(key).len() == stack.len() + 1);
}

// ---------------------------------------------------------------------------
// The completed-requirement set only grows
// ---------------------------------------------------------------------------

/// Evaluating a selection set never forgets a completed requirement.
pub proof fn lemma_done_monotone_fields(
    api: SchemaModel,
    sg: SchemaModel,
    sel: Seq<FieldSelectionView>,
    parent: Seq<char>,
    i: int,
    stack: Set<PathKey>,
    done: Set<RequirementFingerprint>,
)
    requires
        stack_wf(sg, stack),
        eval_fields_from(api, sg, sel, parent, i, stack, done) is Ok,
    ensures
        done.subset_of(eval_fields_from(api, sg, sel, parent, i, stack, done)->Ok_0.done),
    decreases expansion_budget(sg, stack), fields_size_from(sel, i),
{
    if i < 0 || i >= sel.len() {
    } else {
        let first = eval_field(api, sg, sel[i], parent, stack, done)->Ok_0;
        lemma_done_monotone_field(api, sg, sel[i], parent, stack, done);
        lemma_done_monotone_fields(api, sg, sel, parent, i + 1, stack, first.done);
    }
}

/// Evaluating one field never forgets a completed requirement.
pub proof fn lemma_done_monotone_field(
    api: SchemaModel,
    sg: SchemaModel,
    f: FieldSelectionView,
    parent: Seq<char>,
    stack: Set<PathKey>,
    done: Set<RequirementFingerprint>,
)
    requires
        stack_wf(sg, stack),
        eval_field(api, sg, f, parent, stack, done) is Ok,
    ensures
        done.subset_of(eval_field(api, sg, f, parent, stack, done)->Ok_0.done),
    decreases expansion_budget(sg, stack), field_size(f),
{
    if !field_included_spec(f) {
    } else {
        let def = lookup_spec(sg.fields, parent, f.name)->Some_0;
        let req = eval_requirement(api, sg, parent, f.name, stack, done)->Ok_0;
        lemma_done_monotone_requirement(api, sg, parent, f.name, stack, done);
        lemma_done_monotone_fields(api, sg, f.selections, def.result_type, 0, stack, req.done);
    }
}

/// Evaluating a requirement never forgets a completed requirement.
pub proof fn lemma_done_monotone_requirement(
    api: SchemaModel,
    sg: SchemaModel,
    parent: Seq<char>,
    name: Seq<char>,
    stack: Set<PathKey>,
    done: Set<RequirementFingerprint>,
)
    requires
        stack_wf(sg, stack),
        eval_requirement(api, sg, parent, name, stack, done) is Ok,
    ensures
        done.subset_of(eval_requirement(api, sg, parent, name, stack, done)->Ok_0.done),
    decreases expansion_budget(sg, stack), 0nat,
{
    match requires_spec(sg, parent, name) {
        Ok(Some(rsel)) => {
            let fp = RequirementFingerprint { parent_name: parent, selection: rsel };
            let key = PathKey { parent_name: parent, field_name: name };
            if done.contains(fp) {
            } else if stack.contains(key) {
            } else {
                lemma_expansion_step(sg, parent, name, stack);
                lemma_done_monotone_fields(api, sg, rsel, parent, 0, stack.insert(key), done);
            }
        },
        _ => {},
    }
}

// ---------------------------------------------------------------------------
// Without cost directives, every successful evaluation costs nothing
// ---------------------------------------------------------------------------

/// No field definition of the view declares a usable `@cost(weight:)`.
pub open spec fn schema_has_no_cost_weights(s: SchemaModel) -> bool {
    forall|i: int|
        0 <= i < s.fields.len() ==> cost_weight_spec(
            (#[trigger] s.fields[i]).directives,
        ) is None
}

/// When the API view (the one weights are read from) declares no
/// `@cost(weight:)` anywhere, a successful evaluation of any selection
/// set costs 0.
pub proof fn lemma_no_cost_directives_zero_fields(
    api: SchemaModel,
    sg: SchemaModel,
    sel: Seq<FieldSelectionView>,
    parent: Seq<char>,
    i: int,
    stack: Set<PathKey>,
    done: Set<RequirementFingerprint>,
)
    requires
        stack_wf(sg, stack),
        schema_has_no_cost_weights(api),
        eval_fields_from(api, sg, sel, parent, i, stack, done) is Ok,
    ensures
        eval_fields_from(api, sg, sel, parent, i, stack, done)->Ok_0.cost == 0,
    decreases expansion_budget(sg, stack), fields_size_from(sel, i),
{
    if i < 0 || i >= sel.len() {
    } else {
        let first = eval_field(api, sg, sel[i], parent, stack, done)->Ok_0;
        lemma_no_cost_directives_zero_field(api, sg, sel[i], parent, stack, done);
        lemma_no_cost_directives_zero_fields(api, sg, sel, parent, i + 1, stack, first.done);
    }
}

/// One field of such a schema pair costs 0 when it evaluates successfully.
pub proof fn lemma_no_cost_directives_zero_field(
    api: SchemaModel,
    sg: SchemaModel,
    f: FieldSelectionView,
    parent: Seq<char>,
    stack: Set<PathKey>,
    done: Set<RequirementFingerprint>,
)
    requires
        stack_wf(sg, stack),
        schema_has_no_cost_weights(api),
        eval_field(api, sg, f, parent, stack, done) is Ok,
    ensures
        eval_field(api, sg, f, parent, stack, done)->Ok_0.cost == 0,
    decreases expansion_budget(sg, stack), field_size(f),
{
    if !field_included_spec(f) {
    } else {
        if lookup_spec(api.fields, parent, f.name) is Some {
            lemma_lookup_is_element(api.fields, parent, f.name);
        }
        assert(own_weight(api, parent, f.name) == 0);
        let def = lookup_spec(sg.fields, parent, f.name)->Some_0;
        let req = eval_requirement(api, sg, parent, f.name, stack, done)->Ok_0;
        lemma_no_cost_directives_zero_requirement(api, sg, parent, f.name, stack, done);
        lemma_no_cost_directives_zero_fields(
            api,
            sg,
            f.selections,
            def.result_type,
            0,
            stack,
            req.done,
        );
    }
}

/// A requirement of such a schema pair costs 0 when it evaluates
/// successfully.
pub proof fn lemma_no_cost_directives_zero_requirement(
    api: SchemaModel,
    sg: SchemaModel,
    parent: Seq<char>,
    name: Seq<char>,
    stack: Set<PathKey>,
    done: Set<RequirementFingerprint>,
)
    requires
        stack_wf(sg, stack),
        schema_has_no_cost_weights(api),
        eval_requirement(api, sg, parent, name, stack, done) is Ok,
    ensures
        eval_requirement(api, sg, parent, name, stack, done)->Ok_0.cost == 0,
    decreases expansion_budget(sg, stack), 0nat,
{
    match requires_spec(sg, parent, name) {
        Ok(Some(rsel)) => {
            let fp = RequirementFingerprint { parent_name: parent, selection: rsel };
            let key = PathKey { parent_name: parent, field_name: name };
            if done.contains(fp) {
            } else if stack.contains(key) {
            } else {
                lemma_expansion_step(sg, parent, name, stack);
                lemma_no_cost_directives_zero_fields(
                    api,
                    sg,
                    rsel,
                    parent,
                    0,
                    stack.insert(key),
                    done,
                );
            }
        },
        _ => {},
    }
}

/// An operation evaluated against an API view without `@cost` directives
/// is estimated at 0.
pub proof fn lemma_no_cost_directives_zero_estimate(
    api: SchemaModel,
    sg: SchemaModel,
    sel: Seq<FieldSelectionView>,
    root: Seq<char>,
)
    requires
        schema_has_no_cost_weights(api),
        estimate_spec(api, sg, sel, root) is Ok,
    ensures
        estimate_spec(api, sg, sel, root)->Ok_0.cost == 0,
{
    lemma_keys_of_finite(sg.fields);
    lemma_no_cost_directives_zero_fields(
        api,
        sg,
        sel,
        root,
        0,
        Set::empty(),
        Set::empty(),
    );
}

// ---------------------------------------------------------------------------
// Conditional exclusion prunes the whole subtree
// ---------------------------------------------------------------------------

/// A field under `@skip(if: true)` contributes nothing: its weight is not
/// charged, none of its descendants is visited, and no requirement
/// bookkeeping happens — whatever its subtree holds.
pub proof fn lemma_skip_true_contributes_nothing(
    api: SchemaModel,
    sg: SchemaModel,
    f: FieldSelectionView,
    parent: Seq<char>,
    stack: Set<PathKey>,
    done: Set<RequirementFingerprint>,
)
    requires
        stack_wf(sg, stack),
        skip_spec(f.directives) == Some(true),
    ensures
        eval_field(api, sg, f, parent, stack, done) == Ok::<
            EvalSuccess,
            DemandControlErrorView,
        >(EvalSuccess { cost: 0, done }),
{
}

/// A field under `@include(if: false)` behaves identically to one under
/// `@skip(if: true)`: the same outcome, for every schema pair and state.
pub proof fn lemma_include_false_is_skip_true(
    api: SchemaModel,
    sg: SchemaModel,
    f: FieldSelectionView,
    parent: Seq<char>,
    stack: Set<PathKey>,
    done: Set<RequirementFingerprint>,
)
    requires
        stack_wf(sg, stack),
        include_spec(f.directives) == Some(false),
    ensures
        eval_field(api, sg, f, parent, stack, done) == Ok::<
            EvalSuccess,
            DemandControlErrorView,
        >(EvalSuccess { cost: 0, done }),
{
}

/// Evaluation reads a field selection only through its inclusion, its
/// name and its nested selections: two fields that agree on those
/// evaluate identically.
pub proof fn lemma_eval_field_congruence(
    api: SchemaModel,
    sg: SchemaModel,
    f: FieldSelectionView,
    g: FieldSelectionView,
    parent: Seq<char>,
    stack: Set<PathKey>,
    done: Set<RequirementFingerprint>,
)
    requires
        stack_wf(sg, stack),
        f.name == g.name,
        f.selections == g.selections,
        field_included_spec(f) == field_included_spec(g),
    ensures
        eval_field(api, sg, f, parent, stack, done) == eval_field(
            api,
            sg,
            g,
            parent,
            stack,
            done,
        ),
{
}

/// `@include(if: true)` is a no-op: the field evaluates exactly as the
/// same field without its include condition.
pub proof fn lemma_include_true_is_noop(
    api: SchemaModel,
    sg: SchemaModel,
    f: FieldSelectionView,
    g: FieldSelectionView,
    parent: Seq<char>,
    stack: Set<PathKey>,
    done: Set<RequirementFingerprint>,
)
    requires
        stack_wf(sg, stack),
        include_spec(f.directives) == Some(true),
        include_spec(g.directives) is None,
        skip_spec(f.directives) == skip_spec(g.directives),
        f.name == g.name,
        f.selections == g.selections,
    ensures
        eval_field(api, sg, f, parent, stack, done) == eval_field(
            api,
            sg,
            g,
            parent,
            stack,
            done,
        ),
{
    lemma_eval_field_congruence(api, sg, f, g, parent, stack, done);
}

// ---------------------------------------------------------------------------
// Identical requirements are charged at most once
// ---------------------------------------------------------------------------

/// A requirement whose fingerprint was already completed contributes 0
/// and changes nothing.
pub proof fn lemma_requirement_already_completed(
    api: SchemaModel,
    sg: SchemaModel,
    parent: Seq<char>,
    name: Seq<char>,
    rsel: Seq<FieldSelectionView>,
    stack: Set<PathKey>,
    done: Set<RequirementFingerprint>,
)
    requires
        stack_wf(sg, stack),
        requires_spec(sg, parent, name) == Ok::<
            Option<Seq<FieldSelectionView>>,
            DemandControlErrorView,
        >(Some(rsel)),
        done.contains(RequirementFingerprint { parent_name: parent, selection: rsel }),
    ensures
        eval_requirement(api, sg, parent, name, stack, done) == Ok::<
            EvalSuccess,
            DemandControlErrorView,
        >(EvalSuccess { cost: 0, done }),
{
}

/// A successfully expanded requirement records its fingerprint as
/// completed.
pub proof fn lemma_requirement_records_fingerprint(
    api: SchemaModel,
    sg: SchemaModel,
    parent: Seq<char>,
    name: Seq<char>,
    rsel: Seq<FieldSelectionView>,
    stack: Set<PathKey>,
    done: Set<RequirementFingerprint>,
)
    requires
        stack_wf(sg, stack),
        requires_spec(sg, parent, name) == Ok::<
            Option<Seq<FieldSelectionView>>,
            DemandControlErrorView,
        >(Some(rsel)),
        eval_requirement(api, sg, parent, name, stack, done) is Ok,
    ensures
        eval_requirement(api, sg, parent, name, stack, done)->Ok_0.done.contains(
            RequirementFingerprint { parent_name: parent, selection: rsel },
        ),
{
}

/// Two sibling fields that require the same upstream selection have that
/// requirement charged exactly once: after the first sibling evaluates,
/// the second sibling's requirement contributes 0 and records nothing
/// new.
pub proof fn lemma_sibling_requirement_charged_once(
    api: SchemaModel,
    sg: SchemaModel,
    x: FieldSelectionView,
    y: FieldSelectionView,
    parent: Seq<char>,
    stack: Set<PathKey>,
    done: Set<RequirementFingerprint>,
    rsel: Seq<FieldSelectionView>,
)
    requires
        stack_wf(sg, stack),
        field_included_spec(x),
        requires_spec(sg, parent, x.name) == Ok::<
            Option<Seq<FieldSelectionView>>,
            DemandControlErrorView,
        >(Some(rsel)),
        requires_spec(sg, parent, y.name) == Ok::<
            Option<Seq<FieldSelectionView>>,
            DemandControlErrorView,
        >(Some(rsel)),
        eval_field(api, sg, x, parent, stack, done) is Ok,
    ensures
        eval_requirement(
            api,
            sg,
            parent,
            y.name,
            stack,
            eval_field(api, sg, x, parent, stack, done)->Ok_0.done,
        ) == Ok::<EvalSuccess, DemandControlErrorView>(
            EvalSuccess {
                cost: 0,
                done: eval_field(api, sg, x, parent, stack, done)->Ok_0.done,
            },
        ),
{
    let fp = RequirementFingerprint { parent_name: parent, selection: rsel };
    let def = lookup_spec(sg.fields, parent, x.name)->Some_0;
    let req = eval_requirement(api, sg, parent, x.name, stack, done)->Ok_0;
    lemma_requirement_records_fingerprint(api, sg, parent, x.name, rsel, stack, done);
    assert(req.done.contains(fp));
    lemma_done_monotone_fields(api, sg, x.selections, def.result_type, 0, stack, req.done);
    assert(eval_field(api, sg, x, parent, stack, done)->Ok_0.done.contains(fp));
    lemma_requirement_already_completed(
        api,
        sg,
        parent,
        y.name,
        rsel,
        stack,
        eval_field(api, sg, x, parent, stack, done)->Ok_0.done,
    );
}

/// In such a sibling pair the second field's total is its own weight plus
/// its nested selections, nothing more: the shared requirement adds
/// nothing the second time, and the completed set does not change on its
/// account.
pub proof fn lemma_second_sibling_pays_no_requirement(
    api: SchemaModel,
    sg: SchemaModel,
    x: FieldSelectionView,
    y: FieldSelectionView,
    parent: Seq<char>,
    stack: Set<PathKey>,
    done: Set<RequirementFingerprint>,
    rsel: Seq<FieldSelectionView>,
)
    requires
        stack_wf(sg, stack),
        field_included_spec(x),
        field_included_spec(y),
        requires_spec(sg, parent, x.name) == Ok::<
            Option<Seq<FieldSelectionView>>,
            DemandControlErrorView,
        >(Some(rsel)),
        requires_spec(sg, parent, y.name) == Ok::<
            Option<Seq<FieldSelectionView>>,
            DemandControlErrorView,
        >(Some(rsel)),
        eval_field(api, sg, x, parent, stack, done) is Ok,
        eval_field(
            api,
            sg,
            y,
            parent,
            stack,
            eval_field(api, sg, x, parent, stack, done)->Ok_0.done,
        ) is Ok,
    ensures
        eval_field(
            api,
            sg,
            y,
            parent,
            stack,
            eval_field(api, sg, x, parent, stack, done)->Ok_0.done,
        )->Ok_0.cost == own_weight(api, parent, y.name) + eval_fields_from(
            api,
            sg,
            y.selections,
            lookup_spec(sg.fields, parent, y.name)->Some_0.result_type,
            0,
            stack,
            eval_field(api, sg, x, parent, stack, done)->Ok_0.done,
        )->Ok_0.cost,
{
    lemma_sibling_requirement_charged_once(api, sg, x, y, parent, stack, done, rsel);
}

// ---------------------------------------------------------------------------
// A requirement cycle is detected, never recursed into
// ---------------------------------------------------------------------------

/// A requirement whose key is already on the active expansion path, and
/// whose fingerprint is not yet completed, is rejected as a cycle.
pub proof fn lemma_requirement_on_path_is_cycle(
    api: SchemaModel,
    sg: SchemaModel,
    parent: Seq<char>,
    name: Seq<char>,
    rsel: Seq<FieldSelectionView>,
    stack: Set<PathKey>,
    done: Set<RequirementFingerprint>,
)
    requires
        stack_wf(sg, stack),
        requires_spec(sg, parent, name) == Ok::<
            Option<Seq<FieldSelectionView>>,
            DemandControlErrorView,
        >(Some(rsel)),
        !done.contains(RequirementFingerprint { parent_name: parent, selection: rsel }),
        stack.contains(PathKey { parent_name: parent, field_name: name }),
    ensures
        eval_requirement(api, sg, parent, name, stack, done) == Err::<
            EvalSuccess,
            DemandControlErrorView,
        >(DemandControlErrorView::CycleDetected { parent_name: parent, field_name: name }),
{
}

/// Two fields that require each other are rejected as a cycle: from a
/// fresh evaluation, expanding the first requirement reaches the second,
/// which reaches the first again while it is still on the active path.
/// (Evaluation cannot recurse unboundedly in any case: the termination
/// measure of the algebra bounds expansion by the supergraph's keys.)
pub proof fn lemma_mutual_requirements_cycle(
    api: SchemaModel,
    sg: SchemaModel,
    fa: FieldSelectionView,
    fb: FieldSelectionView,
    parent: Seq<char>,
)
    requires
        field_included_spec(fa),
        field_included_spec(fb),
        fa.name != fb.name,
        requires_spec(sg, parent, fa.name) == Ok::<
            Option<Seq<FieldSelectionView>>,
            DemandControlErrorView,
        >(Some(seq![fb])),
        requires_spec(sg, parent, fb.name) == Ok::<
            Option<Seq<FieldSelectionView>>,
            DemandControlErrorView,
        >(Some(seq![fa])),
    ensures
        eval_field(
            api,
            sg,
            fa,
            parent,
            Set::empty(),
            Set::empty(),
        ) == Err::<EvalSuccess, DemandControlErrorView>(
            DemandControlErrorView::CycleDetected { parent_name: parent, field_name: fa.name },
        ),
{
    let stack0 = Set::<PathKey>::empty();
    let done0 = Set::<RequirementFingerprint>::empty();
    let key_a = PathKey { parent_name: parent, field_name: fa.name };
    let key_b = PathKey { parent_name: parent, field_name: fb.name };
    let fp_a = RequirementFingerprint { parent_name: parent, selection: seq![fb] };
    let fp_b = RequirementFingerprint { parent_name: parent, selection: seq![fa] };
    lemma_keys_of_finite(sg.fields);
    assert(stack_wf(sg, stack0));
    lemma_expansion_step(sg, parent, fa.name, stack0);
    let stack1 = stack0.insert(key_a);
    lemma_expansion_step(sg, parent, fb.name, stack1);
    let stack2 = stack1.insert(key_b);
    // innermost: expanding the second requirement reaches the first field
    // again, whose key is on the path
    lemma_requirement_on_path_is_cycle(api, sg, parent, fa.name, seq![fb], stack2, done0);
    let err = DemandControlErrorView::CycleDetected {
        parent_name: parent,
        field_name: fa.name,
    };
    assert(eval_field(api, sg, fa, parent, stack2, done0) == Err::<
        EvalSuccess,
        DemandControlErrorView,
    >(err));
    assert(seq![fa][0] == fa);
    assert(eval_fields_from(api, sg, seq![fa], parent, 0, stack2, done0) == Err::<
        EvalSuccess,
        DemandControlErrorView,
    >(err));
    assert(eval_requirement(api, sg, parent, fb.name, stack1, done0) == Err::<
        EvalSuccess,
        DemandControlErrorView,
    >(err));
    assert(eval_field(api, sg, fb, parent, stack1, done0) == Err::<
        EvalSuccess,
        DemandControlErrorView,
    >(err));
    assert(seq![fb][0] == fb);
    assert(eval_fields_from(api, sg, seq![fb], parent, 0, stack1, done0) == Err::<
        EvalSuccess,
        DemandControlErrorView,
    >(err));
    assert(eval_requirement(api, sg, parent, fa.name, stack0, done0) == Err::<
        EvalSuccess,
        DemandControlErrorView,
    >(err));
    assert(eval_field(api, sg, fa, parent, stack0, done0) == Err::<
        EvalSuccess,
        DemandControlErrorView,
    >(err));
}

// ---------------------------------------------------------------------------
// Monotonicity: adding a field never decreases the total
// ---------------------------------------------------------------------------

/// Appending a field to a selection set never decreases the cost of a
/// successful evaluation. (Every weight is non-negative by construction.)
pub proof fn lemma_append_monotone_from(
    api: SchemaModel,
    sg: SchemaModel,
    sel: Seq<FieldSelectionView>,
    f: FieldSelectionView,
    parent: Seq<char>,
    i: int,
    stack: Set<PathKey>,
    done: Set<RequirementFingerprint>,
)
    requires
        stack_wf(sg, stack),
        0 <= i,
        eval_fields_from(api, sg, sel, parent, i, stack, done) is Ok,
        eval_fields_from(api, sg, sel.push(f), parent, i, stack, done) is Ok,
    ensures
        eval_fields_from(api, sg, sel.push(f), parent, i, stack, done)->Ok_0.cost
            >= eval_fields_from(api, sg, sel, parent, i, stack, done)->Ok_0.cost,
    decreases sel.len() - i,
{
    if i >= sel.len() {
        assert(eval_fields_from(api, sg, sel, parent, i, stack, done)->Ok_0.cost == 0);
    } else {
        assert(sel.push(f)[i] == sel[i]);
        let first = eval_field(api, sg, sel[i], parent, stack, done)->Ok_0;
        lemma_append_monotone_from(api, sg, sel, f, parent, i + 1, stack, first.done);
    }
}

/// Adding a field to an operation's root selection set never decreases
/// its estimated cost, whenever both operations evaluate successfully.
pub proof fn lemma_adding_field_never_decreases_estimate(
    api: SchemaModel,
    sg: SchemaModel,
    sel: Seq<FieldSelectionView>,
    f: FieldSelectionView,
    root: Seq<char>,
)
    requires
        estimate_spec(api, sg, sel, root) is Ok,
        estimate_spec(api, sg, sel.push(f), root) is Ok,
    ensures
        estimate_spec(api, sg, sel.push(f), root)->Ok_0.cost >= estimate_spec(
            api,
            sg,
            sel,
            root,
        )->Ok_0.cost,
{
    lemma_keys_of_finite(sg.fields);
    lemma_append_monotone_from(
        api,
        sg,
        sel,
        f,
        root,
        0,
        Set::empty(),
        Set::empty(),
    );
}

} // verus!
