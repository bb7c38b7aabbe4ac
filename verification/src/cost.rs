//! The selection-cost evaluator: a recursive cost algebra over selection
//! sets, combining each included field's own `@cost` weight, the cost of
//! the upstream selection its supergraph definition `requires`, and the
//! cost of its nested selections.
//!
//! Requirement expansion carries two distinct kinds of bookkeeping with
//! two distinct lifetimes:
//! - a set of *completed* requirement fingerprints (`done`), so a
//!   requirement with the same structural identity is charged at most once
//!   per operation evaluation, and
//! - the set of `(parent type, field name)` pairs on the *active*
//!   expansion path (`stack`), so a requirement that reaches itself again
//!   is rejected as `CycleDetected` instead of recursing unboundedly.
//!
//! Termination is by a lexicographic measure: every expansion pushes a
//! schema key that was not yet on the active path, so the number of keys
//! still available shrinks; between expansions the selection tree shrinks.

use vstd::prelude::*;

use crate::directives::CostDirective;
use crate::directives::DemandControlError;
use crate::directives::DemandControlErrorView;
use crate::directives::IncludeDirective;
use crate::directives::RequiresDirective;
use crate::directives::SkipDirective;
use crate::directives::cost_weight_spec;
use crate::directives::error_view;
use crate::directives::field_included_spec;
use crate::directives::requires_spec;
use crate::model::FieldDefinitionView;
use crate::model::FieldSelection;
use crate::model::FieldSelectionView;
use crate::model::Schema;
use crate::model::SchemaModel;
use crate::model::SchemaViews;
use crate::model::Operation;
use crate::model::field_def_view;
use crate::model::field_view;
use crate::model::fields_view;
use crate::model::lemma_fields_view_index;
use crate::model::lemma_fields_view_len;
use crate::model::lookup_spec;
use crate::model::schema_model;
use crate::model::selection_sets_equal;

verus! {

// ---------------------------------------------------------------------------
// Bookkeeping values
// ---------------------------------------------------------------------------

/// One entry of the active requirement-expansion path: the requiring
/// field, identified by parent type name and field name.
#[verifier::ext_equal]
pub struct PathKey {
    pub parent_name: Seq<char>,
    pub field_name: Seq<char>,
}

/// The structural identity of a required selection: the parent type it is
/// rooted at together with the required field-set itself. Two sibling
/// fields that require the same upstream selection produce the same
/// fingerprint.
#[verifier::ext_equal]
pub struct RequirementFingerprint {
    pub parent_name: Seq<char>,
    pub selection: Seq<FieldSelectionView>,
}

/// Outcome of a successful evaluation step: the cost contributed and the
/// updated set of completed requirement fingerprints.
#[verifier::ext_equal]
pub struct EvalSuccess {
    pub cost: nat,
    pub done: Set<RequirementFingerprint>,
}

/// The key a field definition occupies in a schema view.
pub open spec fn def_key(d: FieldDefinitionView) -> PathKey {
    PathKey { parent_name: d.parent_type, field_name: d.name }
}

/// All keys a schema view defines.
pub open spec fn keys_of(fields: Seq<FieldDefinitionView>) -> Set<PathKey>
    decreases fields.len(),
{
    if fields.len() == 0 {
        Set::empty()
    } else {
        keys_of(fields.drop_first()).insert(def_key(fields[0]))
    }
}

pub open spec fn schema_keys(sg: SchemaModel) -> Set<PathKey> {
    keys_of(sg.fields)
}

/// The active path is well-formed when it is a finite set of keys of the
/// supergraph view. Every expansion preserves this.
pub open spec fn stack_wf(sg: SchemaModel, stack: Set<PathKey>) -> bool {
    stack.finite() && stack.subset_of(schema_keys(sg))
}

/// How many schema keys are still available for requirement expansion.
pub open spec fn expansion_budget(sg: SchemaModel, stack: Set<PathKey>) -> int {
    schema_keys(sg).len() - stack.len()
}

pub proof fn lemma_keys_of_finite(fields: Seq<FieldDefinitionView>)
    ensures
        keys_of(fields).finite(),
    decreases fields.len(),
{
    if fields.len() > 0 {
        lemma_keys_of_finite(fields.drop_first());
    }
}

/// A successful lookup means the looked-up key is a key of the view.
pub proof fn lemma_lookup_key(fields: Seq<FieldDefinitionView>, parent: Seq<char>, name: Seq<char>)
    requires
        lookup_spec(fields, parent, name) is Some,
    ensures
        keys_of(fields).contains(PathKey { parent_name: parent, field_name: name }),
    decreases fields.len(),
{
    if fields[0].parent_type == parent && fields[0].name == name {
        assert(def_key(fields[0]) == PathKey { parent_name: parent, field_name: name });
    } else {
        lemma_lookup_key(fields.drop_first(), parent, name);
    }
}

// ---------------------------------------------------------------------------
// Termination measure over the selection tree
// ---------------------------------------------------------------------------

pub open spec fn field_size(f: FieldSelectionView) -> nat
    decreases f, 0int,
{
    1 + fields_size_from(f.selections, 0)
}

pub open spec fn fields_size_from(s: Seq<FieldSelectionView>, i: int) -> nat
    decreases s, 1int, s.len() - i,
{
    if i < 0 || i >= s.len() {
        0
    } else {
        1 + field_size(s[i]) + fields_size_from(s, i + 1)
    }
}

// ---------------------------------------------------------------------------
// The cost algebra
// ---------------------------------------------------------------------------

/// The field's own weight: `@cost(weight:)` read from the field's API-side
/// definition. A field without a definition, without the directive, or
/// with a non-numeric weight contributes 0.
pub open spec fn own_weight(api: SchemaModel, parent: Seq<char>, name: Seq<char>) -> u64 {
    match lookup_spec(api.fields, parent, name) {
        Some(def) => match cost_weight_spec(def.directives) {
            Some(w) => w,
            None => 0,
        },
        None => 0,
    }
}

/// Evaluates the fields of `sel` from index `i` on, threading the set of
/// completed requirement fingerprints left to right.
pub open spec fn eval_fields_from(
    api: SchemaModel,
    sg: SchemaModel,
    sel: Seq<FieldSelectionView>,
    parent: Seq<char>,
    i: int,
    stack: Set<PathKey>,
    done: Set<RequirementFingerprint>,
) -> Result<EvalSuccess, DemandControlErrorView>
    decreases expansion_budget(sg, stack), fields_size_from(sel, i),
    when stack_wf(sg, stack)
{
    if i < 0 || i >= sel.len() {
        Ok(EvalSuccess { cost: 0, done })
    } else {
        match eval_field(api, sg, sel[i], parent, stack, done) {
            Err(e) => Err(e),
            Ok(first) => match eval_fields_from(api, sg, sel, parent, i + 1, stack, first.done) {
                Err(e) => Err(e),
                Ok(rest) => Ok(EvalSuccess { cost: first.cost + rest.cost, done: rest.done }),
            },
        }
    }
}

/// Evaluates one field selection: nothing if it is excluded by
/// `@skip`/`@include`; otherwise its own weight, plus its requirement's
/// cost, plus the cost of its nested selections evaluated under the
/// definition's result type.
pub open spec fn eval_field(
    api: SchemaModel,
    sg: SchemaModel,
    f: FieldSelectionView,
    parent: Seq<char>,
    stack: Set<PathKey>,
    done: Set<RequirementFingerprint>,
) -> Result<EvalSuccess, DemandControlErrorView>
    decreases expansion_budget(sg, stack), field_size(f),
    when stack_wf(sg, stack)
{
    if !field_included_spec(f) {
        Ok(EvalSuccess { cost: 0, done })
    } else {
        match lookup_spec(sg.fields, parent, f.name) {
            None => Err(
                DemandControlErrorView::QueryParseFailure {
                    parent_name: parent,
                    field_name: f.name,
                },
            ),
            Some(def) => match eval_requirement(api, sg, parent, f.name, stack, done) {
                Err(e) => Err(e),
                Ok(req) => match eval_fields_from(
                    api,
                    sg,
                    f.selections,
                    def.result_type,
                    0,
                    stack,
                    req.done,
                ) {
                    Err(e) => Err(e),
                    Ok(children) => Ok(
                        EvalSuccess {
                            cost: own_weight(api, parent, f.name) as nat + req.cost
                                + children.cost,
                            done: children.done,
                        },
                    ),
                },
            },
        }
    }
}

/// Evaluates the requirement of the included field `(parent, field_name)`.
/// A requirement whose fingerprint was already completed contributes 0; a
/// requirement whose key is already on the active path is a cycle; a fresh
/// requirement is evaluated with its key pushed onto the path, and its
/// fingerprint is then recorded as completed.
pub open spec fn eval_requirement(
    api: SchemaModel,
    sg: SchemaModel,
    parent: Seq<char>,
    field_name: Seq<char>,
    stack: Set<PathKey>,
    done: Set<RequirementFingerprint>,
) -> Result<EvalSuccess, DemandControlErrorView>
    decreases expansion_budget(sg, stack), 0nat,
    when stack_wf(sg, stack)
    via eval_requirement_decreases
{
    match requires_spec(sg, parent, field_name) {
        Err(e) => Err(e),
        Ok(None) => Ok(EvalSuccess { cost: 0, done }),
        Ok(Some(rsel)) => {
            let fp = RequirementFingerprint { parent_name: parent, selection: rsel };
            let key = PathKey { parent_name: parent, field_name };
            if done.contains(fp) {
                Ok(EvalSuccess { cost: 0, done })
            } else if stack.contains(key) {
                Err(DemandControlErrorView::CycleDetected { parent_name: parent, field_name })
            } else {
                match eval_fields_from(api, sg, rsel, parent, 0, stack.insert(key), done) {
                    Err(e) => Err(e),
                    Ok(s) => Ok(EvalSuccess { cost: s.cost, done: s.done.insert(fp) }),
                }
            }
        },
    }
}

#[via_fn]
proof fn eval_requirement_decreases(
    api: SchemaModel,
    sg: SchemaModel,
    parent: Seq<char>,
    field_name: Seq<char>,
    stack: Set<PathKey>,
    done: Set<RequirementFingerprint>,
) {
    if stack_wf(sg, stack) {
        match requires_spec(sg, parent, field_name) {
            Ok(Some(rsel)) => {
                let key = PathKey { parent_name: parent, field_name };
                lemma_lookup_key(sg.fields, parent, field_name);
                lemma_keys_of_finite(sg.fields);
                if !stack.contains(key) {
                    assert(stack.insert(key).subset_of(schema_keys(sg)));
                    vstd::set_lib::lemma_len_subset(stack.insert(key), schema_keys(sg));
                    assert(stack.insert(key).len() == stack.len() + 1);
                }
            },
            _ => {},
        }
    }
}

/// The estimated cost of an operation's root selection set: evaluation
/// starts with an empty active path and no completed requirements.
pub open spec fn estimate_spec(
    api: SchemaModel,
    sg: SchemaModel,
    sel: Seq<FieldSelectionView>,
    root: Seq<char>,
) -> Result<EvalSuccess, DemandControlErrorView> {
    eval_fields_from(api, sg, sel, root, 0, Set::empty(), Set::empty())
}

// ---------------------------------------------------------------------------
// Saturation: the executable cost is capped at u64::MAX
// ---------------------------------------------------------------------------

/// The unbounded cost, capped to what a `u64` can carry.
pub open spec fn saturated(c: nat) -> nat {
    if c > u64::MAX as nat {
        u64::MAX as nat
    } else {
        c
    }
}

/// Saturating addition on costs.
pub fn sat_add(a: u64, b: u64) -> (r: u64)
    ensures
        r as nat == saturated(a as nat + b as nat),
{
    if a > u64::MAX - b {
        u64::MAX
    } else {
        a + b
    }
}

/// Saturation composes: adding already-saturated parts and capping gives
/// the cap of the true sum.
pub proof fn lemma_saturated_add(a: nat, b: nat)
    ensures
        saturated(saturated(a) + saturated(b)) == saturated(a + b),
{
}

// ---------------------------------------------------------------------------
// Executable bookkeeping
// ---------------------------------------------------------------------------

/// Executable entry of the active expansion path.
pub struct PathEntry {
    pub parent_name: String,
    pub field_name: String,
}

pub open spec fn path_entry_view(e: PathEntry) -> PathKey {
    PathKey { parent_name: e.parent_name@, field_name: e.field_name@ }
}

/// Executable requirement fingerprint: the parent type name and the
/// required selection itself; identity is structural.
pub struct Fingerprint {
    pub parent_name: String,
    pub selection: Vec<FieldSelection>,
}

pub open spec fn fingerprint_view(f: Fingerprint) -> RequirementFingerprint {
    RequirementFingerprint { parent_name: f.parent_name@, selection: fields_view(f.selection@) }
}

/// The set of path keys an executable stack holds.
pub open spec fn stack_set(s: Seq<PathEntry>) -> Set<PathKey>
    decreases s.len(),
{
    if s.len() == 0 {
        Set::empty()
    } else {
        stack_set(s.drop_last()).insert(path_entry_view(s.last()))
    }
}

/// The set of fingerprints an executable list of completed requirements
/// holds.
pub open spec fn done_set(s: Seq<Fingerprint>) -> Set<RequirementFingerprint>
    decreases s.len(),
{
    if s.len() == 0 {
        Set::empty()
    } else {
        done_set(s.drop_last()).insert(fingerprint_view(s.last()))
    }
}

pub proof fn lemma_stack_set_push(s: Seq<PathEntry>, e: PathEntry)
    ensures
        stack_set(s.push(e)) == stack_set(s).insert(path_entry_view(e)),
{
    assert(s.push(e).drop_last() =~= s);
    assert(s.push(e).last() == e);
}

pub proof fn lemma_done_set_push(s: Seq<Fingerprint>, f: Fingerprint)
    ensures
        done_set(s.push(f)) == done_set(s).insert(fingerprint_view(f)),
{
    assert(s.push(f).drop_last() =~= s);
    assert(s.push(f).last() == f);
}

/// Membership in `stack_set` is existence of a matching entry.
pub proof fn lemma_stack_set_contains(s: Seq<PathEntry>, k: PathKey)
    ensures
        stack_set(s).contains(k) <==> exists|i: int|
            0 <= i < s.len() && path_entry_view(#[trigger] s[i]) == k,
    decreases s.len(),
{
    if s.len() > 0 {
        lemma_stack_set_contains(s.drop_last(), k);
        assert(forall|i: int|
            0 <= i < s.len() - 1 ==> #[trigger] s.drop_last()[i] == s[i]);
        if stack_set(s).contains(k) {
            if k == path_entry_view(s.last()) {
                assert(path_entry_view(s[s.len() - 1]) == k);
            } else {
                let i = choose|i: int|
                    0 <= i < s.drop_last().len() && path_entry_view(#[trigger] s.drop_last()[i])
                        == k;
                assert(path_entry_view(s[i]) == k);
            }
        }
        if exists|i: int| 0 <= i < s.len() && path_entry_view(#[trigger] s[i]) == k {
            let i = choose|i: int| 0 <= i < s.len() && path_entry_view(#[trigger] s[i]) == k;
            if i == s.len() - 1 {
                assert(stack_set(s).contains(k));
            } else {
                assert(path_entry_view(s.drop_last()[i]) == k);
            }
        }
    }
}

/// Membership in `done_set` is existence of a matching fingerprint.
pub proof fn lemma_done_set_contains(s: Seq<Fingerprint>, k: RequirementFingerprint)
    ensures
        done_set(s).contains(k) <==> exists|i: int|
            0 <= i < s.len() && fingerprint_view(#[trigger] s[i]) == k,
    decreases s.len(),
{
    if s.len() > 0 {
        lemma_done_set_contains(s.drop_last(), k);
        assert(forall|i: int|
            0 <= i < s.len() - 1 ==> #[trigger] s.drop_last()[i] == s[i]);
        if done_set(s).contains(k) {
            if k == fingerprint_view(s.last()) {
                assert(fingerprint_view(s[s.len() - 1]) == k);
            } else {
                let i = choose|i: int|
                    0 <= i < s.drop_last().len() && fingerprint_view(#[trigger] s.drop_last()[i])
                        == k;
                assert(fingerprint_view(s[i]) == k);
            }
        }
        if exists|i: int| 0 <= i < s.len() && fingerprint_view(#[trigger] s[i]) == k {
            let i = choose|i: int| 0 <= i < s.len() && fingerprint_view(#[trigger] s[i]) == k;
            if i == s.len() - 1 {
                assert(done_set(s).contains(k));
            } else {
                assert(fingerprint_view(s.drop_last()[i]) == k);
            }
        }
    }
}

/// Decides membership of `(parent, field)` in the active path.
fn stack_contains(stack: &Vec<PathEntry>, parent_name: &String, field_name: &String) -> (r: bool)
    ensures
        r == stack_set(stack@).contains(
            PathKey { parent_name: parent_name@, field_name: field_name@ },
        ),
{
    let ghost key = PathKey { parent_name: parent_name@, field_name: field_name@ };
    let n = stack.len();
    let mut i: usize = 0;
    while i < n
        invariant
            n == stack.len(),
            0 <= i <= n,
            key == (PathKey { parent_name: parent_name@, field_name: field_name@ }),
            forall|j: int| 0 <= j < i ==> path_entry_view(#[trigger] stack@[j]) != key,
        decreases n - i,
    {
        let e = &stack[i];
        let parent_hit = e.parent_name == *parent_name;
        let field_hit = e.field_name == *field_name;
        if parent_hit && field_hit {
            proof {
                assert(path_entry_view(stack@[i as int]) == key);
                lemma_stack_set_contains(stack@, key);
            }
            return true;
        }
        i = i + 1;
    }
    proof {
        lemma_stack_set_contains(stack@, key);
    }
    false
}

/// Decides membership of a requirement fingerprint in the completed set.
fn done_contains(
    done: &Vec<Fingerprint>,
    parent_name: &String,
    selection: &Vec<FieldSelection>,
) -> (r: bool)
    ensures
        r == done_set(done@).contains(
            RequirementFingerprint {
                parent_name: parent_name@,
                selection: fields_view(selection@),
            },
        ),
{
    let ghost key = RequirementFingerprint {
        parent_name: parent_name@,
        selection: fields_view(selection@),
    };
    let n = done.len();
    let mut i: usize = 0;
    while i < n
        invariant
            n == done.len(),
            0 <= i <= n,
            key == (RequirementFingerprint {
                parent_name: parent_name@,
                selection: fields_view(selection@),
            }),
            forall|j: int| 0 <= j < i ==> fingerprint_view(#[trigger] done@[j]) != key,
        decreases n - i,
    {
        let e = &done[i];
        let parent_hit = e.parent_name == *parent_name;
        if parent_hit && selection_sets_equal(&e.selection, selection) {
            proof {
                assert(fingerprint_view(done@[i as int]) == key);
                lemma_done_set_contains(done@, key);
            }
            return true;
        }
        i = i + 1;
    }
    proof {
        lemma_done_set_contains(done@, key);
    }
    false
}

/// Any element of a selection sequence is strictly smaller than the whole
/// tail it sits in.
proof fn lemma_field_size_lt(s: Seq<FieldSelectionView>, j: int, i: int)
    requires
        0 <= j <= i < s.len(),
    ensures
        field_size(s[i]) < fields_size_from(s, j),
    decreases i - j,
{
    if j < i {
        lemma_field_size_lt(s, j + 1, i);
    }
}

// ---------------------------------------------------------------------------
// The executable evaluator
// ---------------------------------------------------------------------------

/// Evaluates a selection set, threading the completed-requirement list and
/// restoring the active path. Returns the evaluation the cost algebra
/// defines, with the cost capped at `u64::MAX`.
pub fn evaluate_fields(
    api: &Schema,
    supergraph: &Schema,
    sel: &Vec<FieldSelection>,
    parent_name: &String,
    stack: &mut Vec<PathEntry>,
    done: &mut Vec<Fingerprint>,
) -> (r: Result<u64, DemandControlError>)
    requires
        stack_wf(schema_model(*supergraph), stack_set(old(stack)@)),
    ensures
        match r {
            Ok(c) => eval_fields_from(
                schema_model(*api),
                schema_model(*supergraph),
                fields_view(sel@),
                parent_name@,
                0,
                stack_set(old(stack)@),
                done_set(old(done)@),
            ) matches Ok(s) && c as nat == saturated(s.cost) && done_set(final(done)@) == s.done
                && final(stack)@ == old(stack)@,
            Err(e) => eval_fields_from(
                schema_model(*api),
                schema_model(*supergraph),
                fields_view(sel@),
                parent_name@,
                0,
                stack_set(old(stack)@),
                done_set(old(done)@),
            ) matches Err(ev) && error_view(e) == ev,
        },
    decreases
            expansion_budget(schema_model(*supergraph), stack_set(stack@)),
            fields_size_from(fields_view(sel@), 0),
            1int,
{
    let ghost api_model = schema_model(*api);
    let ghost sg_model = schema_model(*supergraph);
    let ghost sel_views = fields_view(sel@);
    let ghost stack0 = stack_set(old(stack)@);
    let ghost done0 = done_set(old(done)@);
    proof {
        lemma_fields_view_len(sel@);
    }
    let n = sel.len();
    let mut i: usize = 0;
    let mut acc: u64 = 0;
    let ghost mut acc_true: nat = 0nat;
    while i < n
        invariant
            n == sel.len(),
            0 <= i <= n,
            api_model == schema_model(*api),
            sg_model == schema_model(*supergraph),
            sel_views == fields_view(sel@),
            sel_views.len() == n,
            stack0 == stack_set(old(stack)@),
            done0 == done_set(old(done)@),
            stack@ == old(stack)@,
            stack_wf(sg_model, stack0),
            acc as nat == saturated(acc_true),
            match eval_fields_from(
                api_model,
                sg_model,
                sel_views,
                parent_name@,
                i as int,
                stack0,
                done_set(done@),
            ) {
                Ok(s) => eval_fields_from(
                    api_model,
                    sg_model,
                    sel_views,
                    parent_name@,
                    0,
                    stack0,
                    done0,
                ) == Ok::<EvalSuccess, DemandControlErrorView>(
                    EvalSuccess { cost: (acc_true + s.cost) as nat, done: s.done },
                ),
                Err(e) => eval_fields_from(
                    api_model,
                    sg_model,
                    sel_views,
                    parent_name@,
                    0,
                    stack0,
                    done0,
                ) == Err::<EvalSuccess, DemandControlErrorView>(e),
            },
        decreases n - i,
    {
        let ghost done_i = done_set(done@);
        proof {
            lemma_fields_view_index(sel@, i as int);
            lemma_field_size_lt(sel_views, 0, i as int);
        }
        match evaluate_field(api, supergraph, &sel[i], parent_name, stack, done) {
            Err(e) => {
                return Err(e);
            },
            Ok(c) => {
                proof {
                    let s1 = eval_field(
                        api_model,
                        sg_model,
                        sel_views[i as int],
                        parent_name@,
                        stack0,
                        done_i,
                    )->Ok_0;
                    lemma_saturated_add(acc_true, s1.cost);
                    acc_true = acc_true + s1.cost;
                }
                acc = sat_add(acc, c);
                i = i + 1;
            },
        }
    }
    Ok(acc)
}

/// Evaluates one field of a selection set: nothing when excluded by its
/// conditions; otherwise its own weight plus requirement plus children.
pub fn evaluate_field(
    api: &Schema,
    supergraph: &Schema,
    field: &FieldSelection,
    parent_name: &String,
    stack: &mut Vec<PathEntry>,
    done: &mut Vec<Fingerprint>,
) -> (r: Result<u64, DemandControlError>)
    requires
        stack_wf(schema_model(*supergraph), stack_set(old(stack)@)),
    ensures
        match r {
            Ok(c) => eval_field(
                schema_model(*api),
                schema_model(*supergraph),
                field_view(*field),
                parent_name@,
                stack_set(old(stack)@),
                done_set(old(done)@),
            ) matches Ok(s) && c as nat == saturated(s.cost) && done_set(final(done)@) == s.done
                && final(stack)@ == old(stack)@,
            Err(e) => eval_field(
                schema_model(*api),
                schema_model(*supergraph),
                field_view(*field),
                parent_name@,
                stack_set(old(stack)@),
                done_set(old(done)@),
            ) matches Err(ev) && error_view(e) == ev,
        },
    decreases
            expansion_budget(schema_model(*supergraph), stack_set(stack@)),
            field_size(field_view(*field)),
            0int,
{
    let ghost api_model = schema_model(*api);
    let ghost sg_model = schema_model(*supergraph);
    let ghost fv = field_view(*field);
    let ghost stack0 = stack_set(old(stack)@);
    let ghost done0 = done_set(old(done)@);

    let skipped = match SkipDirective::from_field(field) {
        Ok(Some(d)) => d.is_skipped,
        _ => false,
    };
    let included = match IncludeDirective::from_field(field) {
        Ok(Some(d)) => d.is_included,
        _ => true,
    };
    if skipped || !included {
        proof {
            assert(!field_included_spec(fv));
        }
        return Ok(0);
    }
    proof {
        assert(field_included_spec(fv));
    }

    let def = match supergraph.lookup(parent_name, &field.name) {
        None => {
            return Err(
                DemandControlError::QueryParseFailure {
                    parent_name: parent_name.clone(),
                    field_name: field.name.clone(),
                },
            );
        },
        Some(d) => d,
    };

    let own: u64 = match api.lookup(parent_name, &field.name) {
        Some(api_def) => match CostDirective::from_field(api_def) {
            Ok(Some(c)) => c.weight,
            _ => 0,
        },
        None => 0,
    };
    proof {
        assert(own == own_weight(api_model, parent_name@, fv.name));
    }

    let required = match evaluate_requirement(api, supergraph, field, parent_name, stack, done) {
        Err(e) => {
            return Err(e);
        },
        Ok(c) => c,
    };

    proof {
        assert(fields_size_from(fv.selections, 0) < field_size(fv));
    }
    let children = match evaluate_fields(
        api,
        supergraph,
        &field.selections,
        &def.result_type,
        stack,
        done,
    ) {
        Err(e) => {
            return Err(e);
        },
        Ok(c) => c,
    };

    let inner = sat_add(required, children);
    let total = sat_add(own, inner);
    proof {
        let s_req = eval_requirement(api_model, sg_model, parent_name@, fv.name, stack0, done0)
            ->Ok_0;
        let s_children = eval_fields_from(
            api_model,
            sg_model,
            fv.selections,
            field_def_view(*def).result_type,
            0,
            stack0,
            s_req.done,
        )->Ok_0;
        lemma_saturated_add(s_req.cost, s_children.cost);
        lemma_saturated_add(own as nat, s_req.cost + s_children.cost);
        assert(saturated(own as nat) == own as nat);
        assert(total as nat == saturated(own as nat + s_req.cost + s_children.cost));
    }
    Ok(total)
}

/// Evaluates the requirement the supergraph declares for `field` on
/// `parent_name`, with fingerprint dedup and cycle protection.
pub fn evaluate_requirement(
    api: &Schema,
    supergraph: &Schema,
    field: &FieldSelection,
    parent_name: &String,
    stack: &mut Vec<PathEntry>,
    done: &mut Vec<Fingerprint>,
) -> (r: Result<u64, DemandControlError>)
    requires
        stack_wf(schema_model(*supergraph), stack_set(old(stack)@)),
    ensures
        match r {
            Ok(c) => eval_requirement(
                schema_model(*api),
                schema_model(*supergraph),
                parent_name@,
                field_view(*field).name,
                stack_set(old(stack)@),
                done_set(old(done)@),
            ) matches Ok(s) && c as nat == saturated(s.cost) && done_set(final(done)@) == s.done
                && final(stack)@ == old(stack)@,
            Err(e) => eval_requirement(
                schema_model(*api),
                schema_model(*supergraph),
                parent_name@,
                field_view(*field).name,
                stack_set(old(stack)@),
                done_set(old(done)@),
            ) matches Err(ev) && error_view(e) == ev,
        },
    decreases
            expansion_budget(schema_model(*supergraph), stack_set(stack@)),
            0nat,
            0int,
{
    let ghost api_model = schema_model(*api);
    let ghost sg_model = schema_model(*supergraph);
    let ghost fv = field_view(*field);
    let ghost stack0 = stack_set(old(stack)@);
    let ghost done0 = done_set(old(done)@);

    let requirement = match RequiresDirective::from_field(field, parent_name, supergraph) {
        Err(e) => {
            return Err(e);
        },
        Ok(None) => {
            return Ok(0);
        },
        Ok(Some(d)) => d,
    };
    let ghost rsel = requires_spec(sg_model, parent_name@, fv.name)->Ok_0->Some_0;
    let ghost fp = RequirementFingerprint { parent_name: parent_name@, selection: rsel };
    proof {
        assert(fields_view(requirement.fields@) == rsel);
    }

    if done_contains(done, parent_name, &requirement.fields) {
        return Ok(0);
    }
    if stack_contains(stack, parent_name, &field.name) {
        return Err(
            DemandControlError::CycleDetected {
                parent_name: parent_name.clone(),
                field_name: field.name.clone(),
            },
        );
    }

    let ghost key = PathKey { parent_name: parent_name@, field_name: fv.name };
    let entry = PathEntry {
        parent_name: parent_name.clone(),
        field_name: field.name.clone(),
    };
    proof {
        assert(path_entry_view(entry) == key);
        assert(lookup_spec(sg_model.fields, parent_name@, fv.name) is Some);
        lemma_lookup_key(sg_model.fields, parent_name@, fv.name);
        lemma_keys_of_finite(sg_model.fields);
        lemma_stack_set_push(stack@, entry);
        assert(stack0.insert(key).subset_of(schema_keys(sg_model)));
        vstd::set_lib::lemma_len_subset(stack0.insert(key), schema_keys(sg_model));
        assert(stack0.insert(key).len() == stack0.len() + 1);
    }
    stack.push(entry);
    proof {
        assert(stack_set(stack@) == stack0.insert(key));
        assert(expansion_budget(sg_model, stack_set(stack@)) < expansion_budget(
            sg_model,
            stack0,
        ));
    }

    let expanded = match evaluate_fields(
        api,
        supergraph,
        &requirement.fields,
        parent_name,
        stack,
        done,
    ) {
        Err(e) => {
            return Err(e);
        },
        Ok(c) => c,
    };

    let ghost stack_before_pop = stack@;
    stack.pop();
    proof {
        assert(stack_before_pop == old(stack)@.push(entry));
        assert(stack@ =~= old(stack)@);
    }

    let fingerprint = Fingerprint {
        parent_name: parent_name.clone(),
        selection: requirement.fields,
    };
    proof {
        assert(fingerprint_view(fingerprint) == fp);
        lemma_done_set_push(done@, fingerprint);
    }
    done.push(fingerprint);
    Ok(expanded)
}

/// The estimated cost of an operation against the pair of schema views:
/// the cost algebra evaluated from an empty active path and no completed
/// requirements, capped at `u64::MAX`.
pub fn estimated_cost(schemas: &SchemaViews, operation: &Operation) -> (r: Result<
    u64,
    DemandControlError,
>)
    ensures
        match r {
            Ok(c) => estimate_spec(
                schema_model(schemas.api),
                schema_model(schemas.supergraph),
                fields_view(operation.selections@),
                operation.root_type@,
            ) matches Ok(s) && c as nat == saturated(s.cost),
            Err(e) => estimate_spec(
                schema_model(schemas.api),
                schema_model(schemas.supergraph),
                fields_view(operation.selections@),
                operation.root_type@,
            ) matches Err(ev) && error_view(e) == ev,
        },
{
    let mut stack: Vec<PathEntry> = Vec::new();
    let mut done: Vec<Fingerprint> = Vec::new();
    proof {
        assert(stack_set(stack@) =~= Set::<PathKey>::empty());
        assert(done_set(done@) =~= Set::<RequirementFingerprint>::empty());
        assert(stack_set(stack@).subset_of(schema_keys(schema_model(schemas.supergraph))));
    }
    evaluate_fields(
        &schemas.api,
        &schemas.supergraph,
        &operation.selections,
        &operation.root_type,
        &mut stack,
        &mut done,
    )
}

} // verus!
