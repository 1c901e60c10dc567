//! Laws that relate the merge, the store and the evaluator.
use vstd::prelude::*;

use crate::context::{
    default_formula, default_var1, default_view, merged, same_field, target_field, Content,
    ContextField, ContextView, Update,
};
use crate::fields::{field_view, shown_outcome, FieldKey};
use crate::formula::{evaluation, expenses_name, rhai_int_outcome, FORMULA_OPERATION_LIMIT};

verus! {

/// The context after the updates `us` are applied to `prev` in order.
pub open spec fn applied(prev: ContextView, us: Seq<Update>) -> ContextView
    decreases us.len(),
{
    if us.len() == 0 {
        prev
    } else {
        merged(applied(prev, us.drop_last()), us.last())
    }
}

/// Whether `u` updates a single field.
pub open spec fn is_patch(u: Update) -> bool {
    target_field(u) is Some
}

/// Whether `c` holds the value that the single-field update `u` sets.
pub open spec fn holds_patch(c: ContextView, u: Update) -> bool {
    match u {
        Update::AllContent(_) => false,
        Update::Var1(name) => c.var1 == name@,
        Update::Revenue(v) => c.revenue == v,
        Update::Expenses(v) => c.expenses == v,
        Update::Formula(f) => c.formula == f@,
    }
}

/// A single-field update sets its field and leaves every other field, the
/// render target included, as it was.
pub proof fn lemma_patch_changes_only_its_field(prev: ContextView, u: Update, f: ContextField)
    requires
        is_patch(u),
    ensures
        holds_patch(merged(prev, u), u),
        merged(prev, u).target == prev.target,
        target_field(u) != Some(f) ==> same_field(merged(prev, u), prev, f),
{
}

/// Over any sequence of single-field updates, a field that none of them
/// targets keeps its value, and so does the render target.
pub proof fn lemma_patches_keep_untargeted_fields(prev: ContextView, us: Seq<Update>, f: ContextField)
    requires
        forall|i: int| 0 <= i < us.len() ==> is_patch(#[trigger] us[i]),
        forall|i: int| 0 <= i < us.len() ==> target_field(#[trigger] us[i]) != Some(f),
    ensures
        same_field(applied(prev, us), prev, f),
        applied(prev, us).target == prev.target,
    decreases us.len(),
{
    if us.len() > 0 {
        let rest = us.drop_last();
        assert forall|i: int| 0 <= i < rest.len() implies is_patch(#[trigger] rest[i])
            && target_field(rest[i]) != Some(f) by {
            assert(rest[i] == us[i]);
        }
        lemma_patches_keep_untargeted_fields(prev, rest, f);
        assert(us.last() == us[us.len() - 1]);
        lemma_patch_changes_only_its_field(applied(prev, rest), us.last(), f);
    }
}

/// Over any sequence of single-field updates, the last update that targets a
/// field decides that field's value in the result.
pub proof fn lemma_last_patch_wins(prev: ContextView, us: Seq<Update>, f: ContextField, j: int)
    requires
        forall|i: int| 0 <= i < us.len() ==> is_patch(#[trigger] us[i]),
        0 <= j < us.len(),
        target_field(us[j]) == Some(f),
        forall|i: int| j < i < us.len() ==> target_field(#[trigger] us[i]) != Some(f),
    ensures
        holds_patch(applied(prev, us), us[j]),
    decreases us.len(),
{
    let rest = us.drop_last();
    assert(us.last() == us[us.len() - 1]);
    if j == us.len() - 1 {
        lemma_patch_changes_only_its_field(applied(prev, rest), us.last(), f);
    } else {
        assert forall|i: int| 0 <= i < rest.len() implies is_patch(#[trigger] rest[i]) by {
            assert(rest[i] == us[i]);
        }
        assert forall|i: int| j < i < rest.len() implies target_field(#[trigger] rest[i]) != Some(f) by {
            assert(rest[i] == us[i]);
        }
        assert(rest[j] == us[j]);
        lemma_last_patch_wins(prev, rest, f, j);
        lemma_patch_changes_only_its_field(applied(prev, rest), us.last(), f);
    }
}

/// A whole-form replacement that supplies no field gives the fresh context,
/// whatever was held before.
pub proof fn lemma_empty_content_resets(prev: ContextView, all: Content)
    requires
        all.revenue is None,
        all.expenses is None,
        all.formula is None,
    ensures
        merged(prev, Update::AllContent(all)) == default_view(),
{
}

/// A whole-form replacement resets each field that it omits to its fresh
/// value rather than inheriting it, and clears the render target.
pub proof fn lemma_content_resets_omitted_fields(prev: ContextView, all: Content)
    ensures
        ({
            let next = merged(prev, Update::AllContent(all));
            &&& next.var1 == default_var1()
            &&& next.target is None
            &&& all.revenue matches Some(v) ==> next.revenue == v
            &&& all.revenue is None ==> next.revenue == 0
            &&& all.expenses matches Some(v) ==> next.expenses == v
            &&& all.expenses is None ==> next.expenses == 0
            &&& all.formula matches Some(f) ==> next.formula == f@
            &&& all.formula is None ==> next.formula == default_formula()
        }),
{
}

/// Evaluation depends on the bindings and the formula alone: evaluating
/// again against unchanged bindings gives the same result.
pub proof fn lemma_evaluation_repeatable(a: ContextView, b: ContextView)
    requires
        a.var1 == b.var1,
        a.revenue == b.revenue,
        a.expenses == b.expenses,
        a.formula == b.formula,
    ensures
        evaluation(a) == evaluation(b),
{
}

/// Rebinding the first variable's name makes the formula read the revenue
/// under the new name, and leaves the stored figures and formula as they were;
/// the evaluated field shows that outcome.
pub proof fn lemma_rebinding_moves_revenue_binding(prev: ContextView, name: String)
    ensures
        ({
            let next = merged(prev, Update::Var1(name));
            &&& next.revenue == prev.revenue
            &&& next.expenses == prev.expenses
            &&& next.formula == prev.formula
            &&& evaluation(next) == rhai_int_outcome(
                name@,
                prev.revenue,
                expenses_name(),
                prev.expenses,
                prev.formula,
                FORMULA_OPERATION_LIMIT,
            )
            &&& field_view(next, FieldKey::EvaluatedFormula) == Some(
                shown_outcome(
                    rhai_int_outcome(
                        name@,
                        prev.revenue,
                        expenses_name(),
                        prev.expenses,
                        prev.formula,
                        FORMULA_OPERATION_LIMIT,
                    ),
                ),
            )
        }),
{
}

/// Two single-field updates to different fields, applied one after the
/// other, are both kept, in either order and with the same result.
pub proof fn lemma_back_to_back_patches_both_kept(prev: ContextView, a: Update, b: Update)
    requires
        is_patch(a),
        is_patch(b),
        target_field(a) != target_field(b),
    ensures
        holds_patch(merged(merged(prev, a), b), a),
        holds_patch(merged(merged(prev, a), b), b),
        merged(merged(prev, a), b) == merged(merged(prev, b), a),
{
}

} // verus!
