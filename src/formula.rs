//! Evaluation of the context's formula over its two bound figures.
use vstd::prelude::*;

use crate::context::{ContextView, PageContext};

verus! {

/// Most script operations one evaluation may run before it is stopped.
pub const FORMULA_OPERATION_LIMIT: u64 = 100000;

/// What rhai's `Engine::eval_with_scope::<i64>` gives for `script` on a raw
/// engine limited to `max_operations` operations, with `first_name` bound to
/// `first` and then `second_name` bound to `second`: the integer value, or
/// the text of the error.
pub uninterp spec fn rhai_int_outcome(
    first_name: Seq<char>,
    first: i64,
    second_name: Seq<char>,
    second: i64,
    script: Seq<char>,
    max_operations: u64,
) -> Result<i64, Seq<char>>;

/// An evaluation result, its error text as characters.
pub open spec fn outcome_view(r: Result<i64, String>) -> Result<i64, Seq<char>> {
    match r {
        Ok(v) => Ok(v),
        Err(e) => Err(e@),
    }
}

/// Relies on rhai's `Engine::new_raw`, `Scope::push` and
/// `Engine::eval_with_scope`: a raw engine registers no module resolver, no
/// print or debug output and no packages (no clock), so its result depends
/// on the script and the bindings alone; with a non-zero operation limit the
/// evaluation ends.
#[verifier::external_body]
fn eval_int_script(
    first_name: &str,
    first: i64,
    second_name: &str,
    second: i64,
    script: &str,
    max_operations: u64,
) -> (r: Result<i64, String>)
    requires
        max_operations > 0,
    ensures
        outcome_view(r) == rhai_int_outcome(
            first_name@,
            first,
            second_name@,
            second,
            script@,
            max_operations,
        ),
{
    let mut engine = rhai::Engine::new_raw();
    engine.set_max_operations(max_operations);
    let mut scope = rhai::Scope::new();
    scope.push(first_name, first);
    scope.push(second_name, second);
    match engine.eval_with_scope::<i64>(&mut scope, script) {
        Ok(v) => Ok(v),
        Err(e) => Err(e.to_string()),
    }
}

/// The name under which the expenses are bound.
pub open spec fn expenses_name() -> Seq<char> {
    "expenses"@
}

/// What the formula of `c` evaluates to: the revenue is bound under the
/// context's `var1`, the expenses under `expenses`.
pub open spec fn evaluation(c: ContextView) -> Result<i64, Seq<char>> {
    rhai_int_outcome(
        c.var1,
        c.revenue,
        expenses_name(),
        c.expenses,
        c.formula,
        FORMULA_OPERATION_LIMIT,
    )
}

impl PageContext {
    /// Evaluates the formula in a fresh scope; a failure comes back as its
    /// text, for display in place of the value.
    pub fn evaluate(&self) -> (r: Result<i64, String>)
        ensures
            outcome_view(r) == evaluation(self@),
    {
        eval_int_script(
            self.var1.as_str(),
            self.revenue.0,
            "expenses",
            self.expenses.0,
            self.formula.0.as_str(),
            FORMULA_OPERATION_LIMIT,
        )
    }
}

} // verus!
