//! The fields that the templates read from a context, by name.
use vstd::prelude::*;

use crate::context::{ContextView, PageContext};
use crate::formula::{evaluation, outcome_view};

verus! {

/// A field that the templates may ask a context for.
#[derive(Clone, Copy, Debug, PartialEq, Eq, Structural)]
pub enum FieldKey {
    /// A fresh identifier for scoping markup, new on every access.
    Id,
    Var1,
    Revenue,
    Expenses,
    /// Revenue minus expenses.
    Output,
    Formula,
    /// The formula's value, or the text of its failure.
    EvaluatedFormula,
}

/// The key that a field name stands for.
pub open spec fn key_of(name: Seq<char>) -> Option<FieldKey> {
    if name == "id"@ {
        Some(FieldKey::Id)
    } else if name == "var1"@ {
        Some(FieldKey::Var1)
    } else if name == "revenue"@ {
        Some(FieldKey::Revenue)
    } else if name == "expenses"@ {
        Some(FieldKey::Expenses)
    } else if name == "output"@ {
        Some(FieldKey::Output)
    } else if name == "formula"@ {
        Some(FieldKey::Formula)
    } else if name == "evaluated_formula"@ {
        Some(FieldKey::EvaluatedFormula)
    } else {
        None
    }
}

fn same_text(a: &str, b: &str) -> (r: bool)
    ensures
        r == (a@ == b@),
{
    a.to_owned() == b.to_owned()
}

impl FieldKey {
    /// The key named `name`, or `None` for a name that is no field.
    pub fn parse(name: &str) -> (r: Option<FieldKey>)
        ensures
            r == key_of(name@),
    {
        if same_text(name, "id") {
            Some(FieldKey::Id)
        } else if same_text(name, "var1") {
            Some(FieldKey::Var1)
        } else if same_text(name, "revenue") {
            Some(FieldKey::Revenue)
        } else if same_text(name, "expenses") {
            Some(FieldKey::Expenses)
        } else if same_text(name, "output") {
            Some(FieldKey::Output)
        } else if same_text(name, "formula") {
            Some(FieldKey::Formula)
        } else if same_text(name, "evaluated_formula") {
            Some(FieldKey::EvaluatedFormula)
        } else {
            None
        }
    }
}

/// A value handed to the templates.
pub enum FieldValue {
    Text(String),
    Number(i128),
}

/// Mathematical content of a [`FieldValue`].
pub ghost enum FieldValueView {
    Text(Seq<char>),
    Number(int),
}

impl View for FieldValue {
    type V = FieldValueView;

    open spec fn view(&self) -> FieldValueView {
        match self {
            FieldValue::Text(s) => FieldValueView::Text(s@),
            FieldValue::Number(n) => FieldValueView::Number(*n as int),
        }
    }
}

/// How an evaluation result is shown: its value, or its error text.
pub open spec fn shown_outcome(r: Result<i64, Seq<char>>) -> FieldValueView {
    match r {
        Ok(v) => FieldValueView::Number(v as int),
        Err(e) => FieldValueView::Text(e),
    }
}

/// Whether `s` can be one of the identifiers handed out for [`FieldKey::Id`]:
/// sixteen lower-case ASCII letters.
pub open spec fn is_scope_id(s: Seq<char>) -> bool {
    s.len() == 16 && forall|i: int| 0 <= i < s.len() ==> 'a' <= #[trigger] s[i] <= 'z'
}

/// What the field `key` of `c` holds; `None` for the identifier, which is
/// fresh on each access, and for the evaluated formula, see [`evaluation`].
pub open spec fn field_view(c: ContextView, key: FieldKey) -> Option<FieldValueView> {
    match key {
        FieldKey::Id => None,
        FieldKey::Var1 => Some(FieldValueView::Text(c.var1)),
        FieldKey::Revenue => Some(FieldValueView::Number(c.revenue as int)),
        FieldKey::Expenses => Some(FieldValueView::Number(c.expenses as int)),
        FieldKey::Output => Some(FieldValueView::Number(c.revenue - c.expenses)),
        FieldKey::Formula => Some(FieldValueView::Text(c.formula)),
        FieldKey::EvaluatedFormula => Some(shown_outcome(evaluation(c))),
    }
}

/// Relies on wurbo's `utils::rand_id`: nanoid's `format` with size 16 over
/// the alphabet `a` to `z`, which returns once sixteen letters of it are drawn.
#[verifier::external_body]
fn rand_id() -> (r: String)
    ensures
        is_scope_id(r@),
{
    wurbo::utils::rand_id()
}

/// Whether `r` is what a context `c` answers for the field `key`.
pub open spec fn answers(c: ContextView, key: Option<FieldKey>, r: Option<FieldValue>) -> bool {
    match key {
        None => r is None,
        Some(FieldKey::Id) => r matches Some(FieldValue::Text(s)) && is_scope_id(s@),
        Some(k) => r matches Some(v) && field_view(c, k) == Some(v@),
    }
}

impl FieldValue {
    /// Shows an evaluation result: its value, or its error text.
    pub fn from_outcome(r: Result<i64, String>) -> (v: FieldValue)
        ensures
            v@ == shown_outcome(outcome_view(r)),
    {
        match r {
            Ok(n) => FieldValue::Number(n as i128),
            Err(e) => FieldValue::Text(e),
        }
    }
}

impl PageContext {
    /// The field `key` of this context.
    pub fn field(&self, key: FieldKey) -> (r: FieldValue)
        ensures
            key == FieldKey::Id ==> (r matches FieldValue::Text(s) && is_scope_id(s@)),
            key != FieldKey::Id ==> field_view(self@, key) == Some(r@),
    {
        match key {
            FieldKey::Id => FieldValue::Text(rand_id()),
            FieldKey::Var1 => FieldValue::Text(self.var1.clone()),
            FieldKey::Revenue => FieldValue::Number(self.revenue.0 as i128),
            FieldKey::Expenses => FieldValue::Number(self.expenses.0 as i128),
            FieldKey::Output => FieldValue::Number(self.revenue.0 as i128 - self.expenses.0 as i128),
            FieldKey::Formula => FieldValue::Text(self.formula.0.clone()),
            FieldKey::EvaluatedFormula => FieldValue::from_outcome(self.evaluate()),
        }
    }

    /// The field named `key`, or `None` for a name that is no field. The
    /// formula is evaluated only when its value is asked for.
    pub fn get_value(&self, key: &str) -> (r: Option<FieldValue>)
        ensures
            answers(self@, key_of(key@), r),
    {
        match FieldKey::parse(key) {
            Some(k) => Some(self.field(k)),
            None => None,
        }
    }
}

} // verus!
