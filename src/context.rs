//! The form's context and the merge of an update into it.
use vstd::prelude::*;

verus! {

/// Name under which the revenue is bound in a fresh context.
pub open spec fn default_var1() -> Seq<char> {
    "revenue"@
}

/// Formula of a fresh context.
pub open spec fn default_formula() -> Seq<char> {
    "revenue - expenses"@
}

/// Name of the variable in the formula that reads the first operand.
pub struct Var1(pub String);

/// The revenue figure of the form.
#[derive(Clone, Copy, Debug)]
pub struct Revenue(pub i64);

/// The expenses figure of the form.
#[derive(Clone, Copy, Debug)]
pub struct Expenses(pub i64);

impl core::ops::Deref for Revenue {
    type Target = i64;

    fn deref(&self) -> (r: &i64)
        ensures
            *r == self.0,
    {
        &self.0
    }
}

impl core::ops::Deref for Expenses {
    type Target = i64;

    fn deref(&self) -> (r: &i64)
        ensures
            *r == self.0,
    {
        &self.0
    }
}

/// Formula text, evaluated over the bound variables.
pub struct Formula(pub String);

impl Default for Formula {
    fn default() -> (r: Formula)
        ensures
            r.0@ == default_formula(),
    {
        Formula("revenue - expenses".to_owned())
    }
}

impl core::ops::Deref for Formula {
    type Target = String;

    fn deref(&self) -> (r: &String)
        ensures
            r@ == self.0@,
    {
        &self.0
    }
}

/// Mathematical content of a [`PageContext`].
pub ghost struct ContextView {
    pub var1: Seq<char>,
    pub revenue: i64,
    pub expenses: i64,
    pub formula: Seq<char>,
    pub target: Option<Seq<char>>,
}

/// The complete state of the form.
pub struct PageContext {
    pub var1: String,
    pub revenue: Revenue,
    pub expenses: Expenses,
    pub formula: Formula,
    /// Template slot to render; `None` selects the page itself.
    pub target: Option<String>,
}

pub open spec fn option_text_view(o: Option<String>) -> Option<Seq<char>> {
    match o {
        Some(s) => Some(s@),
        None => None,
    }
}

impl View for PageContext {
    type V = ContextView;

    open spec fn view(&self) -> ContextView {
        ContextView {
            var1: self.var1@,
            revenue: self.revenue.0,
            expenses: self.expenses.0,
            formula: self.formula.0@,
            target: option_text_view(self.target),
        }
    }
}

/// The context of a fresh form.
pub open spec fn default_view() -> ContextView {
    ContextView {
        var1: default_var1(),
        revenue: 0,
        expenses: 0,
        formula: default_formula(),
        target: None,
    }
}

fn clone_text(s: &String) -> (r: String)
    ensures
        r@ == s@,
{
    s.clone()
}

fn clone_option_text(o: &Option<String>) -> (r: Option<String>)
    ensures
        option_text_view(r) == option_text_view(*o),
{
    match o {
        Some(s) => Some(clone_text(s)),
        None => None,
    }
}

impl Clone for PageContext {
    fn clone(&self) -> (r: PageContext)
        ensures
            r@ == self@,
    {
        PageContext {
            var1: clone_text(&self.var1),
            revenue: self.revenue,
            expenses: self.expenses,
            formula: Formula(clone_text(&self.formula.0)),
            target: clone_option_text(&self.target),
        }
    }
}

impl Default for PageContext {
    fn default() -> (r: PageContext)
        ensures
            r@ == default_view(),
    {
        PageContext {
            var1: "revenue".to_owned(),
            revenue: Revenue(0),
            expenses: Expenses(0),
            formula: Formula::default(),
            target: None,
        }
    }
}

/// Whole-form replacement: each omitted field takes its fresh value.
pub struct Content {
    pub revenue: Option<i64>,
    pub expenses: Option<i64>,
    pub formula: Option<String>,
}

/// One incoming change to the form.
pub enum Update {
    /// Replaces the whole context; omitted fields are reset, not inherited.
    AllContent(Content),
    /// Rebinds the name under which the formula reads the revenue.
    Var1(String),
    Revenue(i64),
    Expenses(i64),
    Formula(String),
}

/// The fields of a context that a single-field update can target.
pub enum ContextField {
    Var1,
    Revenue,
    Expenses,
    Formula,
}

/// The context that a whole-form replacement builds.
pub open spec fn content_view(all: Content) -> ContextView {
    ContextView {
        var1: default_var1(),
        revenue: match all.revenue {
            Some(v) => v,
            None => 0,
        },
        expenses: match all.expenses {
            Some(v) => v,
            None => 0,
        },
        formula: match all.formula {
            Some(f) => f@,
            None => default_formula(),
        },
        target: None,
    }
}

/// The context that results from applying `u` to `prev`.
pub open spec fn merged(prev: ContextView, u: Update) -> ContextView {
    match u {
        Update::AllContent(all) => content_view(all),
        Update::Var1(name) => ContextView { var1: name@, ..prev },
        Update::Revenue(v) => ContextView { revenue: v, ..prev },
        Update::Expenses(v) => ContextView { expenses: v, ..prev },
        Update::Formula(f) => ContextView { formula: f@, ..prev },
    }
}

/// The field that a single-field update targets; `None` for a whole-form replacement.
pub open spec fn target_field(u: Update) -> Option<ContextField> {
    match u {
        Update::AllContent(_) => None,
        Update::Var1(_) => Some(ContextField::Var1),
        Update::Revenue(_) => Some(ContextField::Revenue),
        Update::Expenses(_) => Some(ContextField::Expenses),
        Update::Formula(_) => Some(ContextField::Formula),
    }
}

/// Whether `a` and `b` hold the same value in field `f`.
pub open spec fn same_field(a: ContextView, b: ContextView, f: ContextField) -> bool {
    match f {
        ContextField::Var1 => a.var1 == b.var1,
        ContextField::Revenue => a.revenue == b.revenue,
        ContextField::Expenses => a.expenses == b.expenses,
        ContextField::Formula => a.formula == b.formula,
    }
}

impl PageContext {
    /// Builds a context from a whole-form replacement.
    pub fn from_content(all: &Content) -> (r: PageContext)
        ensures
            r@ == content_view(*all),
    {
        let revenue = match all.revenue {
            Some(v) => v,
            None => 0,
        };
        let expenses = match all.expenses {
            Some(v) => v,
            None => 0,
        };
        let formula = match &all.formula {
            Some(f) => Formula(clone_text(f)),
            None => Formula::default(),
        };
        PageContext {
            var1: "revenue".to_owned(),
            revenue: Revenue(revenue),
            expenses: Expenses(expenses),
            formula,
            target: None,
        }
    }

    /// Rebinds the name under which the formula reads the revenue.
    pub fn with_var1(self, var1: Var1) -> (r: PageContext)
        ensures
            r@ == (ContextView { var1: var1.0@, ..self@ }),
    {
        let mut last = self;
        last.var1 = var1.0;
        last
    }

    pub fn with_revenue(self, rev: Revenue) -> (r: PageContext)
        ensures
            r@ == (ContextView { revenue: rev.0, ..self@ }),
    {
        let mut last = self;
        last.revenue = rev;
        last
    }

    pub fn with_expenses(self, exp: Expenses) -> (r: PageContext)
        ensures
            r@ == (ContextView { expenses: exp.0, ..self@ }),
    {
        let mut last = self;
        last.expenses = exp;
        last
    }

    pub fn with_formula(self, form: Formula) -> (r: PageContext)
        ensures
            r@ == (ContextView { formula: form.0@, ..self@ }),
    {
        let mut last = self;
        last.formula = form;
        last
    }

    /// The template slot to render; `None` selects the page itself.
    pub fn render_target(&self) -> (r: Option<String>)
        ensures
            option_text_view(r) == self@.target,
    {
        clone_option_text(&self.target)
    }

    /// Merges `update` into `last`: a whole-form replacement builds a new
    /// context from what it supplies alone; a single-field update replaces
    /// that field of `last` and keeps all the others, the render target too.
    pub fn from_update(last: PageContext, update: &Update) -> (r: PageContext)
        ensures
            r@ == merged(last@, *update),
    {
        match update {
            Update::AllContent(all) => PageContext::from_content(all),
            Update::Var1(var1) => last.with_var1(Var1(clone_text(var1))),
            Update::Revenue(rev) => last.with_revenue(Revenue(*rev)),
            Update::Expenses(exp) => last.with_expenses(Expenses(*exp)),
            Update::Formula(form) => last.with_formula(Formula(clone_text(form))),
        }
    }
}

} // verus!
