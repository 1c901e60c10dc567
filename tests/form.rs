use formula_form::{
    Content, Expenses, FieldKey, FieldValue, Formula, PageContext, Revenue, StateStore, Update,
    Var1,
};

fn number(v: Option<FieldValue>) -> i128 {
    match v {
        Some(FieldValue::Number(n)) => n,
        _ => panic!("expected a number"),
    }
}

fn text(v: Option<FieldValue>) -> String {
    match v {
        Some(FieldValue::Text(s)) => s,
        _ => panic!("expected a text"),
    }
}

fn full(revenue: Option<i64>, expenses: Option<i64>, formula: Option<&str>) -> Update {
    Update::AllContent(Content {
        revenue,
        expenses,
        formula: formula.map(|f| f.to_string()),
    })
}

#[test]
fn fresh_store_reads_default_context() {
    let store = StateStore::new();
    let c = store.read();
    assert_eq!(c.var1, "revenue");
    assert_eq!(c.revenue.0, 0);
    assert_eq!(c.expenses.0, 0);
    assert_eq!(c.formula.0, "revenue - expenses");
    assert_eq!(c.render_target(), None);
}

#[test]
fn default_formula_text() {
    let f = Formula::default();
    assert_eq!(f.0, "revenue - expenses");
    assert_eq!(f.len(), 18);
}

#[test]
fn single_field_updates_change_only_their_field() {
    let mut store = StateStore::new();
    store.apply(&full(Some(7), Some(2), Some("revenue * expenses")));
    let mut c = store.read();
    c.target = Some("output.html".to_string());
    store.write(c);

    let c = store.apply(&Update::Revenue(11));
    assert_eq!(c.revenue.0, 11);
    assert_eq!(c.expenses.0, 2);
    assert_eq!(c.formula.0, "revenue * expenses");
    assert_eq!(c.var1, "revenue");
    assert_eq!(c.render_target(), Some("output.html".to_string()));

    let c = store.apply(&Update::Formula("revenue + expenses".to_string()));
    assert_eq!(c.revenue.0, 11);
    assert_eq!(c.expenses.0, 2);
    assert_eq!(c.formula.0, "revenue + expenses");
    assert_eq!(c.render_target(), Some("output.html".to_string()));

    let c = store.apply(&Update::Var1("income".to_string()));
    assert_eq!(c.var1, "income");
    assert_eq!(c.revenue.0, 11);
    assert_eq!(c.expenses.0, 2);
    assert_eq!(c.formula.0, "revenue + expenses");

    let c = store.apply(&Update::Expenses(-3));
    assert_eq!(c.expenses.0, -3);
    assert_eq!(c.revenue.0, 11);
    assert_eq!(c.var1, "income");
    assert_eq!(c.render_target(), Some("output.html".to_string()));
    assert_eq!(store.read().expenses.0, -3);
}

#[test]
fn empty_full_content_resets_to_default() {
    let mut store = StateStore::new();
    store.apply(&Update::Revenue(50));
    store.apply(&Update::Expenses(20));
    store.apply(&Update::Var1("x".to_string()));
    store.apply(&Update::Formula("x * 2".to_string()));
    let c = store.apply(&full(None, None, None));
    assert_eq!(c.revenue.0, 0);
    assert_eq!(c.expenses.0, 0);
    assert_eq!(c.formula.0, "revenue - expenses");
    assert_eq!(c.var1, "revenue");
    assert_eq!(c.render_target(), None);
}

#[test]
fn full_content_with_revenue_only_does_not_inherit() {
    let mut store = StateStore::new();
    store.apply(&Update::Expenses(20));
    store.apply(&Update::Formula("revenue * 3".to_string()));
    let c = store.apply(&full(Some(9), None, None));
    assert_eq!(c.revenue.0, 9);
    assert_eq!(c.expenses.0, 0);
    assert_eq!(c.formula.0, "revenue - expenses");
    assert_eq!(store.read().expenses.0, 0);
}

#[test]
fn full_content_clears_render_target() {
    let mut store = StateStore::new();
    let mut c = store.read();
    c.target = Some("input.html".to_string());
    store.write(c);
    let c = store.apply(&full(Some(1), Some(2), Some("revenue")));
    assert_eq!(c.render_target(), None);
    assert_eq!(c.formula.0, "revenue");
}

#[test]
fn default_formula_evaluates_to_difference() {
    let mut store = StateStore::new();
    let c = store.apply(&full(Some(10), Some(4), None));
    assert_eq!(c.evaluate(), Ok(6));
    assert_eq!(number(c.get_value("evaluated_formula")), 6);
    assert_eq!(number(c.get_value("output")), 6);
}

#[test]
fn formula_is_evaluated_not_echoed() {
    let mut store = StateStore::new();
    let c = store.apply(&full(Some(10), Some(4), Some("revenue * 2 + (expenses - 1) / 3")));
    assert_eq!(c.evaluate(), Ok(21));
}

#[test]
fn unbound_variable_gives_error_text() {
    let mut store = StateStore::new();
    let c = store.apply(&full(Some(10), Some(4), Some("revenue - profit")));
    let shown = text(c.get_value("evaluated_formula"));
    assert!(!shown.is_empty());
    assert!(shown.contains("profit"));
    assert!(c.evaluate().is_err());
    assert_eq!(number(c.get_value("revenue")), 10);
    assert_eq!(number(c.get_value("expenses")), 4);
    assert_eq!(text(c.get_value("formula")), "revenue - profit");
}

#[test]
fn evaluation_is_repeatable() {
    let mut store = StateStore::new();
    let c = store.apply(&full(Some(12), Some(5), Some("revenue * expenses - 1")));
    let first = c.evaluate();
    let second = c.evaluate();
    assert_eq!(first, Ok(59));
    assert_eq!(first, second);
    let broken = store.apply(&Update::Formula("revenue +".to_string()));
    assert_eq!(broken.evaluate(), broken.evaluate());
    assert!(broken.evaluate().is_err());
}

#[test]
fn rebinding_changes_formula_binding_only() {
    let mut store = StateStore::new();
    store.apply(&full(Some(10), Some(4), None));
    let c = store.apply(&Update::Var1("income".to_string()));
    assert_eq!(c.revenue.0, 10);
    assert_eq!(c.expenses.0, 4);
    assert!(c.evaluate().is_err());
    let c = store.apply(&Update::Formula("income - expenses".to_string()));
    assert_eq!(c.evaluate(), Ok(6));
    assert_eq!(text(c.get_value("var1")), "income");
    assert_eq!(number(c.get_value("revenue")), 10);
}

#[test]
fn back_to_back_updates_are_both_kept() {
    let mut store = StateStore::new();
    store.apply(&Update::Revenue(100));
    store.apply(&Update::Expenses(30));
    let c = store.read();
    assert_eq!(c.revenue.0, 100);
    assert_eq!(c.expenses.0, 30);
    assert_eq!(c.evaluate(), Ok(70));
}

#[test]
fn unknown_field_is_none() {
    let c = PageContext::default();
    assert!(c.get_value("profit").is_none());
    assert!(c.get_value("").is_none());
    assert!(c.get_value("Revenue").is_none());
}

#[test]
fn id_field_is_sixteen_letters() {
    let c = PageContext::default();
    let id = text(c.get_value("id"));
    assert_eq!(id.len(), 16);
    assert!(id.chars().all(|ch| ch.is_ascii_lowercase()));
}

#[test]
fn field_keys_parse() {
    assert_eq!(FieldKey::parse("id"), Some(FieldKey::Id));
    assert_eq!(FieldKey::parse("var1"), Some(FieldKey::Var1));
    assert_eq!(FieldKey::parse("revenue"), Some(FieldKey::Revenue));
    assert_eq!(FieldKey::parse("expenses"), Some(FieldKey::Expenses));
    assert_eq!(FieldKey::parse("output"), Some(FieldKey::Output));
    assert_eq!(FieldKey::parse("formula"), Some(FieldKey::Formula));
    assert_eq!(FieldKey::parse("evaluated_formula"), Some(FieldKey::EvaluatedFormula));
    assert_eq!(FieldKey::parse("evaluated"), None);
}

#[test]
fn output_does_not_overflow() {
    let mut store = StateStore::new();
    let c = store.apply(&full(Some(i64::MAX), Some(i64::MIN), None));
    assert_eq!(number(c.get_value("output")), i64::MAX as i128 - i64::MIN as i128);
    assert!(c.evaluate().is_err());
}

#[test]
fn failing_arithmetic_is_error_text() {
    let mut store = StateStore::new();
    let c = store.apply(&full(Some(10), Some(0), Some("revenue / expenses")));
    assert!(c.evaluate().is_err());
    let c = store.apply(&Update::Formula("1.5".to_string()));
    assert!(c.evaluate().is_err());
}

#[test]
fn endless_formula_is_stopped() {
    let mut store = StateStore::new();
    let c = store.apply(&full(Some(1), Some(1), Some("loop { }")));
    assert!(c.evaluate().is_err());
}

#[test]
fn outcome_is_shown_as_value_or_text() {
    match FieldValue::from_outcome(Ok(-5)) {
        FieldValue::Number(n) => assert_eq!(n, -5),
        _ => panic!("expected a number"),
    }
    match FieldValue::from_outcome(Err("bad".to_string())) {
        FieldValue::Text(s) => assert_eq!(s, "bad"),
        _ => panic!("expected a text"),
    }
}

#[test]
fn builders_set_one_field() {
    let c = PageContext::default()
        .with_revenue(Revenue(3))
        .with_expenses(Expenses(1))
        .with_var1(Var1("r".to_string()))
        .with_formula(Formula("r - expenses".to_string()));
    assert_eq!(*c.revenue, 3);
    assert_eq!(*c.expenses, 1);
    assert_eq!(c.var1, "r");
    assert_eq!(c.evaluate(), Ok(2));
    let d = c.clone();
    assert_eq!(d.var1, "r");
    assert_eq!(d.formula.0, "r - expenses");
}

#[test]
fn last_update_to_a_field_wins() {
    let mut store = StateStore::new();
    store.apply(&Update::Revenue(1));
    store.apply(&Update::Expenses(2));
    store.apply(&Update::Revenue(3));
    store.apply(&Update::Formula("revenue".to_string()));
    store.apply(&Update::Revenue(5));
    store.apply(&Update::Formula("revenue + expenses".to_string()));
    let c = store.read();
    assert_eq!(*c.revenue, 5);
    assert_eq!(*c.expenses, 2);
    assert_eq!(*c.formula, "revenue + expenses");
    assert_eq!(c.var1, "revenue");
    assert_eq!(c.evaluate(), Ok(7));
}
