//! A two-variable financial form: a stored context that takes whole or
//! single-field updates, and a user-editable formula evaluated over it.
pub mod context;
pub mod fields;
pub mod formula;
pub mod laws;
pub mod store;

pub use context::{Content, ContextField, ContextView, Expenses, Formula, PageContext, Revenue, Update, Var1};
pub use fields::{FieldKey, FieldValue};
pub use formula::FORMULA_OPERATION_LIMIT;
pub use store::StateStore;
