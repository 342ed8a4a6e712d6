//! A schema-bound runtime binding table for a boolean filter engine.
//!
//! A `Scheme` declares fields, each with a unique name, a stable index and a
//! declared `Type`. An `ExecutionContext` binds runtime values to those
//! fields: writes go by field name and are rejected unless the value's type
//! equals the field's declared type, and reads go by a pre-resolved `Field`
//! handle in constant time, so the expression evaluator never re-parses names
//! or re-checks types.

pub mod execution_context;
pub mod scheme;
pub mod types;

pub use execution_context::ExecutionContext;
pub use execution_context::FieldValueTypeMismatchError;
pub use scheme::Field;
pub use scheme::Scheme;
pub use types::LhsValue;
pub use types::Type;
