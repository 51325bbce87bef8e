//! Build-time synthesis of fact-term conversions.
//!
//! Given the declared shape of a data type — a record or a closed sum of
//! variants — this library classifies the shape, resolves each field's
//! declared type, and synthesizes an encoding plan: a named function term
//! over the fields in declared order, or a zero-argument atomic identifier.
//! A plan can then be applied to a runtime value of the declared shape,
//! yielding the structured term a logic-solving backend consumes.

pub mod ast;
pub mod names;
pub mod plan;
pub mod errors;
pub mod generate;
pub mod term;
pub mod convert;
pub mod laws;
