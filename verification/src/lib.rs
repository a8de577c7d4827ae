//! Builders and lowering functions for temporal expressions of a lazy
//! columnar query language.
//!
//! A caller fills a [`DatetimeArgs`] or a [`DurationArgs`] with one
//! sub-expression per unit and hands it to [`datetime`] or [`duration`],
//! which returns a single function-call node. Nothing is validated or
//! evaluated here: the node only records what the engine is asked to compute.
//! Every contract is stated over the mathematical views of the values
//! involved.
//!
//! Time zones are supported in every build, so the setters of the time zone
//! and of the ambiguity policy are always there.

pub mod datetime;
pub mod duration;
pub mod expr;
pub mod options;
pub mod policy;

pub use datetime::{datetime, datetime_node, DatetimeArgs, DatetimeArgsView};
pub use duration::{duration, duration_node, DurationArgs, DurationArgsView};
pub use expr::{
    col, int_lit, lit, lit_str, str_lit, Expr, ExprView, LiteralValue, LiteralView, TemporalFunction,
    TemporalFunctionView, TimeUnit, TimeZone,
};
pub use options::{ApplyOptions, FunctionFlag, FunctionFlags, FunctionOptions, FunctionOptionsView};
