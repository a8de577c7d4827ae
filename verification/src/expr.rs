//! Expression nodes and their mathematical views.

use crate::options::{FunctionOptions, FunctionOptionsView};
use vstd::prelude::*;

verus! {

/// Resolution in which a temporal value is stored.
#[derive(Clone, Copy, Debug, PartialEq, Eq, Structural)]
pub enum TimeUnit {
    Milliseconds,
    Microseconds,
    Nanoseconds,
}

/// A time zone identifier. It is carried as text and never interpreted here.
pub type TimeZone = String;

/// The view of an optional time zone: its text, if there is one.
pub open spec fn time_zone_view(time_zone: Option<TimeZone>) -> Option<Seq<char>> {
    match time_zone {
        Some(name) => Some(name@),
        None => None,
    }
}

/// A constant value inside an expression.
#[derive(Debug, PartialEq, Eq)]
pub enum LiteralValue {
    Int(i64),
    String(String),
}

/// What a [`LiteralValue`] stands for.
pub enum LiteralView {
    Int(int),
    String(Seq<char>),
}

impl View for LiteralValue {
    type V = LiteralView;

    open spec fn view(&self) -> LiteralView {
        match self {
            LiteralValue::Int(n) => LiteralView::Int(*n as int),
            LiteralValue::String(s) => LiteralView::String(s@),
        }
    }
}

impl Clone for LiteralValue {
    fn clone(&self) -> (copy: Self)
        ensures
            copy@ == self@,
    {
        match self {
            LiteralValue::Int(n) => LiteralValue::Int(*n),
            LiteralValue::String(s) => LiteralValue::String(s.clone()),
        }
    }
}

/// The function that a function-call node applies, with its static
/// configuration.
#[derive(Debug, PartialEq, Eq)]
pub enum TemporalFunction {
    /// Builds a datetime from seven unit inputs and an ambiguity policy.
    DatetimeFunction { time_unit: TimeUnit, time_zone: Option<TimeZone> },
    /// Builds a duration from eight unit inputs.
    Duration(TimeUnit),
}

/// What a [`TemporalFunction`] stands for.
pub enum TemporalFunctionView {
    DatetimeFunction { time_unit: TimeUnit, time_zone: Option<Seq<char>> },
    Duration(TimeUnit),
}

impl View for TemporalFunction {
    type V = TemporalFunctionView;

    open spec fn view(&self) -> TemporalFunctionView {
        match self {
            TemporalFunction::DatetimeFunction { time_unit, time_zone } => {
                TemporalFunctionView::DatetimeFunction {
                    time_unit: *time_unit,
                    time_zone: time_zone_view(*time_zone),
                }
            },
            TemporalFunction::Duration(time_unit) => TemporalFunctionView::Duration(*time_unit),
        }
    }
}

/// A copy of an optional time zone.
pub fn clone_time_zone(time_zone: &Option<TimeZone>) -> (copy: Option<TimeZone>)
    ensures
        time_zone_view(copy) == time_zone_view(*time_zone),
{
    match time_zone {
        Some(name) => Some(name.clone()),
        None => None,
    }
}

impl Clone for TemporalFunction {
    fn clone(&self) -> (copy: Self)
        ensures
            copy@ == self@,
    {
        match self {
            TemporalFunction::DatetimeFunction { time_unit, time_zone } => {
                TemporalFunction::DatetimeFunction {
                    time_unit: *time_unit,
                    time_zone: clone_time_zone(time_zone),
                }
            },
            TemporalFunction::Duration(time_unit) => TemporalFunction::Duration(*time_unit),
        }
    }
}

/// A node of the expression tree.
#[derive(Debug, PartialEq, Eq)]
pub enum Expr {
    /// A reference to a column by name.
    Column(String),
    /// A constant.
    Literal(LiteralValue),
    /// A call of `function` on the children `input`, in order.
    Function { input: Vec<Expr>, function: TemporalFunction, options: FunctionOptions },
}

/// What an [`Expr`] stands for.
pub enum ExprView {
    Column(Seq<char>),
    Literal(LiteralView),
    Function { input: Seq<ExprView>, function: TemporalFunctionView, options: FunctionOptionsView },
}

impl View for Expr {
    type V = ExprView;

    open spec fn view(&self) -> ExprView
        decreases self,
    {
        match self {
            Expr::Column(name) => ExprView::Column(name@),
            Expr::Literal(value) => ExprView::Literal(value@),
            Expr::Function { input, function, options } => ExprView::Function {
                input: Seq::new(
                    input@.len(),
                    |i: int|
                        if 0 <= i < input@.len() {
                            input@[i].view()
                        } else {
                            arbitrary()
                        },
                ),
                function: function@,
                options: options@,
            },
        }
    }
}

/// The view of a function-call node, field by field: the children's views
/// in the children's order, the tag's view and the options' view. A caller
/// that takes a node apart learns from this what its contract, stated over
/// the view, says of each part.
pub proof fn lemma_function_view(e: Expr)
    requires
        e is Function,
    ensures
        e@ is Function,
        e@->input.len() == e->input@.len(),
        forall|i: int| 0 <= i < e->input@.len() ==> e@->input[i] == (#[trigger] e->input@[i])@,
        e@->function == e->function@,
        e@->options == e->options@,
{
    reveal_with_fuel(<Expr as View>::view, 2);
}

impl Clone for Expr {
    fn clone(&self) -> (copy: Self)
        ensures
            copy@ == self@,
        decreases self,
    {
        match self {
            Expr::Column(name) => Expr::Column(name.clone()),
            Expr::Literal(value) => Expr::Literal(value.clone()),
            Expr::Function { input, function, options } => {
                let mut children: Vec<Expr> = Vec::new();
                let mut i: usize = 0;
                while i < input.len()
                    invariant
                        self is Function,
                        self->input == *input,
                        i <= input.len(),
                        children.len() == i,
                        forall|j: int| 0 <= j < i ==> children@[j]@ == input@[j]@,
                    decreases input.len() - i,
                {
                    let child = input[i].clone();
                    children.push(child);
                    i += 1;
                }
                let copy = Expr::Function {
                    input: children,
                    function: function.clone(),
                    options: *options,
                };
                assert(copy@->input =~= self@->input);
                copy
            },
        }
    }
}

/// The view of the literal expression that holds the integer `value`.
pub open spec fn int_lit(value: int) -> ExprView {
    ExprView::Literal(LiteralView::Int(value))
}

/// The view of the literal expression that holds the text `value`.
pub open spec fn str_lit(value: Seq<char>) -> ExprView {
    ExprView::Literal(LiteralView::String(value))
}

/// The literal expression holding the integer `value`.
pub fn lit(value: i64) -> (e: Expr)
    ensures
        e@ == int_lit(value as int),
{
    Expr::Literal(LiteralValue::Int(value))
}

/// The literal expression holding the text `value`.
pub fn lit_str(value: &str) -> (e: Expr)
    ensures
        e@ == str_lit(value@),
{
    Expr::Literal(LiteralValue::String(value.to_string()))
}

/// The expression that refers to the column called `name`.
pub fn col(name: &str) -> (e: Expr)
    ensures
        e@ == ExprView::Column(name@),
{
    Expr::Column(name.to_string())
}

} // verus!
