//! The arguments of a duration column and their lowering to one node.

use crate::expr::{
    int_lit, lit, Expr, ExprView, TemporalFunction, TemporalFunctionView, TimeUnit,
};
use crate::options::{
    ApplyOptions, FunctionFlag, FunctionFlags, FunctionOptions, FunctionOptionsView,
};
use vstd::prelude::*;

verus! {

/// The arguments from which [`duration`] builds a duration column: one
/// expression per unit and the storage resolution.
#[derive(Debug)]
pub struct DurationArgs {
    pub weeks: Expr,
    pub days: Expr,
    pub hours: Expr,
    pub minutes: Expr,
    pub seconds: Expr,
    pub milliseconds: Expr,
    pub microseconds: Expr,
    pub nanoseconds: Expr,
    pub time_unit: TimeUnit,
}

/// What a [`DurationArgs`] stands for.
pub struct DurationArgsView {
    pub weeks: ExprView,
    pub days: ExprView,
    pub hours: ExprView,
    pub minutes: ExprView,
    pub seconds: ExprView,
    pub milliseconds: ExprView,
    pub microseconds: ExprView,
    pub nanoseconds: ExprView,
    pub time_unit: TimeUnit,
}

impl View for DurationArgs {
    type V = DurationArgsView;

    open spec fn view(&self) -> DurationArgsView {
        DurationArgsView {
            weeks: self.weeks@,
            days: self.days@,
            hours: self.hours@,
            minutes: self.minutes@,
            seconds: self.seconds@,
            milliseconds: self.milliseconds@,
            microseconds: self.microseconds@,
            nanoseconds: self.nanoseconds@,
            time_unit: self.time_unit,
        }
    }
}

impl DurationArgsView {
    /// The empty duration: every unit is zero and the resolution is
    /// microseconds.
    pub open spec fn zero() -> DurationArgsView {
        DurationArgsView {
            weeks: int_lit(0),
            days: int_lit(0),
            hours: int_lit(0),
            minutes: int_lit(0),
            seconds: int_lit(0),
            milliseconds: int_lit(0),
            microseconds: int_lit(0),
            nanoseconds: int_lit(0),
            time_unit: TimeUnit::Microseconds,
        }
    }

    /// `self` with `weeks` replaced.
    pub open spec fn with_weeks(self, weeks: ExprView) -> DurationArgsView {
        DurationArgsView { weeks, ..self }
    }

    /// `self` with `days` replaced.
    pub open spec fn with_days(self, days: ExprView) -> DurationArgsView {
        DurationArgsView { days, ..self }
    }

    /// `self` with `hours` replaced.
    pub open spec fn with_hours(self, hours: ExprView) -> DurationArgsView {
        DurationArgsView { hours, ..self }
    }

    /// `self` with `minutes` replaced.
    pub open spec fn with_minutes(self, minutes: ExprView) -> DurationArgsView {
        DurationArgsView { minutes, ..self }
    }

    /// `self` with `seconds` replaced.
    pub open spec fn with_seconds(self, seconds: ExprView) -> DurationArgsView {
        DurationArgsView { seconds, ..self }
    }

    /// `self` with `milliseconds` replaced.
    pub open spec fn with_milliseconds(self, milliseconds: ExprView) -> DurationArgsView {
        DurationArgsView { milliseconds, ..self }
    }

    /// `self` with `microseconds` replaced.
    pub open spec fn with_microseconds(self, microseconds: ExprView) -> DurationArgsView {
        DurationArgsView { microseconds, ..self }
    }

    /// `self` with `nanoseconds` replaced.
    pub open spec fn with_nanoseconds(self, nanoseconds: ExprView) -> DurationArgsView {
        DurationArgsView { nanoseconds, ..self }
    }

    /// `self` with the hour, minute and second fields replaced.
    pub open spec fn with_hms(
        self,
        hours: ExprView,
        minutes: ExprView,
        seconds: ExprView,
    ) -> DurationArgsView {
        DurationArgsView { hours, minutes, seconds, ..self }
    }

    /// `self` with the three fields below a second replaced.
    pub open spec fn with_fractional_seconds(
        self,
        milliseconds: ExprView,
        microseconds: ExprView,
        nanoseconds: ExprView,
    ) -> DurationArgsView {
        DurationArgsView { milliseconds, microseconds, nanoseconds, ..self }
    }
}

/// The node that requests a duration column from `args`.
///
/// Its children are the eight units from the largest to the smallest; the
/// resolution travels in the function tag. The options say that the
/// function works row by row and that a wildcard input is expanded. The
/// output keeps its default name: renaming is not allowed. The label is
/// empty.
pub open spec fn duration_node(args: DurationArgsView) -> ExprView {
    ExprView::Function {
        input: seq![
            args.weeks,
            args.days,
            args.hours,
            args.minutes,
            args.seconds,
            args.milliseconds,
            args.microseconds,
            args.nanoseconds,
        ],
        function: TemporalFunctionView::Duration(args.time_unit),
        options: FunctionOptionsView {
            collect_groups: ApplyOptions::ElementWise,
            flags: set![FunctionFlag::InputWildcardExpansion],
            fmt_str: ""@,
        },
    }
}

impl Default for DurationArgs {
    /// The empty duration.
    fn default() -> (args: Self)
        ensures
            args@ == DurationArgsView::zero(),
    {
        DurationArgs {
            weeks: lit(0),
            days: lit(0),
            hours: lit(0),
            minutes: lit(0),
            seconds: lit(0),
            milliseconds: lit(0),
            microseconds: lit(0),
            nanoseconds: lit(0),
            time_unit: TimeUnit::Microseconds,
        }
    }
}

impl DurationArgs {
    /// The empty duration, as [`Default::default`] gives it.
    pub fn new() -> (args: Self)
        ensures
            args@ == DurationArgsView::zero(),
    {
        Self::default()
    }

    /// Replaces `hours`, `minutes` and `seconds` together.
    pub fn with_hms(self, hours: Expr, minutes: Expr, seconds: Expr) -> (args: Self)
        ensures
            args@ == self@.with_hms(hours@, minutes@, seconds@),
    {
        DurationArgs { hours, minutes, seconds, ..self }
    }

    /// Replaces `milliseconds`, `microseconds` and `nanoseconds` together.
    pub fn with_fractional_seconds(
        self,
        milliseconds: Expr,
        microseconds: Expr,
        nanoseconds: Expr,
    ) -> (args: Self)
        ensures
            args@ == self@.with_fractional_seconds(milliseconds@, microseconds@, nanoseconds@),
    {
        DurationArgs { milliseconds, microseconds, nanoseconds, ..self }
    }

    /// Replaces `weeks`.
    pub fn with_weeks(self, weeks: Expr) -> (args: Self)
        ensures
            args@ == self@.with_weeks(weeks@),
    {
        DurationArgs { weeks, ..self }
    }

    /// Replaces `days`.
    pub fn with_days(self, days: Expr) -> (args: Self)
        ensures
            args@ == self@.with_days(days@),
    {
        DurationArgs { days, ..self }
    }

    /// Replaces `hours`.
    pub fn with_hours(self, hours: Expr) -> (args: Self)
        ensures
            args@ == self@.with_hours(hours@),
    {
        DurationArgs { hours, ..self }
    }

    /// Replaces `minutes`.
    pub fn with_minutes(self, minutes: Expr) -> (args: Self)
        ensures
            args@ == self@.with_minutes(minutes@),
    {
        DurationArgs { minutes, ..self }
    }

    /// Replaces `seconds`.
    pub fn with_seconds(self, seconds: Expr) -> (args: Self)
        ensures
            args@ == self@.with_seconds(seconds@),
    {
        DurationArgs { seconds, ..self }
    }

    /// Replaces `milliseconds`.
    pub fn with_milliseconds(self, milliseconds: Expr) -> (args: Self)
        ensures
            args@ == self@.with_milliseconds(milliseconds@),
    {
        DurationArgs { milliseconds, ..self }
    }

    /// Replaces `microseconds`.
    pub fn with_microseconds(self, microseconds: Expr) -> (args: Self)
        ensures
            args@ == self@.with_microseconds(microseconds@),
    {
        DurationArgs { microseconds, ..self }
    }

    /// Replaces `nanoseconds`.
    pub fn with_nanoseconds(self, nanoseconds: Expr) -> (args: Self)
        ensures
            args@ == self@.with_nanoseconds(nanoseconds@),
    {
        DurationArgs { nanoseconds, ..self }
    }
}

impl Clone for DurationArgs {
    fn clone(&self) -> (copy: Self)
        ensures
            copy@ == self@,
    {
        DurationArgs {
            weeks: self.weeks.clone(),
            days: self.days.clone(),
            hours: self.hours.clone(),
            minutes: self.minutes.clone(),
            seconds: self.seconds.clone(),
            milliseconds: self.milliseconds.clone(),
            microseconds: self.microseconds.clone(),
            nanoseconds: self.nanoseconds.clone(),
            time_unit: self.time_unit,
        }
    }
}

/// Builds the node that requests a duration column from `args`.
pub fn duration(args: DurationArgs) -> (node: Expr)
    ensures
        node@ == duration_node(args@),
{
    let time_unit = args.time_unit;
    let input = vec![
        args.weeks,
        args.days,
        args.hours,
        args.minutes,
        args.seconds,
        args.milliseconds,
        args.microseconds,
        args.nanoseconds,
    ];
    let flags = FunctionFlags::empty().with(FunctionFlag::InputWildcardExpansion);
    let node = Expr::Function {
        input,
        function: TemporalFunction::Duration(time_unit),
        options: FunctionOptions { collect_groups: ApplyOptions::ElementWise, flags, fmt_str: "" },
    };
    assert(node@->input =~= duration_node(args@)->input);
    node
}

/// Replacing `hours`, `minutes` and `seconds` together gives what replacing them
/// one after the other gives.
pub proof fn lemma_with_hms_is_three_replacements(
    args: DurationArgsView,
    hours: ExprView,
    minutes: ExprView,
    seconds: ExprView,
)
    ensures
        args.with_hms(hours, minutes, seconds) == args.with_hours(hours).with_minutes(minutes).with_seconds(seconds),
{
}

/// Replacing `hours`, `minutes` and `seconds` together sets these three fields
/// and leaves every other field as it was.
pub proof fn lemma_with_hms_changes_three_fields(
    args: DurationArgsView,
    hours: ExprView,
    minutes: ExprView,
    seconds: ExprView,
)
    ensures
        args.with_hms(hours, minutes, seconds).hours == hours,
        args.with_hms(hours, minutes, seconds).minutes == minutes,
        args.with_hms(hours, minutes, seconds).seconds == seconds,
        args.with_hms(hours, minutes, seconds).weeks == args.weeks,
        args.with_hms(hours, minutes, seconds).days == args.days,
        args.with_hms(hours, minutes, seconds).milliseconds == args.milliseconds,
        args.with_hms(hours, minutes, seconds).microseconds == args.microseconds,
        args.with_hms(hours, minutes, seconds).nanoseconds == args.nanoseconds,
        args.with_hms(hours, minutes, seconds).time_unit == args.time_unit,
{
}

/// Replacing `milliseconds`, `microseconds` and `nanoseconds` together
/// gives what replacing them one after the other gives, and leaves every
/// other field as it was.
pub proof fn lemma_with_fractional_seconds_is_three_replacements(
    args: DurationArgsView,
    milliseconds: ExprView,
    microseconds: ExprView,
    nanoseconds: ExprView,
)
    ensures
        args.with_fractional_seconds(milliseconds, microseconds, nanoseconds)
            == args.with_milliseconds(milliseconds).with_microseconds(
            microseconds,
        ).with_nanoseconds(nanoseconds),
        args.with_fractional_seconds(milliseconds, microseconds, nanoseconds).weeks == args.weeks,
        args.with_fractional_seconds(milliseconds, microseconds, nanoseconds).days == args.days,
        args.with_fractional_seconds(milliseconds, microseconds, nanoseconds).hours == args.hours,
        args.with_fractional_seconds(milliseconds, microseconds, nanoseconds).minutes
            == args.minutes,
        args.with_fractional_seconds(milliseconds, microseconds, nanoseconds).seconds
            == args.seconds,
        args.with_fractional_seconds(milliseconds, microseconds, nanoseconds).time_unit
            == args.time_unit,
{
}

/// A field that is replaced twice holds the second value: the first leaves
/// no trace.
pub proof fn lemma_last_replacement_wins(args: DurationArgsView, first: ExprView, last: ExprView)
    ensures
        args.with_weeks(first).with_weeks(last) == args.with_weeks(last),
        args.with_days(first).with_days(last) == args.with_days(last),
        args.with_hours(first).with_hours(last) == args.with_hours(last),
        args.with_minutes(first).with_minutes(last) == args.with_minutes(last),
        args.with_seconds(first).with_seconds(last) == args.with_seconds(last),
        args.with_milliseconds(first).with_milliseconds(last) == args.with_milliseconds(last),
        args.with_microseconds(first).with_microseconds(last) == args.with_microseconds(last),
        args.with_nanoseconds(first).with_nanoseconds(last) == args.with_nanoseconds(last),
{
}

/// The node of a duration has eight children, in this order.
pub proof fn lemma_duration_children(args: DurationArgsView)
    ensures
        duration_node(args)->input.len() == 8,
        duration_node(args)->input[0] == args.weeks,
        duration_node(args)->input[1] == args.days,
        duration_node(args)->input[2] == args.hours,
        duration_node(args)->input[3] == args.minutes,
        duration_node(args)->input[4] == args.seconds,
        duration_node(args)->input[5] == args.milliseconds,
        duration_node(args)->input[6] == args.microseconds,
        duration_node(args)->input[7] == args.nanoseconds,
{
}

} // verus!
