//! The arguments of a datetime column and their lowering to one node.

use crate::expr::{
    clone_time_zone, int_lit, lit, lit_str, str_lit, time_zone_view, Expr, ExprView,
    TemporalFunction, TemporalFunctionView, TimeUnit, TimeZone,
};
use crate::options::{
    ApplyOptions, FunctionFlag, FunctionFlags, FunctionOptions, FunctionOptionsView,
};
use vstd::prelude::*;

verus! {

/// The arguments from which [`datetime`] builds a datetime column: one
/// expression per unit, the storage resolution, an optional time zone, and
/// the expression that says how an ambiguous local time is resolved.
///
/// `ambiguous` is a text expression that the engine reads row by row as
/// one of `raise`, `earliest`, `latest` and `null`. It is carried
/// unevaluated.
#[derive(Debug)]
pub struct DatetimeArgs {
    pub year: Expr,
    pub month: Expr,
    pub day: Expr,
    pub hour: Expr,
    pub minute: Expr,
    pub second: Expr,
    pub microsecond: Expr,
    pub time_unit: TimeUnit,
    pub time_zone: Option<TimeZone>,
    pub ambiguous: Expr,
}

/// What a [`DatetimeArgs`] stands for.
pub struct DatetimeArgsView {
    pub year: ExprView,
    pub month: ExprView,
    pub day: ExprView,
    pub hour: ExprView,
    pub minute: ExprView,
    pub second: ExprView,
    pub microsecond: ExprView,
    pub time_unit: TimeUnit,
    pub time_zone: Option<Seq<char>>,
    pub ambiguous: ExprView,
}

impl View for DatetimeArgs {
    type V = DatetimeArgsView;

    open spec fn view(&self) -> DatetimeArgsView {
        DatetimeArgsView {
            year: self.year@,
            month: self.month@,
            day: self.day@,
            hour: self.hour@,
            minute: self.minute@,
            second: self.second@,
            microsecond: self.microsecond@,
            time_unit: self.time_unit,
            time_zone: time_zone_view(self.time_zone),
            ambiguous: self.ambiguous@,
        }
    }
}

impl DatetimeArgsView {
    /// The arguments for the date `year`-`month`-`day` with every other
    /// field at its default: the time of day is zero, the resolution is
    /// microseconds, there is no time zone, and an ambiguous time raises.
    pub open spec fn on_date(year: ExprView, month: ExprView, day: ExprView) -> DatetimeArgsView {
        DatetimeArgsView {
            year,
            month,
            day,
            hour: int_lit(0),
            minute: int_lit(0),
            second: int_lit(0),
            microsecond: int_lit(0),
            time_unit: TimeUnit::Microseconds,
            time_zone: None,
            ambiguous: str_lit("raise"@),
        }
    }

    /// `self` with `year` replaced.
    pub open spec fn with_year(self, year: ExprView) -> DatetimeArgsView {
        DatetimeArgsView { year, ..self }
    }

    /// `self` with `month` replaced.
    pub open spec fn with_month(self, month: ExprView) -> DatetimeArgsView {
        DatetimeArgsView { month, ..self }
    }

    /// `self` with `day` replaced.
    pub open spec fn with_day(self, day: ExprView) -> DatetimeArgsView {
        DatetimeArgsView { day, ..self }
    }

    /// `self` with `hour` replaced.
    pub open spec fn with_hour(self, hour: ExprView) -> DatetimeArgsView {
        DatetimeArgsView { hour, ..self }
    }

    /// `self` with `minute` replaced.
    pub open spec fn with_minute(self, minute: ExprView) -> DatetimeArgsView {
        DatetimeArgsView { minute, ..self }
    }

    /// `self` with `second` replaced.
    pub open spec fn with_second(self, second: ExprView) -> DatetimeArgsView {
        DatetimeArgsView { second, ..self }
    }

    /// `self` with `microsecond` replaced.
    pub open spec fn with_microsecond(self, microsecond: ExprView) -> DatetimeArgsView {
        DatetimeArgsView { microsecond, ..self }
    }

    /// `self` with the hour, minute and second fields replaced.
    pub open spec fn with_hms(
        self,
        hour: ExprView,
        minute: ExprView,
        second: ExprView,
    ) -> DatetimeArgsView {
        DatetimeArgsView { hour, minute, second, ..self }
    }

    /// `self` with `time_unit` replaced.
    pub open spec fn with_time_unit(self, time_unit: TimeUnit) -> DatetimeArgsView {
        DatetimeArgsView { time_unit, ..self }
    }

    /// `self` with `time_zone` replaced.
    pub open spec fn with_time_zone(self, time_zone: Option<Seq<char>>) -> DatetimeArgsView {
        DatetimeArgsView { time_zone, ..self }
    }

    /// `self` with `ambiguous` replaced.
    pub open spec fn with_ambiguous(self, ambiguous: ExprView) -> DatetimeArgsView {
        DatetimeArgsView { ambiguous, ..self }
    }
}

/// The node that requests a datetime column from `args`.
///
/// Its children are the seven units from the largest to the smallest,
/// followed by the ambiguity policy; the engine reads them by position. The
/// resolution and the time zone travel in the function tag. The options say
/// that the function works row by row, that a wildcard input is expanded,
/// and that the output may be renamed.
pub open spec fn datetime_node(args: DatetimeArgsView) -> ExprView {
    ExprView::Function {
        input: seq![
            args.year,
            args.month,
            args.day,
            args.hour,
            args.minute,
            args.second,
            args.microsecond,
            args.ambiguous,
        ],
        function: TemporalFunctionView::DatetimeFunction {
            time_unit: args.time_unit,
            time_zone: args.time_zone,
        },
        options: FunctionOptionsView {
            collect_groups: ApplyOptions::ElementWise,
            flags: set![FunctionFlag::InputWildcardExpansion, FunctionFlag::AllowRename],
            fmt_str: "datetime"@,
        },
    }
}

impl Default for DatetimeArgs {
    /// The arguments in which no field has been set: every unit is zero,
    /// the date included, and the other fields are at their defaults.
    fn default() -> (args: Self)
        ensures
            args@ == DatetimeArgsView::on_date(int_lit(0), int_lit(0), int_lit(0)),
    {
        DatetimeArgs {
            year: lit(0),
            month: lit(0),
            day: lit(0),
            hour: lit(0),
            minute: lit(0),
            second: lit(0),
            microsecond: lit(0),
            time_unit: TimeUnit::Microseconds,
            time_zone: None,
            ambiguous: lit_str("raise"),
        }
    }
}

impl DatetimeArgs {
    /// The arguments for the date `year`-`month`-`day`, with every other
    /// field at its default.
    pub fn new(year: Expr, month: Expr, day: Expr) -> (args: Self)
        ensures
            args@ == DatetimeArgsView::on_date(year@, month@, day@),
    {
        DatetimeArgs { year, month, day, ..Self::default() }
    }

    /// Replaces `hour`, `minute` and `second` together.
    pub fn with_hms(self, hour: Expr, minute: Expr, second: Expr) -> (args: Self)
        ensures
            args@ == self@.with_hms(hour@, minute@, second@),
    {
        DatetimeArgs { hour, minute, second, ..self }
    }

    /// Replaces `year`.
    pub fn with_year(self, year: Expr) -> (args: Self)
        ensures
            args@ == self@.with_year(year@),
    {
        DatetimeArgs { year, ..self }
    }

    /// Replaces `month`.
    pub fn with_month(self, month: Expr) -> (args: Self)
        ensures
            args@ == self@.with_month(month@),
    {
        DatetimeArgs { month, ..self }
    }

    /// Replaces `day`.
    pub fn with_day(self, day: Expr) -> (args: Self)
        ensures
            args@ == self@.with_day(day@),
    {
        DatetimeArgs { day, ..self }
    }

    /// Replaces `hour`.
    pub fn with_hour(self, hour: Expr) -> (args: Self)
        ensures
            args@ == self@.with_hour(hour@),
    {
        DatetimeArgs { hour, ..self }
    }

    /// Replaces `minute`.
    pub fn with_minute(self, minute: Expr) -> (args: Self)
        ensures
            args@ == self@.with_minute(minute@),
    {
        DatetimeArgs { minute, ..self }
    }

    /// Replaces `second`.
    pub fn with_second(self, second: Expr) -> (args: Self)
        ensures
            args@ == self@.with_second(second@),
    {
        DatetimeArgs { second, ..self }
    }

    /// Replaces `microsecond`.
    pub fn with_microsecond(self, microsecond: Expr) -> (args: Self)
        ensures
            args@ == self@.with_microsecond(microsecond@),
    {
        DatetimeArgs { microsecond, ..self }
    }

    /// Replaces the resolution.
    pub fn with_time_unit(self, time_unit: TimeUnit) -> (args: Self)
        ensures
            args@ == self@.with_time_unit(time_unit),
    {
        DatetimeArgs { time_unit, ..self }
    }

    /// Replaces the time zone; `None` removes it.
    pub fn with_time_zone(self, time_zone: Option<TimeZone>) -> (args: Self)
        ensures
            args@ == self@.with_time_zone(time_zone_view(time_zone)),
    {
        DatetimeArgs { time_zone, ..self }
    }

    /// Replaces the expression that says how an ambiguous local time is
    /// resolved.
    pub fn with_ambiguous(self, ambiguous: Expr) -> (args: Self)
        ensures
            args@ == self@.with_ambiguous(ambiguous@),
    {
        DatetimeArgs { ambiguous, ..self }
    }
}

impl Clone for DatetimeArgs {
    fn clone(&self) -> (copy: Self)
        ensures
            copy@ == self@,
    {
        DatetimeArgs {
            year: self.year.clone(),
            month: self.month.clone(),
            day: self.day.clone(),
            hour: self.hour.clone(),
            minute: self.minute.clone(),
            second: self.second.clone(),
            microsecond: self.microsecond.clone(),
            time_unit: self.time_unit,
            time_zone: clone_time_zone(&self.time_zone),
            ambiguous: self.ambiguous.clone(),
        }
    }
}

/// Builds the node that requests a datetime column from `args`.
pub fn datetime(args: DatetimeArgs) -> (node: Expr)
    ensures
        node@ == datetime_node(args@),
{
    let year = args.year;
    let month = args.month;
    let day = args.day;
    let hour = args.hour;
    let minute = args.minute;
    let second = args.second;
    let microsecond = args.microsecond;
    let time_unit = args.time_unit;
    let time_zone = args.time_zone;
    let ambiguous = args.ambiguous;

    let input = vec![year, month, day, hour, minute, second, microsecond, ambiguous];
    let flags = FunctionFlags::empty().with(FunctionFlag::InputWildcardExpansion).with(
        FunctionFlag::AllowRename,
    );
    let node = Expr::Function {
        input,
        function: TemporalFunction::DatetimeFunction { time_unit, time_zone },
        options: FunctionOptions {
            collect_groups: ApplyOptions::ElementWise,
            flags,
            fmt_str: "datetime",
        },
    };
    assert(node@->input =~= datetime_node(args@)->input);
    node
}

/// Replacing `hour`, `minute` and `second` together gives what replacing them
/// one after the other gives.
pub proof fn lemma_with_hms_is_three_replacements(
    args: DatetimeArgsView,
    hour: ExprView,
    minute: ExprView,
    second: ExprView,
)
    ensures
        args.with_hms(hour, minute, second) == args.with_hour(hour).with_minute(minute).with_second(second),
{
}

/// Replacing `hour`, `minute` and `second` together sets these three fields
/// and leaves every other field as it was.
pub proof fn lemma_with_hms_changes_three_fields(
    args: DatetimeArgsView,
    hour: ExprView,
    minute: ExprView,
    second: ExprView,
)
    ensures
        args.with_hms(hour, minute, second).hour == hour,
        args.with_hms(hour, minute, second).minute == minute,
        args.with_hms(hour, minute, second).second == second,
        args.with_hms(hour, minute, second).year == args.year,
        args.with_hms(hour, minute, second).month == args.month,
        args.with_hms(hour, minute, second).day == args.day,
        args.with_hms(hour, minute, second).microsecond == args.microsecond,
        args.with_hms(hour, minute, second).time_unit == args.time_unit,
        args.with_hms(hour, minute, second).time_zone == args.time_zone,
        args.with_hms(hour, minute, second).ambiguous == args.ambiguous,
{
}

/// Replacing the resolution twice leaves the second one.
pub proof fn lemma_last_time_unit_wins(args: DatetimeArgsView, first: TimeUnit, last: TimeUnit)
    ensures
        args.with_time_unit(first).with_time_unit(last) == args.with_time_unit(last),
{
}

/// Replacing the time zone twice leaves the second one.
pub proof fn lemma_last_time_zone_wins(
    args: DatetimeArgsView,
    first: Option<Seq<char>>,
    last: Option<Seq<char>>,
)
    ensures
        args.with_time_zone(first).with_time_zone(last) == args.with_time_zone(last),
{
}

/// A field that is replaced twice holds the second value: the first leaves
/// no trace.
pub proof fn lemma_last_replacement_wins(args: DatetimeArgsView, first: ExprView, last: ExprView)
    ensures
        args.with_year(first).with_year(last) == args.with_year(last),
        args.with_month(first).with_month(last) == args.with_month(last),
        args.with_day(first).with_day(last) == args.with_day(last),
        args.with_hour(first).with_hour(last) == args.with_hour(last),
        args.with_minute(first).with_minute(last) == args.with_minute(last),
        args.with_second(first).with_second(last) == args.with_second(last),
        args.with_microsecond(first).with_microsecond(last) == args.with_microsecond(last),
        args.with_ambiguous(first).with_ambiguous(last) == args.with_ambiguous(last),
{
}

/// The node of a datetime has eight children, in this order.
pub proof fn lemma_datetime_children(args: DatetimeArgsView)
    ensures
        datetime_node(args)->input.len() == 8,
        datetime_node(args)->input[0] == args.year,
        datetime_node(args)->input[1] == args.month,
        datetime_node(args)->input[2] == args.day,
        datetime_node(args)->input[3] == args.hour,
        datetime_node(args)->input[4] == args.minute,
        datetime_node(args)->input[5] == args.second,
        datetime_node(args)->input[6] == args.microsecond,
        datetime_node(args)->input[7] == args.ambiguous,
{
}

} // verus!
