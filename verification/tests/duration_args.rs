use temporal_expr::{col, duration, lit, DurationArgs, TimeUnit};

fn sample() -> DurationArgs {
    DurationArgs::new().with_weeks(lit(1)).with_days(col("d")).with_nanoseconds(lit(8))
}

#[test]
fn duration_new_is_all_zero() {
    let args = DurationArgs::new();
    assert_eq!(args.weeks, lit(0));
    assert_eq!(args.days, lit(0));
    assert_eq!(args.hours, lit(0));
    assert_eq!(args.minutes, lit(0));
    assert_eq!(args.seconds, lit(0));
    assert_eq!(args.milliseconds, lit(0));
    assert_eq!(args.microseconds, lit(0));
    assert_eq!(args.nanoseconds, lit(0));
    assert_eq!(args.time_unit, TimeUnit::Microseconds);
}

#[test]
fn duration_default_equals_new() {
    assert_eq!(duration(DurationArgs::default()), duration(DurationArgs::new()));
    let args = DurationArgs::default();
    assert_eq!(args.weeks, lit(0));
    assert_eq!(args.nanoseconds, lit(0));
    assert_eq!(args.time_unit, TimeUnit::Microseconds);
}

#[test]
fn duration_with_hms_changes_three_fields_only() {
    let args = sample().with_hms(lit(4), lit(5), col("s"));
    assert_eq!(args.hours, lit(4));
    assert_eq!(args.minutes, lit(5));
    assert_eq!(args.seconds, col("s"));
    assert_eq!(args.weeks, lit(1));
    assert_eq!(args.days, col("d"));
    assert_eq!(args.milliseconds, lit(0));
    assert_eq!(args.microseconds, lit(0));
    assert_eq!(args.nanoseconds, lit(8));
    assert_eq!(args.time_unit, TimeUnit::Microseconds);
}

#[test]
fn duration_with_hms_equals_three_single_setters() {
    let grouped = sample().with_hms(lit(1), lit(2), lit(3));
    let single = sample().with_hours(lit(1)).with_minutes(lit(2)).with_seconds(lit(3));
    assert_eq!(duration(grouped), duration(single));
}

#[test]
fn duration_with_fractional_seconds_changes_three_fields_only() {
    let args = sample().with_hms(lit(4), lit(5), lit(6)).with_fractional_seconds(
        lit(10),
        lit(11),
        col("ns"),
    );
    assert_eq!(args.milliseconds, lit(10));
    assert_eq!(args.microseconds, lit(11));
    assert_eq!(args.nanoseconds, col("ns"));
    assert_eq!(args.weeks, lit(1));
    assert_eq!(args.days, col("d"));
    assert_eq!(args.hours, lit(4));
    assert_eq!(args.minutes, lit(5));
    assert_eq!(args.seconds, lit(6));
    assert_eq!(args.time_unit, TimeUnit::Microseconds);
}

#[test]
fn duration_with_fractional_seconds_equals_three_single_setters() {
    let grouped = sample().with_fractional_seconds(lit(1), lit(2), lit(3));
    let single =
        sample().with_milliseconds(lit(1)).with_microseconds(lit(2)).with_nanoseconds(lit(3));
    assert_eq!(duration(grouped), duration(single));
}

#[test]
fn duration_single_setters_change_their_own_field() {
    let args = DurationArgs::new()
        .with_weeks(lit(1))
        .with_days(lit(2))
        .with_hours(lit(3))
        .with_minutes(lit(4))
        .with_seconds(lit(5))
        .with_milliseconds(lit(6))
        .with_microseconds(lit(7))
        .with_nanoseconds(lit(8));
    assert_eq!(args.weeks, lit(1));
    assert_eq!(args.days, lit(2));
    assert_eq!(args.hours, lit(3));
    assert_eq!(args.minutes, lit(4));
    assert_eq!(args.seconds, lit(5));
    assert_eq!(args.milliseconds, lit(6));
    assert_eq!(args.microseconds, lit(7));
    assert_eq!(args.nanoseconds, lit(8));
    assert_eq!(args.time_unit, TimeUnit::Microseconds);
}

#[test]
fn duration_last_write_wins() {
    let args = DurationArgs::new()
        .with_weeks(lit(1))
        .with_weeks(lit(2))
        .with_seconds(lit(30))
        .with_seconds(lit(31));
    assert_eq!(args.weeks, lit(2));
    assert_eq!(args.seconds, lit(31));
    let once = DurationArgs::new().with_weeks(lit(2)).with_seconds(lit(31));
    assert_eq!(duration(args), duration(once));
}

#[test]
fn duration_args_clone_is_equal_field_by_field() {
    let args = sample().with_hms(lit(1), lit(2), lit(3));
    let copy = args.clone();
    assert_eq!(copy.weeks, args.weeks);
    assert_eq!(copy.days, args.days);
    assert_eq!(copy.hours, args.hours);
    assert_eq!(copy.minutes, args.minutes);
    assert_eq!(copy.seconds, args.seconds);
    assert_eq!(copy.milliseconds, args.milliseconds);
    assert_eq!(copy.microseconds, args.microseconds);
    assert_eq!(copy.nanoseconds, args.nanoseconds);
    assert_eq!(copy.time_unit, args.time_unit);
}
