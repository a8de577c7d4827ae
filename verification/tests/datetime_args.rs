use temporal_expr::{col, datetime, lit, lit_str, DatetimeArgs, Expr, LiteralValue, TimeUnit};

fn sample() -> DatetimeArgs {
    DatetimeArgs::new(lit(2023), col("month"), col("day"))
}

#[test]
fn datetime_new_sets_the_date_and_defaults_the_rest() {
    let args = DatetimeArgs::new(lit(1969), lit(7), lit(20));
    assert_eq!(args.year, lit(1969));
    assert_eq!(args.month, lit(7));
    assert_eq!(args.day, lit(20));
    assert_eq!(args.hour, lit(0));
    assert_eq!(args.minute, lit(0));
    assert_eq!(args.second, lit(0));
    assert_eq!(args.microsecond, lit(0));
    assert_eq!(args.time_unit, TimeUnit::Microseconds);
    assert_eq!(args.time_zone, None);
    assert_eq!(args.ambiguous, lit_str("raise"));
}

#[test]
fn datetime_default_has_every_unit_at_zero() {
    let args = DatetimeArgs::default();
    assert_eq!(args.year, lit(0));
    assert_eq!(args.month, lit(0));
    assert_eq!(args.day, lit(0));
    assert_eq!(args.hour, lit(0));
    assert_eq!(args.minute, lit(0));
    assert_eq!(args.second, lit(0));
    assert_eq!(args.microsecond, lit(0));
    assert_eq!(args.time_unit, TimeUnit::Microseconds);
    assert_eq!(args.time_zone, None);
    assert_eq!(args.ambiguous, lit_str("raise"));
}

#[test]
fn datetime_new_keeps_column_expressions() {
    let args = sample();
    assert_eq!(args.year, Expr::Literal(LiteralValue::Int(2023)));
    assert_eq!(args.month, Expr::Column(String::from("month")));
    assert_eq!(args.day, Expr::Column(String::from("day")));
}

#[test]
fn datetime_with_hms_changes_three_fields_only() {
    let args = sample()
        .with_microsecond(lit(5))
        .with_time_unit(TimeUnit::Nanoseconds)
        .with_time_zone(Some(String::from("Europe/Vienna")))
        .with_ambiguous(lit_str("latest"))
        .with_hms(lit(20), lit(17), col("s"));
    assert_eq!(args.hour, lit(20));
    assert_eq!(args.minute, lit(17));
    assert_eq!(args.second, col("s"));
    assert_eq!(args.year, lit(2023));
    assert_eq!(args.month, col("month"));
    assert_eq!(args.day, col("day"));
    assert_eq!(args.microsecond, lit(5));
    assert_eq!(args.time_unit, TimeUnit::Nanoseconds);
    assert_eq!(args.time_zone, Some(String::from("Europe/Vienna")));
    assert_eq!(args.ambiguous, lit_str("latest"));
}

#[test]
fn datetime_with_hms_equals_three_single_setters() {
    let grouped = sample().with_hms(lit(1), lit(2), lit(3));
    let single = sample().with_hour(lit(1)).with_minute(lit(2)).with_second(lit(3));
    assert_eq!(datetime(grouped), datetime(single));
}

#[test]
fn datetime_single_setters_change_their_own_field() {
    let args = sample()
        .with_year(lit(1))
        .with_month(lit(2))
        .with_day(lit(3))
        .with_hour(lit(4))
        .with_minute(lit(5))
        .with_second(lit(6))
        .with_microsecond(lit(7));
    assert_eq!(args.year, lit(1));
    assert_eq!(args.month, lit(2));
    assert_eq!(args.day, lit(3));
    assert_eq!(args.hour, lit(4));
    assert_eq!(args.minute, lit(5));
    assert_eq!(args.second, lit(6));
    assert_eq!(args.microsecond, lit(7));
    assert_eq!(args.time_unit, TimeUnit::Microseconds);
    assert_eq!(args.time_zone, None);
    assert_eq!(args.ambiguous, lit_str("raise"));
}

#[test]
fn datetime_with_hour_leaves_the_other_fields() {
    let args = sample().with_hour(lit(9));
    assert_eq!(args.hour, lit(9));
    assert_eq!(args.year, lit(2023));
    assert_eq!(args.month, col("month"));
    assert_eq!(args.day, col("day"));
    assert_eq!(args.minute, lit(0));
    assert_eq!(args.second, lit(0));
    assert_eq!(args.microsecond, lit(0));
}

#[test]
fn datetime_with_time_unit_replaces_the_unit() {
    let args = sample().with_time_unit(TimeUnit::Milliseconds);
    assert_eq!(args.time_unit, TimeUnit::Milliseconds);
    assert_eq!(args.year, lit(2023));
    assert_eq!(args.time_zone, None);
}

#[test]
fn datetime_with_time_zone_sets_and_clears() {
    let args = sample().with_time_zone(Some(String::from("UTC")));
    assert_eq!(args.time_zone, Some(String::from("UTC")));
    assert_eq!(args.time_unit, TimeUnit::Microseconds);
    let args = args.with_time_zone(None);
    assert_eq!(args.time_zone, None);
}

#[test]
fn datetime_with_ambiguous_replaces_the_policy() {
    let args = sample().with_ambiguous(col("policy"));
    assert_eq!(args.ambiguous, col("policy"));
    assert_eq!(args.hour, lit(0));
}

#[test]
fn datetime_last_write_wins() {
    let args = sample()
        .with_year(lit(1))
        .with_year(lit(2))
        .with_hour(lit(3))
        .with_hour(lit(4))
        .with_ambiguous(lit_str("earliest"))
        .with_ambiguous(lit_str("null"))
        .with_time_unit(TimeUnit::Nanoseconds)
        .with_time_unit(TimeUnit::Milliseconds)
        .with_time_zone(Some(String::from("UTC")))
        .with_time_zone(Some(String::from("Asia/Tokyo")));
    assert_eq!(args.year, lit(2));
    assert_eq!(args.hour, lit(4));
    assert_eq!(args.ambiguous, lit_str("null"));
    assert_eq!(args.time_unit, TimeUnit::Milliseconds);
    assert_eq!(args.time_zone, Some(String::from("Asia/Tokyo")));
    let once = sample()
        .with_year(lit(2))
        .with_hour(lit(4))
        .with_ambiguous(lit_str("null"))
        .with_time_unit(TimeUnit::Milliseconds)
        .with_time_zone(Some(String::from("Asia/Tokyo")));
    assert_eq!(datetime(args), datetime(once));
}

#[test]
fn datetime_args_clone_is_equal_field_by_field() {
    let args = sample()
        .with_hms(lit(1), lit(2), lit(3))
        .with_time_zone(Some(String::from("UTC")))
        .with_ambiguous(datetime(DatetimeArgs::new(lit(1), lit(2), lit(3))));
    let copy = args.clone();
    assert_eq!(copy.year, args.year);
    assert_eq!(copy.month, args.month);
    assert_eq!(copy.day, args.day);
    assert_eq!(copy.hour, args.hour);
    assert_eq!(copy.minute, args.minute);
    assert_eq!(copy.second, args.second);
    assert_eq!(copy.microsecond, args.microsecond);
    assert_eq!(copy.time_unit, args.time_unit);
    assert_eq!(copy.time_zone, args.time_zone);
    assert_eq!(copy.ambiguous, args.ambiguous);
}
