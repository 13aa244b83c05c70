//! Instants as whole seconds, day numbers, and the arithmetic of evenly
//! spaced report times inside a half-open window.
use vstd::prelude::*;

use crate::error::ConfigError;

verus! {

/// Seconds in one day.
pub const SECONDS_PER_DAY: i64 = 86_400;

/// The earliest supported instant, 0000-01-01T00:00:00.
pub const MIN_TIMESTAMP: i64 = -62_167_219_200;

/// The latest supported instant, 9999-12-31T23:59:59.
pub const MAX_TIMESTAMP: i64 = 253_402_300_799;

/// The longest lifespan a species may have, in days.
pub const MAX_LIFESPAN_DAYS: u64 = 1_000_000_000;

/// Whether `t` lies in the supported span of years.
pub open spec fn timestamp_in_range(t: int) -> bool {
    MIN_TIMESTAMP <= t <= MAX_TIMESTAMP
}

/// The number of the day that holds instant `t`, counted from 1970-01-01;
/// instants before that day have negative numbers.
pub open spec fn spec_day_of(t: int) -> int {
    t / 86_400
}

/// How many instants `from`, `from + interval`, `from + 2 * interval`, ...
/// lie before `to`.
pub open spec fn spec_report_count(from: int, to: int, interval: int) -> int {
    if to <= from || interval <= 0 {
        0
    } else {
        (to - from - 1) / interval + 1
    }
}

/// The `j`-th report instant of a window that starts at `from`.
pub open spec fn report_time(from: int, interval: int, j: int) -> int {
    from + j * interval
}

/// Whether `t` lies in the supported span of years.
pub fn is_timestamp_in_range(t: i64) -> (ok: bool)
    ensures
        ok == timestamp_in_range(t as int),
{
    MIN_TIMESTAMP <= t && t <= MAX_TIMESTAMP
}

/// The number of the day that holds instant `t`.
pub fn day_of(t: i64) -> (day: i64)
    ensures
        day == spec_day_of(t as int),
{
    match t.checked_div_euclid(SECONDS_PER_DAY) {
        Some(day) => day,
        None => 0,
    }
}

/// How many report instants, `interval` apart from `from` on, lie before `to`.
pub fn report_count(from: i64, to: i64, interval: i64) -> (n: u64)
    ensures
        n == spec_report_count(from as int, to as int, interval as int),
{
    if to <= from || interval <= 0 {
        0
    } else {
        let span: i128 = to as i128 - from as i128;
        let whole: i128 = (span - 1) / (interval as i128);
        assert(0 <= whole <= span - 1) by (nonlinear_arith)
            requires
                whole == (span - 1) / (interval as int),
                span >= 1,
                interval >= 1,
        ;
        (whole + 1) as u64
    }
}

/// Every report instant of a non-empty window lies inside the window, and
/// the instant after the last one does not.
pub proof fn lemma_report_times_fill_window(from: int, to: int, interval: int, j: int)
    requires
        from < to,
        interval > 0,
        0 <= j,
    ensures
        j < spec_report_count(from, to, interval) <==> report_time(from, interval, j) < to,
        report_time(from, interval, j) >= from,
{
    let span = to - from;
    let q = (span - 1) / interval;
    assert(q * interval <= span - 1 < (q + 1) * interval) by (nonlinear_arith)
        requires
            q == (span - 1) / interval,
            interval > 0,
            span >= 1,
    ;
    assert(j <= q ==> j * interval <= q * interval) by (nonlinear_arith)
        requires
            interval > 0,
            0 <= j,
    ;
    assert(j >= q + 1 ==> j * interval >= (q + 1) * interval) by (nonlinear_arith)
        requires
            interval > 0,
    ;
    assert(j * interval >= 0) by (nonlinear_arith)
        requires
            interval > 0,
            0 <= j,
    ;
}

/// The position, within the reports that one expansion appends, of the
/// `j`-th report of the series numbered `series`, when every series holds
/// `per_series` reports.
pub open spec fn series_position(series: int, per_series: int, j: int) -> int {
    series * per_series + j
}

/// Positions of earlier series lie before those of later ones.
pub proof fn lemma_series_position_bound(series: int, per_series: int, j: int, done: int)
    requires
        0 <= series < done,
        0 <= j < per_series,
    ensures
        0 <= series_position(series, per_series, j) < done * per_series,
        series_position(series, per_series, j) < (series + 1) * per_series,
        (series + 1) * per_series <= done * per_series,
        series * per_series + per_series == (series + 1) * per_series,
{
    assert(series * per_series >= 0) by (nonlinear_arith)
        requires
            0 <= series,
            0 <= per_series,
    ;
    assert(series * per_series + per_series == (series + 1) * per_series) by (nonlinear_arith);
    assert((series + 1) * per_series <= done * per_series) by (nonlinear_arith)
        requires
            series + 1 <= done,
            0 <= per_series,
    ;
}

/// The refusal, if any, that a window from `from` up to, but not reaching,
/// `to`, with reports every `interval` seconds, meets.
pub open spec fn window_error(from: int, to: int, interval: int) -> Option<ConfigError> {
    if !timestamp_in_range(from) || !timestamp_in_range(to) {
        Some(ConfigError::TimestampOutOfRange)
    } else if to <= from || interval <= 0 {
        Some(ConfigError::InvalidWindow)
    } else {
        None
    }
}

/// Accepts a window that `window_error` does not refuse.
pub fn check_window(from: i64, to: i64, interval: i64) -> (outcome: Result<(), ConfigError>)
    ensures
        outcome is Err <==> window_error(from as int, to as int, interval as int) is Some,
        outcome is Err ==> Some(outcome->Err_0) == window_error(
            from as int,
            to as int,
            interval as int,
        ),
{
    if !is_timestamp_in_range(from) || !is_timestamp_in_range(to) {
        Err(ConfigError::TimestampOutOfRange)
    } else if to <= from || interval <= 0 {
        Err(ConfigError::InvalidWindow)
    } else {
        Ok(())
    }
}

/// The start of the window that ends at `last` and holds `count` report
/// instants `interval` apart.
pub open spec fn spec_window_start(last: int, interval: int, count: int) -> int {
    last - interval * count
}

/// A window that starts `count` intervals before its end holds exactly
/// `count` report instants.
pub proof fn lemma_series_spans_window(first: int, last: int, interval: int, count: int)
    requires
        interval > 0,
        count > 0,
        first == spec_window_start(last, interval, count),
    ensures
        first < last,
        spec_report_count(first, last, interval) == count,
{
    assert(interval * count >= interval) by (nonlinear_arith)
        requires
            interval > 0,
            count > 0,
    ;
    assert((interval * count - 1) / interval + 1 == count) by (nonlinear_arith)
        requires
            interval > 0,
            count > 0,
    ;
}

/// The refusal, if any, that a request for `count` reports up to `last`
/// meets.
pub open spec fn series_error(last: int, interval: int, count: int) -> Option<ConfigError> {
    if interval <= 0 {
        Some(ConfigError::InvalidWindow)
    } else if !timestamp_in_range(last) || !timestamp_in_range(
        spec_window_start(last, interval, count),
    ) {
        Some(ConfigError::TimestampOutOfRange)
    } else {
        None
    }
}

/// The start of the window that ends at `last` and holds `count` report
/// instants `interval` apart, or the refusal that the request meets.
pub fn window_start(last: i64, interval: i64, count: usize) -> (outcome: Result<i64, ConfigError>)
    ensures
        outcome is Err <==> series_error(last as int, interval as int, count as int) is Some,
        outcome is Err ==> Some(outcome->Err_0) == series_error(
            last as int,
            interval as int,
            count as int,
        ),
        outcome is Ok ==> outcome->Ok_0 == spec_window_start(
            last as int,
            interval as int,
            count as int,
        ),
{
    if interval <= 0 {
        return Err(ConfigError::InvalidWindow);
    }
    if !is_timestamp_in_range(last) {
        return Err(ConfigError::TimestampOutOfRange);
    }
    assert(0 <= interval * count <= 0x7fff_ffff_ffff_ffff * 0xffff_ffff_ffff_ffff) by (nonlinear_arith)
        requires
            0 < interval <= 0x7fff_ffff_ffff_ffff,
            0 <= count <= 0xffff_ffff_ffff_ffff,
    ;
    let back: i128 = (interval as i128) * (count as i128);
    let start: i128 = last as i128 - back;
    if start < MIN_TIMESTAMP as i128 {
        return Err(ConfigError::TimestampOutOfRange);
    }
    Ok(start as i64)
}

/// Reads the local wall clock with `chrono::Local::now`, drops the zone
/// with `naive_local`, and returns the whole seconds that
/// `and_utc().timestamp()` counts from 1970-01-01T00:00:00. Nothing is
/// claimed of the instant. The call takes no argument; it fails only where
/// the machine's clock or zone data cannot be read as a time.
#[verifier::external_body]
pub(crate) fn local_clock_seconds() -> i64 {
    chrono::Local::now().naive_local().and_utc().timestamp()
}

} // verus!
