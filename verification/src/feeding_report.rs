//! Feeding reports: for every pasture a dated series of fill levels of its
//! feeder, each report starting no higher than the one before it ended.
use vstd::prelude::*;

use crate::error::ConfigError;
use crate::pasture::{pastures_wf, Pasture};
use crate::random::RandomSource;
use crate::share::ONE_HUNDRED_PERCENT;
use crate::time::{
    check_window, day_of, lemma_report_times_fill_window, lemma_series_position_bound,
    lemma_series_spans_window, local_clock_seconds, report_count, report_time, series_error,
    series_position, spec_day_of, spec_report_count, spec_window_start, window_error,
    window_start,
};

verus! {

/// One feeding report. `date` is a day number counted from 1970-01-01; the
/// fill levels are in basis points of a full feeder.
#[derive(Clone, Copy, Debug, PartialEq, Eq)]
pub struct FeedingReport {
    pub id: usize,
    pub date: i64,
    pub pasture_id: usize,
    pub start_fill_bp: u32,
    pub end_fill_bp: u32,
}

impl FeedingReport {
    /// A report on the feeder of `pasture`.
    pub fn new(
        id: usize,
        date: i64,
        pasture: &Pasture,
        start_fill_bp: u32,
        end_fill_bp: u32,
    ) -> (report: Self)
        ensures
            report.id == id,
            report.date == date,
            report.pasture_id == pasture.id,
            report.start_fill_bp == start_fill_bp,
            report.end_fill_bp == end_fill_bp,
    {
        FeedingReport { id, date, pasture_id: pasture.id, start_fill_bp, end_fill_bp }
    }

    /// The feeder was filled, not emptied, and not beyond full.
    pub open spec fn fills_ok(&self) -> bool {
        0 <= self.start_fill_bp <= self.end_fill_bp <= ONE_HUNDRED_PERCENT
    }
}

/// Every report has admissible fill levels, and either opens a series with
/// an empty feeder or follows a report of the same pasture and starts no
/// higher than that one ended.
pub open spec fn feeding_chain_ok(reports: Seq<FeedingReport>) -> bool {
    forall|k: int|
        0 <= k < reports.len() ==> {
            &&& (#[trigger] reports[k]).fills_ok()
            &&& reports[k].start_fill_bp == 0 || (k > 0 && reports[k - 1].pasture_id
                == reports[k].pasture_id && reports[k].start_fill_bp <= reports[k - 1].end_fill_bp)
        }
}

/// Every report is identified by its position and names a pasture that
/// exists.
pub open spec fn feeding_reports_wf(reports: Seq<FeedingReport>, pasture_count: int) -> bool {
    forall|k: int|
        0 <= k < reports.len() ==> (#[trigger] reports[k]).id == k && reports[k].pasture_id
            < pasture_count
}

/// The report at `position` is the `j`-th of the series of `pasture` that
/// starts at `from`.
pub open spec fn is_series_report(
    reports: Seq<FeedingReport>,
    position: int,
    pasture: Pasture,
    from: int,
    interval: int,
    j: int,
) -> bool {
    &&& reports[position].id == position
    &&& reports[position].pasture_id == pasture.id
    &&& reports[position].date == spec_day_of(report_time(from, interval, j))
    &&& reports[position].fills_ok()
    &&& if j == 0 {
        reports[position].start_fill_bp == 0
    } else {
        reports[position].start_fill_bp <= reports[position - 1].end_fill_bp
    }
}

/// `grown` is `before` followed, pasture by pasture, by a series of
/// `per_pasture` reports taken every `interval` seconds from `from` on.
pub open spec fn feeding_reports_appended(
    before: Seq<FeedingReport>,
    grown: Seq<FeedingReport>,
    pastures: Seq<Pasture>,
    from: int,
    interval: int,
    per_pasture: int,
) -> bool {
    &&& grown.len() == before.len() + pastures.len() * per_pasture
    &&& before.is_prefix_of(grown)
    &&& forall|p: int, j: int|
        0 <= p < pastures.len() && 0 <= j < per_pasture ==> is_series_report(
            grown,
            before.len() + #[trigger] series_position(p, per_pasture, j),
            pastures[p],
            from,
            interval,
            j,
        )
}

fn append_feeding_series(
    rng: &mut RandomSource,
    reports: &mut Vec<FeedingReport>,
    pastures: &Vec<Pasture>,
    from: i64,
    to: i64,
    interval: i64,
)
    requires
        window_error(from as int, to as int, interval as int) is None,
    ensures
        feeding_reports_appended(
            old(reports)@,
            final(reports)@,
            pastures@,
            from as int,
            interval as int,
            spec_report_count(from as int, to as int, interval as int),
        ),
        feeding_chain_ok(old(reports)@) ==> feeding_chain_ok(final(reports)@),
        pastures_wf(pastures@) && feeding_reports_wf(
            old(reports)@,
            pastures@.len() as int,
        ) ==> feeding_reports_wf(final(reports)@, pastures@.len() as int),
{
    let ghost before = reports@;
    let ghost keeps_wf = pastures_wf(pastures@) && feeding_reports_wf(
        before,
        pastures@.len() as int,
    );
    let per_pasture = report_count(from, to, interval);
    let mut p: usize = 0;
    while p < pastures.len()
        invariant
            p <= pastures@.len(),
            window_error(from as int, to as int, interval as int) is None,
            per_pasture == spec_report_count(from as int, to as int, interval as int),
            feeding_reports_appended(
                before,
                reports@,
                pastures@.take(p as int),
                from as int,
                interval as int,
                per_pasture as int,
            ),
            feeding_chain_ok(before) ==> feeding_chain_ok(reports@),
            keeps_wf == (pastures_wf(pastures@) && feeding_reports_wf(
                before,
                pastures@.len() as int,
            )),
            keeps_wf ==> feeding_reports_wf(reports@, pastures@.len() as int),
        decreases pastures@.len() - p,
    {
        let ghost series_start = reports@.len();
        let mut instant: i64 = from;
        let mut j: u64 = 0;
        proof {
            assert(p * per_pasture + per_pasture == (p + 1) * per_pasture) by (nonlinear_arith);
        }
        while j < per_pasture
            invariant
                j <= per_pasture,
                p < pastures@.len(),
                window_error(from as int, to as int, interval as int) is None,
                per_pasture == spec_report_count(from as int, to as int, interval as int),
                j < per_pasture ==> instant == report_time(from as int, interval as int, j as int),
                series_start == before.len() + p * per_pasture,
                reports@.len() == series_start + j,
                before.is_prefix_of(reports@),
                forall|q: int, i: int|
                    0 <= q < p && 0 <= i < per_pasture ==> is_series_report(
                        reports@,
                        before.len() + #[trigger] series_position(q, per_pasture as int, i),
                        pastures@[q],
                        from as int,
                        interval as int,
                        i,
                    ),
                forall|i: int|
                    0 <= i < j ==> is_series_report(
                        reports@,
                        #[trigger] (series_start + i),
                        pastures@[p as int],
                        from as int,
                        interval as int,
                        i,
                    ),
                feeding_chain_ok(before) ==> feeding_chain_ok(reports@),
                keeps_wf == (pastures_wf(pastures@) && feeding_reports_wf(
                    before,
                    pastures@.len() as int,
                )),
                keeps_wf ==> feeding_reports_wf(reports@, pastures@.len() as int),
            decreases per_pasture - j,
        {
            let ghost earlier = reports@;
            let start_fill: u32 = if j == 0 {
                0
            } else {
                let previous_end = reports[reports.len() - 1].end_fill_bp;
                assert(reports@[series_start + (j - 1)].fills_ok());
                match rng.uniform_inclusive(0, previous_end as u64) {
                    Ok(drawn) => drawn as u32,
                    Err(_) => 0,
                }
            };
            let end_fill: u32 = match rng.uniform_inclusive(
                start_fill as u64,
                ONE_HUNDRED_PERCENT as u64,
            ) {
                Ok(drawn) => drawn as u32,
                Err(_) => ONE_HUNDRED_PERCENT,
            };
            let id = reports.len();
            let date = day_of(instant);
            reports.push(FeedingReport::new(id, date, &pastures[p], start_fill, end_fill));
            proof {
                assert(before.is_prefix_of(reports@)) by {
                    assert(reports@.subrange(0, before.len() as int) =~= earlier.subrange(
                        0,
                        before.len() as int,
                    ));
                }
                assert forall|q: int, i: int|
                    0 <= q < p && 0 <= i < per_pasture implies is_series_report(
                    reports@,
                    before.len() + #[trigger] series_position(q, per_pasture as int, i),
                    pastures@[q],
                    from as int,
                    interval as int,
                    i,
                ) by {
                    lemma_series_position_bound(q, per_pasture as int, i, p as int);
                    let position = before.len() + series_position(q, per_pasture as int, i);
                    assert(is_series_report(
                        earlier,
                        position,
                        pastures@[q],
                        from as int,
                        interval as int,
                        i,
                    ));
                    assert(reports@[position] == earlier[position]);
                    if i > 0 {
                        assert(reports@[position - 1] == earlier[position - 1]);
                    }
                }
                assert forall|i: int| 0 <= i < j + 1 implies is_series_report(
                    reports@,
                    #[trigger] (series_start + i),
                    pastures@[p as int],
                    from as int,
                    interval as int,
                    i,
                ) by {
                    if i < j {
                        assert(is_series_report(
                            earlier,
                            series_start + i,
                            pastures@[p as int],
                            from as int,
                            interval as int,
                            i,
                        ));
                        assert(reports@[series_start + i] == earlier[series_start + i]);
                        if i > 0 {
                            assert(reports@[series_start + i - 1] == earlier[series_start + i - 1]);
                        }
                    } else {
                        if i > 0 {
                            assert(reports@[series_start + i - 1] == earlier[series_start + (i - 1)]);
                        }
                    }
                }
                if keeps_wf {
                    assert forall|k: int| 0 <= k < reports@.len() implies (#[trigger] reports@[k]).id
                        == k && reports@[k].pasture_id < pastures@.len() by {
                        if k < earlier.len() {
                            assert(reports@[k] == earlier[k]);
                        }
                    }
                }
                if feeding_chain_ok(before) {
                    assert forall|k: int| 0 <= k < reports@.len() implies {
                        &&& (#[trigger] reports@[k]).fills_ok()
                        &&& reports@[k].start_fill_bp == 0 || (k > 0 && reports@[k - 1].pasture_id
                            == reports@[k].pasture_id && reports@[k].start_fill_bp
                            <= reports@[k - 1].end_fill_bp)
                    } by {
                        if k < earlier.len() {
                            assert(reports@[k] == earlier[k]);
                            if k > 0 {
                                assert(reports@[k - 1] == earlier[k - 1]);
                            }
                        } else if j > 0 {
                            assert(reports@[k - 1] == earlier[series_start + (j - 1)]);
                        }
                    }
                }
            }
            j = j + 1;
            if j < per_pasture {
                proof {
                    lemma_report_times_fill_window(
                        from as int,
                        to as int,
                        interval as int,
                        j as int,
                    );
                    assert(report_time(from as int, interval as int, j as int) == report_time(
                        from as int,
                        interval as int,
                        j - 1,
                    ) + interval) by (nonlinear_arith);
                }
                instant = instant + interval;
            }
        }
        proof {
            assert forall|q: int, i: int|
                0 <= q < p + 1 && 0 <= i < per_pasture implies is_series_report(
                reports@,
                before.len() + #[trigger] series_position(q, per_pasture as int, i),
                pastures@.take(p + 1)[q],
                from as int,
                interval as int,
                i,
            ) by {
                if q == p {
                    assert(before.len() + series_position(q, per_pasture as int, i) == series_start
                        + i);
                }
            }
        }
        p = p + 1;
    }
    assert(pastures@.take(p as int) =~= pastures@);
}

/// Appends, for every pasture, one report for each instant `from_when`,
/// `from_when + report_interval`, ... before `to_when`. The first report of
/// a series starts with an empty feeder; every later one starts at a level
/// drawn uniformly from zero up to the level at which the one before it
/// ended; every report ends at a level drawn uniformly from its start up to
/// a full feeder. Refuses, before anything is drawn, a window that
/// `window_error` refuses.
pub fn expand_feeding_report_vec(
    rng: &mut RandomSource,
    reports: &mut Vec<FeedingReport>,
    pastures: &Vec<Pasture>,
    from_when: i64,
    to_when: i64,
    report_interval: i64,
) -> (outcome: Result<(), ConfigError>)
    ensures
        outcome is Err <==> window_error(
            from_when as int,
            to_when as int,
            report_interval as int,
        ) is Some,
        outcome is Err ==> Some(outcome->Err_0) == window_error(
            from_when as int,
            to_when as int,
            report_interval as int,
        ) && final(reports)@ == old(reports)@ && *final(rng) == *old(rng),
        outcome is Ok ==> feeding_reports_appended(
            old(reports)@,
            final(reports)@,
            pastures@,
            from_when as int,
            report_interval as int,
            spec_report_count(from_when as int, to_when as int, report_interval as int),
        ),
        feeding_chain_ok(old(reports)@) ==> feeding_chain_ok(final(reports)@),
        pastures_wf(pastures@) && feeding_reports_wf(
            old(reports)@,
            pastures@.len() as int,
        ) ==> feeding_reports_wf(final(reports)@, pastures@.len() as int),
{
    match check_window(from_when, to_when, report_interval) {
        Ok(()) => {},
        Err(refusal) => {
            return Err(refusal);
        },
    }
    append_feeding_series(rng, reports, pastures, from_when, to_when, report_interval);
    Ok(())
}

/// What `generate_feeding_report_vec` returns when the series is to end
/// at `last`.
pub open spec fn is_feeding_series_until(
    outcome: Result<Vec<FeedingReport>, ConfigError>,
    pastures: Seq<Pasture>,
    count_per_pasture: int,
    report_interval: int,
    last: int,
) -> bool {
    &&& outcome is Err <==> series_error(last, report_interval, count_per_pasture) is Some
    &&& outcome is Err ==> Some(outcome->Err_0) == series_error(
        last,
        report_interval,
        count_per_pasture,
    )
    &&& outcome is Ok ==> feeding_reports_appended(
        Seq::<FeedingReport>::empty(),
        outcome->Ok_0@,
        pastures,
        spec_window_start(last, report_interval, count_per_pasture),
        report_interval,
        count_per_pasture,
    ) && feeding_chain_ok(outcome->Ok_0@)
}

/// A fresh list of reports: for every pasture `count_per_pasture` reports,
/// `report_interval` seconds apart, the last of them one interval before
/// `last_report_date`. Fill levels are drawn as `expand_feeding_report_vec`
/// draws them.
pub fn generate_feeding_report_vec_until(
    rng: &mut RandomSource,
    pastures: &Vec<Pasture>,
    count_per_pasture: usize,
    report_interval: i64,
    last_report_date: i64,
) -> (outcome: Result<Vec<FeedingReport>, ConfigError>)
    ensures
        is_feeding_series_until(
            outcome,
            pastures@,
            count_per_pasture as int,
            report_interval as int,
            last_report_date as int,
        ),
        outcome is Err ==> *final(rng) == *old(rng),
{
    let first = match window_start(last_report_date, report_interval, count_per_pasture) {
        Ok(first) => first,
        Err(refusal) => {
            return Err(refusal);
        },
    };
    let mut reports: Vec<FeedingReport> = Vec::new();
    if count_per_pasture > 0 {
        proof {
            lemma_series_spans_window(
                first as int,
                last_report_date as int,
                report_interval as int,
                count_per_pasture as int,
            );
        }
        append_feeding_series(
            rng,
            &mut reports,
            pastures,
            first,
            last_report_date,
            report_interval,
        );
    } else {
        assert(pastures@.len() * 0 == 0);
    }
    Ok(reports)
}

/// The same, with the series ending at the present local time where no
/// `last_report_date` is given.
pub fn generate_feeding_report_vec(
    rng: &mut RandomSource,
    pastures: &Vec<Pasture>,
    count_per_pasture: usize,
    report_interval: i64,
    last_report_date: Option<i64>,
) -> (outcome: Result<Vec<FeedingReport>, ConfigError>)
    ensures
        exists|last: int|
            (last_report_date is Some ==> last == last_report_date->0)
                && #[trigger] is_feeding_series_until(
                outcome,
                pastures@,
                count_per_pasture as int,
                report_interval as int,
                last,
            ),
        outcome is Err ==> *final(rng) == *old(rng),
{
    let last = match last_report_date {
        Some(last) => last,
        None => local_clock_seconds(),
    };
    let outcome = generate_feeding_report_vec_until(
        rng,
        pastures,
        count_per_pasture,
        report_interval,
        last,
    );
    assert(is_feeding_series_until(
        outcome,
        pastures@,
        count_per_pasture as int,
        report_interval as int,
        last as int,
    ));
    outcome
}

/// Within the series of one pasture every report after the first starts no
/// higher than the report before it ended, is of the same pasture and of no
/// earlier day, and every report starts at or above zero and ends between
/// its start and a full feeder.
pub proof fn lemma_series_is_chained(
    before: Seq<FeedingReport>,
    grown: Seq<FeedingReport>,
    pastures: Seq<Pasture>,
    from: int,
    interval: int,
    per_pasture: int,
    p: int,
    j: int,
)
    requires
        feeding_reports_appended(before, grown, pastures, from, interval, per_pasture),
        interval > 0,
        0 <= p < pastures.len(),
        0 <= j < per_pasture,
    ensures
        0 <= grown[before.len() + series_position(p, per_pasture, j)].start_fill_bp
            <= grown[before.len() + series_position(p, per_pasture, j)].end_fill_bp
            <= ONE_HUNDRED_PERCENT,
        j > 0 ==> {
            &&& grown[before.len() + series_position(p, per_pasture, j)].start_fill_bp
                <= grown[before.len() + series_position(p, per_pasture, j) - 1].end_fill_bp
            &&& grown[before.len() + series_position(p, per_pasture, j)].pasture_id
                == grown[before.len() + series_position(p, per_pasture, j) - 1].pasture_id
            &&& grown[before.len() + series_position(p, per_pasture, j) - 1].date
                <= grown[before.len() + series_position(p, per_pasture, j)].date
        },
{
    let k = before.len() + series_position(p, per_pasture, j);
    assert(is_series_report(grown, k, pastures[p], from, interval, j));
    if j > 0 {
        assert(series_position(p, per_pasture, j - 1) == series_position(p, per_pasture, j) - 1);
        assert(is_series_report(
            grown,
            before.len() + series_position(p, per_pasture, j - 1),
            pastures[p],
            from,
            interval,
            j - 1,
        ));
        assert(report_time(from, interval, j) == report_time(from, interval, j - 1) + interval)
            by (nonlinear_arith);
        let earlier = report_time(from, interval, j - 1);
        assert(earlier / 86_400 <= (earlier + interval) / 86_400) by (nonlinear_arith)
            requires
                interval > 0,
        ;
    }
}

} // verus!
