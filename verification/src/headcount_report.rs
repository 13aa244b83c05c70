//! Headcount reports: for every herd a dated series of counts, each taken
//! by some employee.
use vstd::prelude::*;

use crate::employee::{employees_wf, is_employee_id, Employee};
use crate::error::ConfigError;
use crate::herd::{herds_identified, Herd};
use crate::random::RandomSource;
use crate::time::{
    check_window, lemma_report_times_fill_window, lemma_series_position_bound,
    lemma_series_spans_window,
    local_clock_seconds, report_count, report_time, series_error, series_position,
    spec_report_count, spec_window_start, window_error, window_start,
};

verus! {

/// One headcount: `quantity` animals counted in a herd by an employee at
/// the instant `timestamp`.
#[derive(Clone, Copy, Debug, PartialEq, Eq)]
pub struct HeadcountReport {
    pub id: usize,
    pub employee_id: usize,
    pub herd_id: usize,
    pub timestamp: i64,
    pub quantity: u32,
}

impl HeadcountReport {
    /// A count of `herd` taken by `employee`.
    pub fn new(
        id: usize,
        employee: &Employee,
        herd: &Herd,
        timestamp: i64,
        quantity: u32,
    ) -> (report: Self)
        ensures
            report.id == id,
            report.employee_id == employee.id,
            report.herd_id == herd.id,
            report.timestamp == timestamp,
            report.quantity == quantity,
    {
        HeadcountReport { id, employee_id: employee.id, herd_id: herd.id, timestamp, quantity }
    }
}

/// Every report is identified by its position and names an employee and a
/// herd that exist.
pub open spec fn headcounts_wf(
    reports: Seq<HeadcountReport>,
    employee_count: int,
    herd_count: int,
) -> bool {
    forall|i: int|
        0 <= i < reports.len() ==> {
            &&& (#[trigger] reports[i]).id == i
            &&& reports[i].employee_id < employee_count
            &&& reports[i].herd_id < herd_count
        }
}

/// `report`, recorded at `position`, is a count of `herd` taken at
/// `instant` by one of `employees`, and lies within the two bounds.
pub open spec fn is_headcount_of(
    report: HeadcountReport,
    position: int,
    herd: Herd,
    employees: Seq<Employee>,
    instant: int,
    min_count: int,
    max_count: int,
) -> bool {
    &&& report.id == position
    &&& report.herd_id == herd.id
    &&& report.timestamp == instant
    &&& min_count <= report.quantity <= max_count
    &&& is_employee_id(report.employee_id, employees)
}

/// `grown` is `before` followed, herd by herd, by a series of `per_herd`
/// counts taken every `interval` seconds from `from` on.
pub open spec fn headcount_reports_appended(
    before: Seq<HeadcountReport>,
    grown: Seq<HeadcountReport>,
    herds: Seq<Herd>,
    employees: Seq<Employee>,
    min_count: int,
    max_count: int,
    from: int,
    interval: int,
    per_herd: int,
) -> bool {
    &&& grown.len() == before.len() + herds.len() * per_herd
    &&& before.is_prefix_of(grown)
    &&& forall|h: int, j: int|
        0 <= h < herds.len() && 0 <= j < per_herd ==> is_headcount_of(
            grown[before.len() + #[trigger] series_position(h, per_herd, j)],
            before.len() + series_position(h, per_herd, j),
            herds[h],
            employees,
            report_time(from, interval, j),
            min_count,
            max_count,
        )
}

/// The refusal, if any, that the pool of recorders and the bounds of the
/// counts meet.
pub open spec fn recorder_error(employees: Seq<Employee>, min_count: int, max_count: int) -> Option<
    ConfigError,
> {
    if employees.len() == 0 {
        Some(ConfigError::EmptyPool)
    } else if min_count > max_count {
        Some(ConfigError::InvalidRange)
    } else {
        None
    }
}

/// The refusal, if any, with which `expand_headcount_report_vec` answers.
pub open spec fn expand_headcount_error(
    employees: Seq<Employee>,
    min_count: int,
    max_count: int,
    from: int,
    to: int,
    interval: int,
) -> Option<ConfigError> {
    if recorder_error(employees, min_count, max_count) is Some {
        recorder_error(employees, min_count, max_count)
    } else {
        window_error(from, to, interval)
    }
}

fn append_headcount_series(
    rng: &mut RandomSource,
    reports: &mut Vec<HeadcountReport>,
    herds: &Vec<Herd>,
    employees: &Vec<Employee>,
    min_count: u32,
    max_count: u32,
    from: i64,
    to: i64,
    interval: i64,
)
    requires
        recorder_error(employees@, min_count as int, max_count as int) is None,
        window_error(from as int, to as int, interval as int) is None,
    ensures
        headcount_reports_appended(
            old(reports)@,
            final(reports)@,
            herds@,
            employees@,
            min_count as int,
            max_count as int,
            from as int,
            interval as int,
            spec_report_count(from as int, to as int, interval as int),
        ),
        employees_wf(employees@) && herds_identified(herds@) && headcounts_wf(
            old(reports)@,
            employees@.len() as int,
            herds@.len() as int,
        ) ==> headcounts_wf(final(reports)@, employees@.len() as int, herds@.len() as int),
{
    let ghost before = reports@;
    let ghost keeps_wf = employees_wf(employees@) && herds_identified(herds@) && headcounts_wf(
        before,
        employees@.len() as int,
        herds@.len() as int,
    );
    let per_herd = report_count(from, to, interval);
    let mut h: usize = 0;
    while h < herds.len()
        invariant
            h <= herds@.len(),
            recorder_error(employees@, min_count as int, max_count as int) is None,
            window_error(from as int, to as int, interval as int) is None,
            per_herd == spec_report_count(from as int, to as int, interval as int),
            reports@.len() == before.len() + h * per_herd,
            before.is_prefix_of(reports@),
            forall|g: int, i: int|
                0 <= g < h && 0 <= i < per_herd ==> is_headcount_of(
                    reports@[before.len() + #[trigger] series_position(g, per_herd as int, i)],
                    before.len() + series_position(g, per_herd as int, i),
                    herds@[g],
                    employees@,
                    report_time(from as int, interval as int, i),
                    min_count as int,
                    max_count as int,
                ),
            keeps_wf == (employees_wf(employees@) && herds_identified(herds@) && headcounts_wf(
                before,
                employees@.len() as int,
                herds@.len() as int,
            )),
            keeps_wf ==> headcounts_wf(reports@, employees@.len() as int, herds@.len() as int),
        decreases herds@.len() - h,
    {
        let ghost series_start = reports@.len();
        let mut instant: i64 = from;
        let mut j: u64 = 0;
        proof {
            assert(h * per_herd + per_herd == (h + 1) * per_herd) by (nonlinear_arith);
        }
        while j < per_herd
            invariant
                j <= per_herd,
                h < herds@.len(),
                recorder_error(employees@, min_count as int, max_count as int) is None,
                window_error(from as int, to as int, interval as int) is None,
                per_herd == spec_report_count(from as int, to as int, interval as int),
                j < per_herd ==> instant == report_time(from as int, interval as int, j as int),
                series_start == before.len() + h * per_herd,
                reports@.len() == series_start + j,
                before.is_prefix_of(reports@),
                forall|g: int, i: int|
                    0 <= g < h && 0 <= i < per_herd ==> is_headcount_of(
                        reports@[before.len() + #[trigger] series_position(g, per_herd as int, i)],
                        before.len() + series_position(g, per_herd as int, i),
                        herds@[g],
                        employees@,
                        report_time(from as int, interval as int, i),
                        min_count as int,
                        max_count as int,
                    ),
                forall|i: int|
                    0 <= i < j ==> is_headcount_of(
                        reports@[#[trigger] (series_start + i)],
                        series_start + i,
                        herds@[h as int],
                        employees@,
                        report_time(from as int, interval as int, i),
                        min_count as int,
                        max_count as int,
                    ),
                keeps_wf == (employees_wf(employees@) && herds_identified(herds@) && headcounts_wf(
                    before,
                    employees@.len() as int,
                    herds@.len() as int,
                )),
                keeps_wf ==> headcounts_wf(reports@, employees@.len() as int, herds@.len() as int),
            decreases per_herd - j,
        {
            let ghost earlier = reports@;
            let recorder: &Employee = match rng.pick(employees.as_slice()) {
                Ok(recorder) => recorder,
                Err(_) => &employees[0],
            };
            let quantity: u32 = match rng.uniform_inclusive(min_count as u64, max_count as u64) {
                Ok(quantity) => quantity as u32,
                Err(_) => min_count,
            };
            let id = reports.len();
            let report = HeadcountReport::new(id, recorder, &herds[h], instant, quantity);
            reports.push(report);
            proof {
                assert(is_employee_id(report.employee_id, employees@)) by {
                    let e = choose|e: int| 0 <= e < employees@.len() && employees@[e] == *recorder;
                    assert(employees@[e].id == report.employee_id);
                }
                assert(before.is_prefix_of(reports@)) by {
                    assert(reports@.subrange(0, before.len() as int) =~= earlier.subrange(
                        0,
                        before.len() as int,
                    ));
                }
                assert forall|g: int, i: int|
                    0 <= g < h && 0 <= i < per_herd implies is_headcount_of(
                    reports@[before.len() + #[trigger] series_position(g, per_herd as int, i)],
                    before.len() + series_position(g, per_herd as int, i),
                    herds@[g],
                    employees@,
                    report_time(from as int, interval as int, i),
                    min_count as int,
                    max_count as int,
                ) by {
                    lemma_series_position_bound(g, per_herd as int, i, h as int);
                    let position = before.len() + series_position(g, per_herd as int, i);
                    assert(reports@[position] == earlier[position]);
                }
                assert forall|i: int| 0 <= i < j + 1 implies is_headcount_of(
                    reports@[#[trigger] (series_start + i)],
                    series_start + i,
                    herds@[h as int],
                    employees@,
                    report_time(from as int, interval as int, i),
                    min_count as int,
                    max_count as int,
                ) by {
                    if i < j {
                        assert(reports@[series_start + i] == earlier[series_start + i]);
                    }
                }
                if keeps_wf {
                    let e = choose|e: int|
                        0 <= e < employees@.len() && (#[trigger] employees@[e]).id
                            == report.employee_id;
                    assert forall|i: int| 0 <= i < reports@.len() implies {
                        &&& (#[trigger] reports@[i]).id == i
                        &&& reports@[i].employee_id < employees@.len()
                        &&& reports@[i].herd_id < herds@.len()
                    } by {
                        if i < earlier.len() {
                            assert(reports@[i] == earlier[i]);
                        }
                    }
                }
            }
            j = j + 1;
            if j < per_herd {
                proof {
                    lemma_report_times_fill_window(
                        from as int,
                        to as int,
                        interval as int,
                        j as int,
                    );
                    assert(report_time(from as int, interval as int, j as int) == report_time(
                        from as int,
                        interval as int,
                        j - 1,
                    ) + interval) by (nonlinear_arith);
                }
                instant = instant + interval;
            }
        }
        proof {
            assert forall|g: int, i: int|
                0 <= g < h + 1 && 0 <= i < per_herd implies is_headcount_of(
                reports@[before.len() + #[trigger] series_position(g, per_herd as int, i)],
                before.len() + series_position(g, per_herd as int, i),
                herds@[g],
                employees@,
                report_time(from as int, interval as int, i),
                min_count as int,
                max_count as int,
            ) by {
                if g == h {
                    assert(before.len() + series_position(g, per_herd as int, i) == series_start
                        + i);
                }
            }
        }
        h = h + 1;
    }
}

/// Appends, for every herd, one count for each instant `from_when`,
/// `from_when + report_interval`, ... before `to_when`. The recorder is
/// drawn uniformly from the employees and the quantity uniformly from
/// `min_count` up to `max_count`, both included. Refuses, before anything
/// is drawn, an empty pool of employees, inverted bounds, and a window that
/// `window_error` refuses.
pub fn expand_headcount_report_vec(
    rng: &mut RandomSource,
    reports: &mut Vec<HeadcountReport>,
    herds: &Vec<Herd>,
    employees: &Vec<Employee>,
    min_count: u32,
    max_count: u32,
    from_when: i64,
    to_when: i64,
    report_interval: i64,
) -> (outcome: Result<(), ConfigError>)
    ensures
        outcome is Err <==> expand_headcount_error(
            employees@,
            min_count as int,
            max_count as int,
            from_when as int,
            to_when as int,
            report_interval as int,
        ) is Some,
        outcome is Err ==> Some(outcome->Err_0) == expand_headcount_error(
            employees@,
            min_count as int,
            max_count as int,
            from_when as int,
            to_when as int,
            report_interval as int,
        ) && final(reports)@ == old(reports)@ && *final(rng) == *old(rng),
        outcome is Ok ==> headcount_reports_appended(
            old(reports)@,
            final(reports)@,
            herds@,
            employees@,
            min_count as int,
            max_count as int,
            from_when as int,
            report_interval as int,
            spec_report_count(from_when as int, to_when as int, report_interval as int),
        ),
        employees_wf(employees@) && herds_identified(herds@) && headcounts_wf(
            old(reports)@,
            employees@.len() as int,
            herds@.len() as int,
        ) ==> headcounts_wf(final(reports)@, employees@.len() as int, herds@.len() as int),
{
    if employees.len() == 0 {
        return Err(ConfigError::EmptyPool);
    }
    if min_count > max_count {
        return Err(ConfigError::InvalidRange);
    }
    match check_window(from_when, to_when, report_interval) {
        Ok(()) => {},
        Err(refusal) => {
            return Err(refusal);
        },
    }
    append_headcount_series(
        rng,
        reports,
        herds,
        employees,
        min_count,
        max_count,
        from_when,
        to_when,
        report_interval,
    );
    Ok(())
}

/// The refusal, if any, with which `generate_headcount_report_vec` answers
/// when the series is to end at `last`.
pub open spec fn generate_headcount_error(
    employees: Seq<Employee>,
    min_count: int,
    max_count: int,
    last: int,
    interval: int,
    count_per_herd: int,
) -> Option<ConfigError> {
    if recorder_error(employees, min_count, max_count) is Some {
        recorder_error(employees, min_count, max_count)
    } else {
        series_error(last, interval, count_per_herd)
    }
}

/// What `generate_headcount_report_vec` returns when the series is to end
/// at `last`.
pub open spec fn is_headcount_series_until(
    outcome: Result<Vec<HeadcountReport>, ConfigError>,
    count_per_herd: int,
    herds: Seq<Herd>,
    employees: Seq<Employee>,
    min_count: int,
    max_count: int,
    last: int,
    report_interval: int,
) -> bool {
    &&& outcome is Err <==> generate_headcount_error(
        employees,
        min_count,
        max_count,
        last,
        report_interval,
        count_per_herd,
    ) is Some
    &&& outcome is Err ==> Some(outcome->Err_0) == generate_headcount_error(
        employees,
        min_count,
        max_count,
        last,
        report_interval,
        count_per_herd,
    )
    &&& outcome is Ok ==> headcount_reports_appended(
        Seq::<HeadcountReport>::empty(),
        outcome->Ok_0@,
        herds,
        employees,
        min_count,
        max_count,
        spec_window_start(last, report_interval, count_per_herd),
        report_interval,
        count_per_herd,
    )
}

/// A fresh list of counts: for every herd `count_per_herd` counts,
/// `report_interval` seconds apart, the last of them one interval before
/// `last_report_dt`. Recorder and quantity are drawn as
/// `expand_headcount_report_vec` draws them.
pub fn generate_headcount_report_vec_until(
    rng: &mut RandomSource,
    count_per_herd: usize,
    herds: &Vec<Herd>,
    employees: &Vec<Employee>,
    min_count: u32,
    max_count: u32,
    last_report_dt: i64,
    report_interval: i64,
) -> (outcome: Result<Vec<HeadcountReport>, ConfigError>)
    ensures
        is_headcount_series_until(
            outcome,
            count_per_herd as int,
            herds@,
            employees@,
            min_count as int,
            max_count as int,
            last_report_dt as int,
            report_interval as int,
        ),
        outcome is Err ==> *final(rng) == *old(rng),
{
    if employees.len() == 0 {
        return Err(ConfigError::EmptyPool);
    }
    if min_count > max_count {
        return Err(ConfigError::InvalidRange);
    }
    let first = match window_start(last_report_dt, report_interval, count_per_herd) {
        Ok(first) => first,
        Err(refusal) => {
            return Err(refusal);
        },
    };
    let mut reports: Vec<HeadcountReport> = Vec::new();
    if count_per_herd > 0 {
        proof {
            lemma_series_spans_window(
                first as int,
                last_report_dt as int,
                report_interval as int,
                count_per_herd as int,
            );
        }
        append_headcount_series(
            rng,
            &mut reports,
            herds,
            employees,
            min_count,
            max_count,
            first,
            last_report_dt,
            report_interval,
        );
    } else {
        assert(herds@.len() * 0 == 0);
    }
    Ok(reports)
}

/// The same, with the series ending at the present local time where no
/// `last_report_dt` is given.
pub fn generate_headcount_report_vec(
    rng: &mut RandomSource,
    count_per_herd: usize,
    herds: &Vec<Herd>,
    employees: &Vec<Employee>,
    min_count: u32,
    max_count: u32,
    last_report_dt: Option<i64>,
    report_interval: i64,
) -> (outcome: Result<Vec<HeadcountReport>, ConfigError>)
    ensures
        exists|last: int|
            (last_report_dt is Some ==> last == last_report_dt->0)
                && #[trigger] is_headcount_series_until(
                outcome,
                count_per_herd as int,
                herds@,
                employees@,
                min_count as int,
                max_count as int,
                last,
                report_interval as int,
            ),
        outcome is Err ==> *final(rng) == *old(rng),
{
    let last = match last_report_dt {
        Some(last) => last,
        None => local_clock_seconds(),
    };
    let outcome = generate_headcount_report_vec_until(
        rng,
        count_per_herd,
        herds,
        employees,
        min_count,
        max_count,
        last,
        report_interval,
    );
    assert(is_headcount_series_until(
        outcome,
        count_per_herd as int,
        herds@,
        employees@,
        min_count as int,
        max_count as int,
        last as int,
        report_interval as int,
    ));
    outcome
}

} // verus!
