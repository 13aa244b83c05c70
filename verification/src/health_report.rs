//! Health reports: one for each headcount, splitting the animals counted
//! into healthy, ill, severely ill and terminal ones.
use vstd::prelude::*;

use crate::employee::{employees_wf, is_employee_id, Employee};
use crate::error::ConfigError;
use crate::headcount_report::HeadcountReport;
use crate::herd::{herds_identified, Herd};
use crate::random::RandomSource;
use crate::share::{floor_share, spec_floor_share};

verus! {

/// One health report. The four counts add up to the quantity of the
/// headcount that the report was made for.
#[derive(Clone, Copy, Debug, PartialEq, Eq)]
pub struct HealthReport {
    pub id: usize,
    pub employee_id: usize,
    pub herd_id: usize,
    pub timestamp: i64,
    pub healthy_count: u32,
    pub ill_count: u32,
    pub severely_ill_count: u32,
    pub terminal_count: u32,
}

impl HealthReport {
    /// A report on `herd` made by `doctor`.
    pub fn new(
        id: usize,
        doctor: &Employee,
        herd: &Herd,
        timestamp: i64,
        healthy_count: u32,
        ill_count: u32,
        severely_ill_count: u32,
        terminal_count: u32,
    ) -> (report: Self)
        ensures
            report.id == id,
            report.employee_id == doctor.id,
            report.herd_id == herd.id,
            report.timestamp == timestamp,
            report.healthy_count == healthy_count,
            report.ill_count == ill_count,
            report.severely_ill_count == severely_ill_count,
            report.terminal_count == terminal_count,
    {
        HealthReport {
            id,
            employee_id: doctor.id,
            herd_id: herd.id,
            timestamp,
            healthy_count,
            ill_count,
            severely_ill_count,
            terminal_count,
        }
    }

    /// The number of animals that the report accounts for.
    pub open spec fn total(&self) -> int {
        self.healthy_count + self.ill_count + self.severely_ill_count + self.terminal_count
    }
}

/// The four counts of one report.
#[derive(Clone, Copy, Debug, PartialEq, Eq, Structural)]
pub struct HealthCounts {
    pub healthy: u32,
    pub ill: u32,
    pub severely_ill: u32,
    pub terminal: u32,
}

/// The smaller of two numbers.
pub open spec fn lesser(a: int, b: int) -> int {
    if a <= b {
        a
    } else {
        b
    }
}

/// How `quantity` animals split when the shares `ill_bp`, `severely_ill_bp`
/// and `terminal_bp` of them, each rounded down, are ill, severely ill and
/// terminal. Where the shares ask for more animals than there are, the ill
/// are served first, then the severely ill, then the terminal, each with
/// what is left; the healthy are the rest.
pub open spec fn spec_health_breakdown(
    quantity: int,
    ill_bp: int,
    severely_ill_bp: int,
    terminal_bp: int,
) -> (int, int, int, int) {
    let ill = lesser(spec_floor_share(quantity, ill_bp), quantity);
    let severely_ill = lesser(spec_floor_share(quantity, severely_ill_bp), quantity - ill);
    let terminal = lesser(spec_floor_share(quantity, terminal_bp), quantity - ill - severely_ill);
    (quantity - ill - severely_ill - terminal, ill, severely_ill, terminal)
}

/// `counts` holds the four parts of `spec_health_breakdown`.
pub open spec fn counts_follow(
    counts: HealthCounts,
    quantity: int,
    ill_bp: int,
    severely_ill_bp: int,
    terminal_bp: int,
) -> bool {
    (counts.healthy as int, counts.ill as int, counts.severely_ill as int, counts.terminal as int)
        == spec_health_breakdown(quantity, ill_bp, severely_ill_bp, terminal_bp)
}

/// Splits `quantity` animals by the three shares.
pub fn health_breakdown(
    quantity: u32,
    ill_bp: u32,
    severely_ill_bp: u32,
    terminal_bp: u32,
) -> (counts: HealthCounts)
    ensures
        counts_follow(
            counts,
            quantity as int,
            ill_bp as int,
            severely_ill_bp as int,
            terminal_bp as int,
        ),
        counts.healthy + counts.ill + counts.severely_ill + counts.terminal == quantity,
{
    let ill = clamp_to(floor_share(quantity, ill_bp), quantity);
    let severely_ill = clamp_to(floor_share(quantity, severely_ill_bp), quantity - ill);
    let terminal = clamp_to(floor_share(quantity, terminal_bp), quantity - ill - severely_ill);
    HealthCounts { healthy: quantity - ill - severely_ill - terminal, ill, severely_ill, terminal }
}

fn clamp_to(wanted: u64, available: u32) -> (granted: u32)
    ensures
        granted == lesser(wanted as int, available as int),
{
    if wanted <= available as u64 {
        wanted as u32
    } else {
        available
    }
}

/// Every report is identified by its position and names an employee and a
/// herd that exist.
pub open spec fn health_reports_wf(
    reports: Seq<HealthReport>,
    employee_count: int,
    herd_count: int,
) -> bool {
    forall|i: int|
        0 <= i < reports.len() ==> {
            &&& (#[trigger] reports[i]).id == i
            &&& reports[i].employee_id < employee_count
            &&& reports[i].herd_id < herd_count
        }
}

/// The counts of `report`.
pub open spec fn counts_of(report: HealthReport) -> HealthCounts {
    HealthCounts {
        healthy: report.healthy_count,
        ill: report.ill_count,
        severely_ill: report.severely_ill_count,
        terminal: report.terminal_count,
    }
}

/// `report`, recorded at `position`, was made for `headcount` by one of
/// `employees`: it is of the same herd and instant, and its counts split
/// the quantity counted by three shares that stay within the three maxima.
pub open spec fn is_health_report_of(
    report: HealthReport,
    position: int,
    headcount: HeadcountReport,
    employees: Seq<Employee>,
    herds: Seq<Herd>,
    ill_max_bp: int,
    severely_ill_max_bp: int,
    terminal_max_bp: int,
) -> bool {
    &&& report.id == position
    &&& report.herd_id == herds[headcount.herd_id as int].id
    &&& report.timestamp == headcount.timestamp
    &&& is_employee_id(report.employee_id, employees)
    &&& report.total() == headcount.quantity
    &&& exists|ill_bp: int, severely_ill_bp: int, terminal_bp: int|
        0 <= ill_bp <= ill_max_bp && 0 <= severely_ill_bp <= severely_ill_max_bp && 0
            <= terminal_bp <= terminal_max_bp && #[trigger] counts_follow(
            counts_of(report),
            headcount.quantity as int,
            ill_bp,
            severely_ill_bp,
            terminal_bp,
        )
}

/// `grown` is `before` followed by one report for each of `headcounts`, in
/// their order.
pub open spec fn health_reports_appended(
    before: Seq<HealthReport>,
    grown: Seq<HealthReport>,
    headcounts: Seq<HeadcountReport>,
    employees: Seq<Employee>,
    herds: Seq<Herd>,
    ill_max_bp: int,
    severely_ill_max_bp: int,
    terminal_max_bp: int,
) -> bool {
    &&& grown.len() == before.len() + headcounts.len()
    &&& before.is_prefix_of(grown)
    &&& forall|i: int|
        before.len() <= i < grown.len() ==> is_health_report_of(
            #[trigger] grown[i],
            i,
            headcounts[i - before.len()],
            employees,
            herds,
            ill_max_bp,
            severely_ill_max_bp,
            terminal_max_bp,
        )
}

/// The refusal, if any, with which
/// `expand_health_report_vec_for_headcount_vec` answers.
pub open spec fn expand_health_error(employees: Seq<Employee>) -> Option<ConfigError> {
    if employees.len() == 0 {
        Some(ConfigError::EmptyPool)
    } else {
        None
    }
}

/// Appends one health report for each of `headcount_reports`. The examiner
/// is drawn uniformly from the employees; the shares of ill, severely ill
/// and terminal animals are drawn independently and uniformly from zero up
/// to their maxima, in basis points, and the quantity counted is split by
/// them as `spec_health_breakdown` says. Refuses, before anything is drawn,
/// an empty pool of employees.
pub fn expand_health_report_vec_for_headcount_vec(
    rng: &mut RandomSource,
    health_reports: &mut Vec<HealthReport>,
    headcount_reports: &[HeadcountReport],
    employees: &Vec<Employee>,
    herds: &Vec<Herd>,
    ill_max_bp: u32,
    severely_ill_max_bp: u32,
    terminal_max_bp: u32,
) -> (outcome: Result<(), ConfigError>)
    requires
        forall|j: int|
            0 <= j < headcount_reports@.len() ==> (#[trigger] headcount_reports@[j]).herd_id
                < herds@.len(),
    ensures
        outcome is Err <==> expand_health_error(employees@) is Some,
        outcome is Err ==> Some(outcome->Err_0) == expand_health_error(employees@)
            && final(health_reports)@ == old(health_reports)@ && *final(rng) == *old(rng),
        outcome is Ok ==> health_reports_appended(
            old(health_reports)@,
            final(health_reports)@,
            headcount_reports@,
            employees@,
            herds@,
            ill_max_bp as int,
            severely_ill_max_bp as int,
            terminal_max_bp as int,
        ),
        employees_wf(employees@) && herds_identified(herds@) && health_reports_wf(
            old(health_reports)@,
            employees@.len() as int,
            herds@.len() as int,
        ) ==> health_reports_wf(
            final(health_reports)@,
            employees@.len() as int,
            herds@.len() as int,
        ),
{
    if employees.len() == 0 {
        return Err(ConfigError::EmptyPool);
    }
    let ghost before = health_reports@;
    let ghost keeps_wf = employees_wf(employees@) && herds_identified(herds@) && health_reports_wf(
        before,
        employees@.len() as int,
        herds@.len() as int,
    );
    let mut j: usize = 0;
    while j < headcount_reports.len()
        invariant
            j <= headcount_reports@.len(),
            employees@.len() > 0,
            forall|l: int|
                0 <= l < headcount_reports@.len() ==> (#[trigger] headcount_reports@[l]).herd_id
                    < herds@.len(),
            health_reports_appended(
                before,
                health_reports@,
                headcount_reports@.take(j as int),
                employees@,
                herds@,
                ill_max_bp as int,
                severely_ill_max_bp as int,
                terminal_max_bp as int,
            ),
            keeps_wf == (employees_wf(employees@) && herds_identified(herds@) && health_reports_wf(
                before,
                employees@.len() as int,
                herds@.len() as int,
            )),
            keeps_wf ==> health_reports_wf(
                health_reports@,
                employees@.len() as int,
                herds@.len() as int,
            ),
        decreases headcount_reports@.len() - j,
    {
        let headcount = headcount_reports[j];
        let doctor: &Employee = match rng.pick(employees.as_slice()) {
            Ok(doctor) => doctor,
            Err(_) => &employees[0],
        };
        let ill_bp = match rng.uniform_inclusive(0, ill_max_bp as u64) {
            Ok(drawn) => drawn as u32,
            Err(_) => 0,
        };
        let severely_ill_bp = match rng.uniform_inclusive(0, severely_ill_max_bp as u64) {
            Ok(drawn) => drawn as u32,
            Err(_) => 0,
        };
        let terminal_bp = match rng.uniform_inclusive(0, terminal_max_bp as u64) {
            Ok(drawn) => drawn as u32,
            Err(_) => 0,
        };
        let counts = health_breakdown(headcount.quantity, ill_bp, severely_ill_bp, terminal_bp);
        let id = health_reports.len();
        let report = HealthReport::new(
            id,
            doctor,
            &herds[headcount.herd_id],
            headcount.timestamp,
            counts.healthy,
            counts.ill,
            counts.severely_ill,
            counts.terminal,
        );
        health_reports.push(report);
        proof {
            assert(counts_of(report) == counts);
        }
        j = j + 1;
    }
    Ok(())
}

/// However large the three shares are, the four counts are never negative
/// and add up to the quantity.
pub proof fn lemma_breakdown_adds_up(
    quantity: int,
    ill_bp: int,
    severely_ill_bp: int,
    terminal_bp: int,
)
    requires
        quantity >= 0,
        ill_bp >= 0,
        severely_ill_bp >= 0,
        terminal_bp >= 0,
    ensures
        spec_health_breakdown(quantity, ill_bp, severely_ill_bp, terminal_bp).0 >= 0,
        spec_health_breakdown(quantity, ill_bp, severely_ill_bp, terminal_bp).1 >= 0,
        spec_health_breakdown(quantity, ill_bp, severely_ill_bp, terminal_bp).2 >= 0,
        spec_health_breakdown(quantity, ill_bp, severely_ill_bp, terminal_bp).3 >= 0,
        spec_health_breakdown(quantity, ill_bp, severely_ill_bp, terminal_bp).0
            + spec_health_breakdown(quantity, ill_bp, severely_ill_bp, terminal_bp).1
            + spec_health_breakdown(quantity, ill_bp, severely_ill_bp, terminal_bp).2
            + spec_health_breakdown(quantity, ill_bp, severely_ill_bp, terminal_bp).3 == quantity,
{
    lemma_floor_share_nonnegative(quantity, ill_bp);
    lemma_floor_share_nonnegative(quantity, severely_ill_bp);
    lemma_floor_share_nonnegative(quantity, terminal_bp);
}

/// A share of a quantity is never negative.
pub proof fn lemma_floor_share_nonnegative(quantity: int, share_bp: int)
    requires
        quantity >= 0,
        share_bp >= 0,
    ensures
        spec_floor_share(quantity, share_bp) >= 0,
{
    assert(quantity * share_bp >= 0) by (nonlinear_arith)
        requires
            quantity >= 0,
            share_bp >= 0,
    ;
}

/// Every health report that was appended for a headcount accounts for
/// exactly the animals counted.
pub proof fn lemma_appended_reports_add_up(
    before: Seq<HealthReport>,
    grown: Seq<HealthReport>,
    headcounts: Seq<HeadcountReport>,
    employees: Seq<Employee>,
    herds: Seq<Herd>,
    ill_max_bp: int,
    severely_ill_max_bp: int,
    terminal_max_bp: int,
    j: int,
)
    requires
        health_reports_appended(
            before,
            grown,
            headcounts,
            employees,
            herds,
            ill_max_bp,
            severely_ill_max_bp,
            terminal_max_bp,
        ),
        0 <= j < headcounts.len(),
    ensures
        grown[before.len() + j].healthy_count + grown[before.len() + j].ill_count + grown[before.len()
            + j].severely_ill_count + grown[before.len() + j].terminal_count
            == headcounts[j].quantity,
{
}

} // verus!
