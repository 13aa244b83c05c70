//! The snapshot: all stores of the farm together, and the expansion that
//! grows them over a window of time without ever breaking a reference
//! between them.
use vstd::prelude::*;
use vstd::slice::slice_subrange;

use crate::consistency::{
    lemma_employees_grown, lemma_health_follows, lemma_herds_founded, lemma_lifecycle_led,
    lemma_pastures_grown, lemma_prefix_keeps, lemma_resized_herds, lemma_species_grown_keeps_wf,
    lemma_stages_compose, lemma_stocked_animals_have_lifespan,
};
use crate::employee::{
    employees_expanded, employees_wf, expand_employee_error, expand_employee_vec, Employee,
};
use crate::error::ConfigError;
use crate::feeding_report::{
    expand_feeding_report_vec, feeding_chain_ok, feeding_reports_appended, feeding_reports_wf,
    FeedingReport,
};
use crate::headcount_report::{
    expand_headcount_report_vec, headcount_reports_appended, headcounts_wf, HeadcountReport,
};
use crate::health_report::{
    expand_health_report_vec_for_headcount_vec, health_reports_appended, health_reports_wf,
    HealthReport,
};
use crate::herd::{
    all_indices_known, expand_herd_error, expand_herd_vec, herds_wf, is_eligible_species_id, Herd,
};
use crate::livestock::{
    all_stockable, births_appended, butcher_all, butcher_livestock_vec, capacity_before,
    expand_livestock, is_cull_outcome, kill_off_livestock_vec, livestock_wf, sizes_match, Livestock,
};
use crate::pasture::{
    area_ranges_are_valid, expand_pasture_error, expand_pasture_vec, pastures_expanded,
    pastures_wf, Pasture, PastureAreaMinMax, PastureKind, PastureKindMap,
};
use crate::random::{is_distinct_selection, RandomSource};
use crate::share::ONE_HUNDRED_PERCENT;
use crate::species::{species_wf, Species, SpeciesAreaRequirements, SpeciesKind};
use crate::time::{
    check_window, spec_report_count, timestamp_in_range, window_error, MAX_LIFESPAN_DAYS,
};
use crate::warehouse::{
    enlarge_error, expand_warehouse_vec, randomly_enlarge_warehouses, warehouses_built,
    warehouses_enlarged, warehouses_expanded, warehouses_wf, Warehouse,
};

verus! {

/// All stores of the farm. A store only ever grows at its end, so the
/// position of an entity is its identity for good.
pub struct Snapshot {
    pastures: Vec<Pasture>,
    species: Vec<Species>,
    herds: Vec<Herd>,
    feeding_reports: Vec<FeedingReport>,
    livestock: Vec<Livestock>,
    employees: Vec<Employee>,
    health_reports: Vec<HealthReport>,
    warehouses: Vec<Warehouse>,
    headcount_reports: Vec<HeadcountReport>,
}

/// What a snapshot holds.
pub struct SnapshotView {
    pub pastures: Seq<Pasture>,
    pub species: Seq<Species>,
    pub herds: Seq<Herd>,
    pub feeding_reports: Seq<FeedingReport>,
    pub livestock: Seq<Livestock>,
    pub employees: Seq<Employee>,
    pub health_reports: Seq<HealthReport>,
    pub warehouses: Seq<Warehouse>,
    pub headcount_reports: Seq<HeadcountReport>,
}

impl View for Snapshot {
    type V = SnapshotView;

    closed spec fn view(&self) -> SnapshotView {
        SnapshotView {
            pastures: self.pastures@,
            species: self.species@,
            herds: self.herds@,
            feeding_reports: self.feeding_reports@,
            livestock: self.livestock@,
            employees: self.employees@,
            health_reports: self.health_reports@,
            warehouses: self.warehouses@,
            headcount_reports: self.headcount_reports@,
        }
    }
}

/// Every health report was made for the headcount at its own position: it
/// is of the same herd and instant and accounts for exactly the animals
/// counted.
pub open spec fn health_matches_headcounts(
    health_reports: Seq<HealthReport>,
    headcount_reports: Seq<HeadcountReport>,
) -> bool {
    &&& health_reports.len() == headcount_reports.len()
    &&& forall|i: int|
        0 <= i < health_reports.len() ==> {
            &&& (#[trigger] health_reports[i]).total() == headcount_reports[i].quantity
            &&& health_reports[i].herd_id == headcount_reports[i].herd_id
            &&& health_reports[i].timestamp == headcount_reports[i].timestamp
        }
}

impl SnapshotView {
    /// The stores are consistent, each in itself and with each other.
    pub open spec fn wf(&self) -> bool {
        &&& pastures_wf(self.pastures)
        &&& species_wf(self.species)
        &&& herds_wf(self.herds, self.pastures.len() as int, self.species.len() as int)
        &&& all_stockable(self.herds, self.species, self.pastures)
        &&& livestock_wf(self.livestock, self.herds)
        &&& sizes_match(self.herds, self.livestock)
        &&& employees_wf(self.employees)
        &&& warehouses_wf(self.warehouses, self.employees.len() as int)
        &&& feeding_reports_wf(self.feeding_reports, self.pastures.len() as int)
        &&& feeding_chain_ok(self.feeding_reports)
        &&& headcounts_wf(
            self.headcount_reports,
            self.employees.len() as int,
            self.herds.len() as int,
        )
        &&& health_reports_wf(
            self.health_reports,
            self.employees.len() as int,
            self.herds.len() as int,
        )
        &&& health_matches_headcounts(self.health_reports, self.headcount_reports)
    }
}

/// Every species that `species_idxs` names can be stocked on a pasture of
/// any kind.
pub open spec fn eligible_can_stock(species: Seq<Species>, species_idxs: Seq<usize>) -> bool {
    forall|k: int|
        0 <= k < species_idxs.len() ==> species[(#[trigger] species_idxs[k]) as int].can_stock_anywhere()
}

/// `grown` is `before`, its herds changed in size at most, followed by one
/// herd of an eligible species for each of the `new_pasture_count` pastures
/// from `first_new_pasture` on, in their order.
pub open spec fn herds_founded(
    before: Seq<Herd>,
    grown: Seq<Herd>,
    first_new_pasture: int,
    new_pasture_count: int,
    species: Seq<Species>,
    species_idxs: Seq<usize>,
) -> bool {
    &&& grown.len() == before.len() + new_pasture_count
    &&& forall|h: int|
        0 <= h < before.len() ==> {
            &&& (#[trigger] grown[h]).id == before[h].id
            &&& grown[h].pasture_id == before[h].pasture_id
            &&& grown[h].species_id == before[h].species_id
        }
    &&& forall|h: int|
        before.len() <= h < grown.len() ==> {
            &&& (#[trigger] grown[h]).id == h
            &&& grown[h].pasture_id == first_new_pasture + (h - before.len())
            &&& is_eligible_species_id(grown[h].species_id, species, species_idxs)
        }
}

/// `animal`, recorded at `position`, belongs to `herd` and was born in the
/// window from `earliest` up to, but not reaching, `latest`.
pub open spec fn was_born_into(
    animal: Livestock,
    herd: Herd,
    position: int,
    earliest: int,
    latest: int,
) -> bool {
    &&& animal.id == position
    &&& animal.herd_id == herd.id
    &&& animal.species_id == herd.species_id
    &&& earliest <= animal.birth < latest
}

/// `grown` is `before`, each animal untouched or newly disposed of,
/// followed, herd by herd, by as many animals born in the window as the
/// herd's capacity.
pub open spec fn livestock_grown(
    before: Seq<Livestock>,
    grown: Seq<Livestock>,
    herds: Seq<Herd>,
    species: Seq<Species>,
    pastures: Seq<Pasture>,
    earliest: int,
    latest: int,
) -> bool {
    &&& grown.len() == before.len() + capacity_before(herds, species, pastures, herds.len() as int)
    &&& forall|i: int| 0 <= i < before.len() ==> (#[trigger] before[i]).evolves_to(grown[i])
    &&& forall|h: int, i: int|
        0 <= h < herds.len() && before.len() + capacity_before(herds, species, pastures, h) <= i
            < before.len() + capacity_before(herds, species, pastures, h + 1) ==> was_born_into(
            #[trigger] grown[i],
            #[trigger] herds[h],
            i,
            earliest,
            latest,
        )
}

/// `after` is what the life cycle of one expansion makes of `before`:
/// `born` is `before` with the newborn animals of every herd, `culled` is
/// what culling with the drawn `selection` and lifetimes `offsets` makes of
/// `born`, and `after` is `culled` after slaughter.
pub open spec fn lifecycle_ran(
    before: Seq<Livestock>,
    born: Seq<Livestock>,
    culled: Seq<Livestock>,
    after: Seq<Livestock>,
    herds: Seq<Herd>,
    species: Seq<Species>,
    pastures: Seq<Pasture>,
    earliest: int,
    latest: int,
    kill_off_bp: int,
    selection: Seq<usize>,
    offsets: Seq<u64>,
) -> bool {
    &&& births_appended(before, born, herds, species, pastures, earliest, latest)
    &&& is_cull_outcome(born, culled, species, kill_off_bp, latest, selection, offsets)
    &&& after == butcher_all(culled, species, latest)
}

impl SnapshotView {
    /// The refusal, if any, with which `Snapshot::expand` answers.
    pub open spec fn expand_error(
        &self,
        from_when: int,
        to_when: int,
        reports_interval: int,
        pasture_ranges: PastureKindMap<PastureAreaMinMax>,
        species_for_herds: Seq<usize>,
        hired_employees_count: int,
        employee_names: Seq<&str>,
        employee_surnames: Seq<&str>,
        employee_salary_min: int,
        employee_salary_max: int,
        kill_off_bp: int,
        headcount_min_count: int,
        headcount_max_count: int,
    ) -> Option<ConfigError> {
        if window_error(from_when, to_when, reports_interval) is Some {
            window_error(from_when, to_when, reports_interval)
        } else if expand_pasture_error(pasture_ranges) is Some {
            expand_pasture_error(pasture_ranges)
        } else if expand_herd_error(self.species, species_for_herds) is Some {
            expand_herd_error(self.species, species_for_herds)
        } else if !eligible_can_stock(self.species, species_for_herds) {
            Some(ConfigError::UnsuitableSpecies)
        } else if expand_employee_error(
            employee_names,
            employee_surnames,
            employee_salary_min,
            employee_salary_max,
        ) is Some {
            expand_employee_error(
                employee_names,
                employee_surnames,
                employee_salary_min,
                employee_salary_max,
            )
        } else if self.employees.len() + hired_employees_count == 0 {
            Some(ConfigError::EmptyPool)
        } else if headcount_min_count > headcount_max_count {
            Some(ConfigError::InvalidRange)
        } else if kill_off_bp > ONE_HUNDRED_PERCENT {
            Some(ConfigError::InvalidPercentage)
        } else {
            None
        }
    }

    /// `after` is what one expansion makes of this snapshot.
    pub open spec fn grew_into(
        &self,
        after: SnapshotView,
        from_when: int,
        to_when: int,
        reports_interval: int,
        new_pastures: int,
        pasture_ranges: PastureKindMap<PastureAreaMinMax>,
        species_for_herds: Seq<usize>,
        hired_employees_count: int,
        employee_names: Seq<&str>,
        employee_surnames: Seq<&str>,
        employee_salary_min: int,
        employee_salary_max: int,
        new_warehouse_count: int,
        kill_off_bp: int,
        headcount_min_count: int,
        headcount_max_count: int,
        ill_max_bp: int,
        severely_ill_max_bp: int,
        terminal_max_bp: int,
    ) -> bool {
        &&& pastures_expanded(self.pastures, after.pastures, new_pastures, pasture_ranges)
        &&& after.species == self.species
        &&& herds_founded(
            self.herds,
            after.herds,
            self.pastures.len() as int,
            new_pastures,
            self.species,
            species_for_herds,
        )
        &&& employees_expanded(
            self.employees,
            after.employees,
            hired_employees_count,
            employee_names,
            employee_surnames,
            employee_salary_min,
            employee_salary_max,
        )
        &&& exists|managers: Seq<usize>|
            #[trigger] is_distinct_selection(
                managers,
                after.employees.len() as int,
                warehouses_built(new_warehouse_count, after.employees.len() as int),
            ) && warehouses_expanded(self.warehouses, after.warehouses, after.employees, managers)
        &&& exists|
            born: Seq<Livestock>,
            culled: Seq<Livestock>,
            selection: Seq<usize>,
            offsets: Seq<u64>,
        |
            #[trigger] lifecycle_ran(
                self.livestock,
                born,
                culled,
                after.livestock,
                after.herds,
                after.species,
                after.pastures,
                from_when,
                to_when,
                kill_off_bp,
                selection,
                offsets,
            )
        &&& livestock_grown(
            self.livestock,
            after.livestock,
            after.herds,
            after.species,
            after.pastures,
            from_when,
            to_when,
        )
        &&& feeding_reports_appended(
            self.feeding_reports,
            after.feeding_reports,
            after.pastures,
            from_when,
            reports_interval,
            spec_report_count(from_when, to_when, reports_interval),
        )
        &&& headcount_reports_appended(
            self.headcount_reports,
            after.headcount_reports,
            after.herds,
            after.employees,
            headcount_min_count,
            headcount_max_count,
            from_when,
            reports_interval,
            spec_report_count(from_when, to_when, reports_interval),
        )
        &&& health_reports_appended(
            self.health_reports,
            after.health_reports,
            after.headcount_reports.subrange(
                self.headcount_reports.len() as int,
                after.headcount_reports.len() as int,
            ),
            after.employees,
            after.herds,
            ill_max_bp,
            severely_ill_max_bp,
            terminal_max_bp,
        )
    }
}

/// The herds of `others` are those of `herds`, changed in size at most.
pub open spec fn same_links(herds: Seq<Herd>, others: Seq<Herd>) -> bool {
    &&& others.len() == herds.len()
    &&& forall|h: int|
        0 <= h < herds.len() ==> {
            &&& (#[trigger] others[h]).id == herds[h].id
            &&& others[h].pasture_id == herds[h].pasture_id
            &&& others[h].species_id == herds[h].species_id
        }
}

/// `after` is `before` with new pastures, herds, feeding reports, employees
/// and warehouses, and nothing else changed.
pub(crate) open spec fn structure_grew(
    before: SnapshotView,
    after: SnapshotView,
    from_when: int,
    to_when: int,
    reports_interval: int,
    new_pastures: int,
    pasture_ranges: PastureKindMap<PastureAreaMinMax>,
    species_for_herds: Seq<usize>,
    hired_employees_count: int,
    employee_names: Seq<&str>,
    employee_surnames: Seq<&str>,
    employee_salary_min: int,
    employee_salary_max: int,
    new_warehouse_count: int,
) -> bool {
    &&& pastures_expanded(before.pastures, after.pastures, new_pastures, pasture_ranges)
    &&& after.species == before.species
    &&& herds_founded(
        before.herds,
        after.herds,
        before.pastures.len() as int,
        new_pastures,
        before.species,
        species_for_herds,
    )
    &&& employees_expanded(
        before.employees,
        after.employees,
        hired_employees_count,
        employee_names,
        employee_surnames,
        employee_salary_min,
        employee_salary_max,
    )
    &&& exists|managers: Seq<usize>|
        #[trigger] is_distinct_selection(
            managers,
            after.employees.len() as int,
            warehouses_built(new_warehouse_count, after.employees.len() as int),
        ) && warehouses_expanded(before.warehouses, after.warehouses, after.employees, managers)
    &&& feeding_reports_appended(
        before.feeding_reports,
        after.feeding_reports,
        after.pastures,
        from_when,
        reports_interval,
        spec_report_count(from_when, to_when, reports_interval),
    )
    &&& after.livestock == before.livestock
    &&& after.headcount_reports == before.headcount_reports
    &&& after.health_reports == before.health_reports
}

/// `after` is `before` after births, culling and slaughter, and nothing
/// else changed but the sizes of the herds.
pub(crate) open spec fn lifecycle_led(
    before: SnapshotView,
    after: SnapshotView,
    from_when: int,
    to_when: int,
    kill_off_bp: int,
) -> bool {
    &&& after == (SnapshotView { livestock: after.livestock, herds: after.herds, ..before })
    &&& same_links(before.herds, after.herds)
    &&& exists|
        born: Seq<Livestock>,
        culled: Seq<Livestock>,
        selection: Seq<usize>,
        offsets: Seq<u64>,
    |
        #[trigger] lifecycle_ran(
            before.livestock,
            born,
            culled,
            after.livestock,
            after.herds,
            after.species,
            after.pastures,
            from_when,
            to_when,
            kill_off_bp,
            selection,
            offsets,
        )
    &&& livestock_grown(
        before.livestock,
        after.livestock,
        after.herds,
        after.species,
        after.pastures,
        from_when,
        to_when,
    )
}

/// `after` is `before` with new headcounts and their health reports, and
/// nothing else changed.
pub(crate) open spec fn reports_led(
    before: SnapshotView,
    after: SnapshotView,
    from_when: int,
    to_when: int,
    reports_interval: int,
    headcount_min_count: int,
    headcount_max_count: int,
    ill_max_bp: int,
    severely_ill_max_bp: int,
    terminal_max_bp: int,
) -> bool {
    &&& after == (SnapshotView {
        headcount_reports: after.headcount_reports,
        health_reports: after.health_reports,
        ..before
    })
    &&& headcount_reports_appended(
        before.headcount_reports,
        after.headcount_reports,
        after.herds,
        after.employees,
        headcount_min_count,
        headcount_max_count,
        from_when,
        reports_interval,
        spec_report_count(from_when, to_when, reports_interval),
    )
    &&& health_reports_appended(
        before.health_reports,
        after.health_reports,
        after.headcount_reports.subrange(
            before.headcount_reports.len() as int,
            after.headcount_reports.len() as int,
        ),
        after.employees,
        after.herds,
        ill_max_bp,
        severely_ill_max_bp,
        terminal_max_bp,
    )
}

impl Snapshot {
    /// The stores are consistent.
    pub open spec fn wf(&self) -> bool {
        self@.wf()
    }

    /// A snapshot without any entity.
    pub fn new() -> (snapshot: Self)
        ensures
            snapshot.wf(),
            snapshot@.pastures.len() == 0,
            snapshot@.species.len() == 0,
            snapshot@.herds.len() == 0,
            snapshot@.feeding_reports.len() == 0,
            snapshot@.livestock.len() == 0,
            snapshot@.employees.len() == 0,
            snapshot@.health_reports.len() == 0,
            snapshot@.warehouses.len() == 0,
            snapshot@.headcount_reports.len() == 0,
    {
        Snapshot {
            pastures: Vec::new(),
            species: Vec::new(),
            herds: Vec::new(),
            feeding_reports: Vec::new(),
            livestock: Vec::new(),
            employees: Vec::new(),
            health_reports: Vec::new(),
            warehouses: Vec::new(),
            headcount_reports: Vec::new(),
        }
    }

    /// The store of pastures.
    pub fn pastures(&self) -> (store: &Vec<Pasture>)
        ensures
            store@ == self@.pastures,
    {
        &self.pastures
    }

    /// The store of species.
    pub fn species(&self) -> (store: &Vec<Species>)
        ensures
            store@ == self@.species,
    {
        &self.species
    }

    /// The store of herds.
    pub fn herds(&self) -> (store: &Vec<Herd>)
        ensures
            store@ == self@.herds,
    {
        &self.herds
    }

    /// The store of feeding reports.
    pub fn feeding_reports(&self) -> (store: &Vec<FeedingReport>)
        ensures
            store@ == self@.feeding_reports,
    {
        &self.feeding_reports
    }

    /// The store of animals.
    pub fn livestock(&self) -> (store: &Vec<Livestock>)
        ensures
            store@ == self@.livestock,
    {
        &self.livestock
    }

    /// The store of employees.
    pub fn employees(&self) -> (store: &Vec<Employee>)
        ensures
            store@ == self@.employees,
    {
        &self.employees
    }

    /// The store of health reports.
    pub fn health_reports(&self) -> (store: &Vec<HealthReport>)
        ensures
            store@ == self@.health_reports,
    {
        &self.health_reports
    }

    /// The store of warehouses.
    pub fn warehouses(&self) -> (store: &Vec<Warehouse>)
        ensures
            store@ == self@.warehouses,
    {
        &self.warehouses
    }

    /// The store of headcounts.
    pub fn headcount_reports(&self) -> (store: &Vec<HeadcountReport>)
        ensures
            store@ == self@.headcount_reports,
    {
        &self.headcount_reports
    }

    /// Adds a species and returns its id. Refuses a lifespan above
    /// `MAX_LIFESPAN_DAYS`.
    pub fn add_species(
        &mut self,
        name: &str,
        kind: SpeciesKind,
        lifespan_days: u64,
        area_requirements: Option<SpeciesAreaRequirements>,
    ) -> (outcome: Result<usize, ConfigError>)
        requires
            old(self).wf(),
        ensures
            final(self).wf(),
            outcome is Err <==> lifespan_days > MAX_LIFESPAN_DAYS,
            outcome is Err ==> outcome->Err_0 == ConfigError::InvalidRange && final(self)@ == old(
                self,
            )@,
            outcome is Ok ==> {
                &&& outcome->Ok_0 == old(self)@.species.len()
                &&& final(self)@.species.len() == old(self)@.species.len() + 1
                &&& old(self)@.species.is_prefix_of(final(self)@.species)
                &&& final(self)@.species.last().id == outcome->Ok_0
                &&& final(self)@.species.last().name@ == name@
                &&& final(self)@.species.last().kind == kind
                &&& final(self)@.species.last().lifespan_days == lifespan_days
                &&& final(self)@.species.last().area_requirements == area_requirements
                &&& final(self)@ == (SnapshotView {
                    species: final(self)@.species,
                    ..old(self)@
                })
            },
    {
        if lifespan_days > MAX_LIFESPAN_DAYS {
            return Err(ConfigError::InvalidRange);
        }
        let ghost before = self.species@;
        let id = self.species.len();
        self.species.push(Species::new(id, name, kind, lifespan_days, area_requirements));
        proof {
            lemma_species_grown_keeps_wf(*old(self), *self);
        }
        Ok(id)
    }

    /// Enlarges some of the warehouses, as `randomly_enlarge_warehouses`
    /// does, and leaves every other store as it is.
    pub fn enlarge_warehouses(
        &mut self,
        rng: &mut RandomSource,
        maximum_extra_area: u64,
        maximum_extra_volume: u64,
    ) -> (outcome: Result<(), ConfigError>)
        requires
            old(self).wf(),
        ensures
            final(self).wf(),
            outcome is Err <==> enlarge_error(
                old(self)@.warehouses,
                maximum_extra_area as int,
                maximum_extra_volume as int,
            ) is Some,
            outcome is Err ==> Some(outcome->Err_0) == enlarge_error(
                old(self)@.warehouses,
                maximum_extra_area as int,
                maximum_extra_volume as int,
            ) && final(self)@ == old(self)@ && *final(rng) == *old(rng),
            outcome is Ok ==> exists|selection: Seq<usize>|
                selection.len() < old(self)@.warehouses.len() && is_distinct_selection(
                    selection,
                    old(self)@.warehouses.len() as int,
                    selection.len() as int,
                ) && #[trigger] warehouses_enlarged(
                    old(self)@.warehouses,
                    final(self)@.warehouses,
                    selection,
                    maximum_extra_area as int,
                    maximum_extra_volume as int,
                ),
            final(self)@ == (SnapshotView { warehouses: final(self)@.warehouses, ..old(self)@ }),
    {
        randomly_enlarge_warehouses(
            rng,
            &mut self.warehouses,
            maximum_extra_area,
            maximum_extra_volume,
        )
    }

    /// Grows the snapshot over the window from `from_when` up to, but not
    /// reaching, `to_when`: new pastures, one herd on each of them, feeding
    /// reports for all pastures, new employees, new warehouses, newborn
    /// animals for all herds, culling, slaughter, headcounts for all herds,
    /// and a health report for each new headcount. Refuses, before anything
    /// is drawn or changed, whatever `expand_error` refuses.
    pub fn expand(
        &mut self,
        rng: &mut RandomSource,
        from_when: i64,
        to_when: i64,
        reports_interval: i64,
        new_pastures: usize,
        pasture_ranges: &PastureKindMap<PastureAreaMinMax>,
        species_for_herds: &[usize],
        hired_employees_count: usize,
        employee_names: &[&str],
        employee_surnames: &[&str],
        employee_salary_min: u64,
        employee_salary_max: u64,
        new_warehouse_count: usize,
        kill_off_bp: u32,
        headcount_min_count: u32,
        headcount_max_count: u32,
        ill_max_bp: u32,
        severely_ill_max_bp: u32,
        terminal_max_bp: u32,
    ) -> (outcome: Result<(), ConfigError>)
        requires
            old(self).wf(),
        ensures
            final(self).wf(),
            outcome is Err <==> old(self)@.expand_error(
                from_when as int,
                to_when as int,
                reports_interval as int,
                *pasture_ranges,
                species_for_herds@,
                hired_employees_count as int,
                employee_names@,
                employee_surnames@,
                employee_salary_min as int,
                employee_salary_max as int,
                kill_off_bp as int,
                headcount_min_count as int,
                headcount_max_count as int,
            ) is Some,
            outcome is Err ==> Some(outcome->Err_0) == old(self)@.expand_error(
                from_when as int,
                to_when as int,
                reports_interval as int,
                *pasture_ranges,
                species_for_herds@,
                hired_employees_count as int,
                employee_names@,
                employee_surnames@,
                employee_salary_min as int,
                employee_salary_max as int,
                kill_off_bp as int,
                headcount_min_count as int,
                headcount_max_count as int,
            ) && final(self)@ == old(self)@ && *final(rng) == *old(rng),
            outcome is Ok ==> old(self)@.grew_into(
                final(self)@,
                from_when as int,
                to_when as int,
                reports_interval as int,
                new_pastures as int,
                *pasture_ranges,
                species_for_herds@,
                hired_employees_count as int,
                employee_names@,
                employee_surnames@,
                employee_salary_min as int,
                employee_salary_max as int,
                new_warehouse_count as int,
                kill_off_bp as int,
                headcount_min_count as int,
                headcount_max_count as int,
                ill_max_bp as int,
                severely_ill_max_bp as int,
                terminal_max_bp as int,
            ),
    {
        match check_window(from_when, to_when, reports_interval) {
            Ok(()) => {},
            Err(refusal) => {
                return Err(refusal);
            },
        }
        if !area_ranges_are_valid(pasture_ranges) {
            return Err(ConfigError::InvalidRange);
        }
        if species_for_herds.len() == 0 {
            return Err(ConfigError::NoEligibleSpecies);
        }
        if !all_indices_known(species_for_herds, self.species.len()) {
            return Err(ConfigError::UnknownSpecies);
        }
        if !every_eligible_species_can_stock(&self.species, species_for_herds) {
            return Err(ConfigError::UnsuitableSpecies);
        }
        if employee_names.len() == 0 || employee_surnames.len() == 0 {
            return Err(ConfigError::EmptyPool);
        }
        if employee_salary_min >= employee_salary_max {
            return Err(ConfigError::InvalidRange);
        }
        if self.employees.len() == 0 && hired_employees_count == 0 {
            return Err(ConfigError::EmptyPool);
        }
        if headcount_min_count > headcount_max_count {
            return Err(ConfigError::InvalidRange);
        }
        if kill_off_bp > ONE_HUNDRED_PERCENT {
            return Err(ConfigError::InvalidPercentage);
        }
        let ghost before = self@;
        match self.grow_structure(
            rng,
            from_when,
            to_when,
            reports_interval,
            new_pastures,
            pasture_ranges,
            species_for_herds,
            hired_employees_count,
            employee_names,
            employee_surnames,
            employee_salary_min,
            employee_salary_max,
            new_warehouse_count,
        ) {
            Ok(()) => {},
            Err(refusal) => {
                return Err(refusal);
            },
        }
        let ghost structured = self@;
        match self.run_lifecycle(rng, from_when, to_when, kill_off_bp) {
            Ok(()) => {},
            Err(refusal) => {
                return Err(refusal);
            },
        }
        let ghost stocked = self@;
        match self.write_reports(
            rng,
            from_when,
            to_when,
            reports_interval,
            headcount_min_count,
            headcount_max_count,
            ill_max_bp,
            severely_ill_max_bp,
            terminal_max_bp,
        ) {
            Ok(()) => {},
            Err(refusal) => {
                return Err(refusal);
            },
        }
        proof {
            lemma_stages_compose(
                before,
                structured,
                stocked,
                self@,
                from_when as int,
                to_when as int,
                reports_interval as int,
                new_pastures as int,
                *pasture_ranges,
                species_for_herds@,
                hired_employees_count as int,
                employee_names@,
                employee_surnames@,
                employee_salary_min as int,
                employee_salary_max as int,
                new_warehouse_count as int,
                kill_off_bp as int,
                headcount_min_count as int,
                headcount_max_count as int,
                ill_max_bp as int,
                severely_ill_max_bp as int,
                terminal_max_bp as int,
            );
        }
        Ok(())
    }

    /// The first part of an expansion: new pastures, a herd on each of
    /// them, feeding reports, new employees and new warehouses.
    fn grow_structure(
        &mut self,
        rng: &mut RandomSource,
        from_when: i64,
        to_when: i64,
        reports_interval: i64,
        new_pastures: usize,
        pasture_ranges: &PastureKindMap<PastureAreaMinMax>,
        species_for_herds: &[usize],
        hired_employees_count: usize,
        employee_names: &[&str],
        employee_surnames: &[&str],
        employee_salary_min: u64,
        employee_salary_max: u64,
        new_warehouse_count: usize,
    ) -> (outcome: Result<(), ConfigError>)
        requires
            old(self).wf(),
            window_error(from_when as int, to_when as int, reports_interval as int) is None,
            expand_pasture_error(*pasture_ranges) is None,
            expand_herd_error(old(self)@.species, species_for_herds@) is None,
            eligible_can_stock(old(self)@.species, species_for_herds@),
            expand_employee_error(
                employee_names@,
                employee_surnames@,
                employee_salary_min as int,
                employee_salary_max as int,
            ) is None,
        ensures
            outcome is Ok,
            final(self).wf(),
            structure_grew(
                old(self)@,
                final(self)@,
                from_when as int,
                to_when as int,
                reports_interval as int,
                new_pastures as int,
                *pasture_ranges,
                species_for_herds@,
                hired_employees_count as int,
                employee_names@,
                employee_surnames@,
                employee_salary_min as int,
                employee_salary_max as int,
                new_warehouse_count as int,
            ),
    {
        let ghost before = self@;
        let old_pasture_count = self.pastures.len();
        match expand_pasture_vec(rng, &mut self.pastures, new_pastures, pasture_ranges) {
            Ok(()) => {},
            Err(refusal) => {
                return Err(refusal);
            },
        }
        proof {
            lemma_pastures_grown(
                before.pastures,
                self.pastures@,
                self.herds@,
                self.species@,
                self.feeding_reports@,
            );
        }
        let pasture_count = self.pastures.len();
        match expand_herd_vec(
            rng,
            &mut self.herds,
            slice_subrange(self.pastures.as_slice(), old_pasture_count, pasture_count),
            self.species.as_slice(),
            species_for_herds,
        ) {
            Ok(()) => {},
            Err(refusal) => {
                return Err(refusal);
            },
        }
        proof {
            lemma_herds_founded(
                before.herds,
                self.herds@,
                self.pastures@,
                old_pasture_count as int,
                self.species@,
                species_for_herds@,
                self.livestock@,
                self.headcount_reports@,
                self.health_reports@,
                self.employees@.len() as int,
            );
        }
        match expand_feeding_report_vec(
            rng,
            &mut self.feeding_reports,
            &self.pastures,
            from_when,
            to_when,
            reports_interval,
        ) {
            Ok(()) => {},
            Err(refusal) => {
                return Err(refusal);
            },
        }
        match expand_employee_vec(
            rng,
            &mut self.employees,
            hired_employees_count,
            employee_names,
            employee_surnames,
            employee_salary_min,
            employee_salary_max,
        ) {
            Ok(()) => {},
            Err(refusal) => {
                return Err(refusal);
            },
        }
        proof {
            lemma_employees_grown(
                before.employees,
                self.employees@,
                self.warehouses@,
                self.headcount_reports@,
                self.health_reports@,
                self.herds@.len() as int,
            );
        }
        expand_warehouse_vec(rng, &mut self.warehouses, new_warehouse_count, &self.employees);
        Ok(())
    }

    /// The second part of an expansion: births, culling and slaughter.
    fn run_lifecycle(
        &mut self,
        rng: &mut RandomSource,
        from_when: i64,
        to_when: i64,
        kill_off_bp: u32,
    ) -> (outcome: Result<(), ConfigError>)
        requires
            old(self).wf(),
            timestamp_in_range(from_when as int),
            timestamp_in_range(to_when as int),
            from_when < to_when,
            kill_off_bp <= ONE_HUNDRED_PERCENT,
        ensures
            outcome is Ok,
            final(self).wf(),
            lifecycle_led(
                old(self)@,
                final(self)@,
                from_when as int,
                to_when as int,
                kill_off_bp as int,
            ),
    {
        let ghost before = self@;
        match expand_livestock(
            rng,
            &mut self.livestock,
            &mut self.herds,
            &self.species,
            &self.pastures,
            from_when,
            to_when,
        ) {
            Ok(()) => {},
            Err(refusal) => {
                return Err(refusal);
            },
        }
        let ghost livestock_born = self.livestock@;
        let ghost herds_stocked = self.herds@;
        proof {
            lemma_resized_herds(
                before.herds,
                livestock_born,
                self.species@,
                self.pastures@,
                before.herds.len() as int,
            );
            lemma_stocked_animals_have_lifespan(
                livestock_born,
                herds_stocked,
                self.species@,
                self.pastures@,
            );
        }
        match kill_off_livestock_vec(
            rng,
            &mut self.livestock,
            &mut self.herds,
            kill_off_bp,
            &self.species,
            to_when,
        ) {
            Ok(()) => {},
            Err(refusal) => {
                return Err(refusal);
            },
        }
        let ghost livestock_culled = self.livestock@;
        let ghost herds_culled = self.herds@;
        let ghost (selection, offsets) = choose|selection: Seq<usize>, offsets: Seq<u64>|
            is_cull_outcome(
                livestock_born,
                livestock_culled,
                self.species@,
                kill_off_bp as int,
                to_when as int,
                selection,
                offsets,
            );
        proof {
            lemma_resized_herds(
                herds_stocked,
                livestock_culled,
                self.species@,
                self.pastures@,
                herds_stocked.len() as int,
            );
        }
        butcher_livestock_vec(&mut self.livestock, &mut self.herds, &self.species, to_when);
        proof {
            lemma_resized_herds(
                herds_culled,
                self.livestock@,
                self.species@,
                self.pastures@,
                herds_culled.len() as int,
            );
            lemma_lifecycle_led(
                before,
                self@,
                livestock_born,
                livestock_culled,
                herds_stocked,
                herds_culled,
                from_when as int,
                to_when as int,
                kill_off_bp as int,
                selection,
                offsets,
            );
        }
        Ok(())
    }

    /// The third part of an expansion: headcounts, and a health report for
    /// each new headcount.
    fn write_reports(
        &mut self,
        rng: &mut RandomSource,
        from_when: i64,
        to_when: i64,
        reports_interval: i64,
        headcount_min_count: u32,
        headcount_max_count: u32,
        ill_max_bp: u32,
        severely_ill_max_bp: u32,
        terminal_max_bp: u32,
    ) -> (outcome: Result<(), ConfigError>)
        requires
            old(self).wf(),
            old(self)@.employees.len() > 0,
            headcount_min_count <= headcount_max_count,
            window_error(from_when as int, to_when as int, reports_interval as int) is None,
        ensures
            outcome is Ok,
            final(self).wf(),
            reports_led(
                old(self)@,
                final(self)@,
                from_when as int,
                to_when as int,
                reports_interval as int,
                headcount_min_count as int,
                headcount_max_count as int,
                ill_max_bp as int,
                severely_ill_max_bp as int,
                terminal_max_bp as int,
            ),
    {
        let ghost before = self@;
        let old_headcount_report_count = self.headcount_reports.len();
        match expand_headcount_report_vec(
            rng,
            &mut self.headcount_reports,
            &self.herds,
            &self.employees,
            headcount_min_count,
            headcount_max_count,
            from_when,
            to_when,
            reports_interval,
        ) {
            Ok(()) => {},
            Err(refusal) => {
                return Err(refusal);
            },
        }
        let headcount_report_count = self.headcount_reports.len();
        proof {
            lemma_prefix_keeps(before.headcount_reports, self.headcount_reports@);
        }
        match expand_health_report_vec_for_headcount_vec(
            rng,
            &mut self.health_reports,
            slice_subrange(
                self.headcount_reports.as_slice(),
                old_headcount_report_count,
                headcount_report_count,
            ),
            &self.employees,
            &self.herds,
            ill_max_bp,
            severely_ill_max_bp,
            terminal_max_bp,
        ) {
            Ok(()) => {},
            Err(refusal) => {
                return Err(refusal);
            },
        }
        proof {
            lemma_health_follows(
                before.health_reports,
                self.health_reports@,
                before.headcount_reports,
                self.headcount_reports@,
                self.employees@,
                self.herds@,
                ill_max_bp as int,
                severely_ill_max_bp as int,
                terminal_max_bp as int,
            );
        }
        Ok(())
    }
}

fn every_eligible_species_can_stock(species: &Vec<Species>, species_idxs: &[usize]) -> (ok: bool)
    requires
        forall|k: int|
            0 <= k < species_idxs@.len() ==> (#[trigger] species_idxs@[k]) < species@.len(),
    ensures
        ok == eligible_can_stock(species@, species_idxs@),
{
    let mut k: usize = 0;
    while k < species_idxs.len()
        invariant
            k <= species_idxs@.len(),
            forall|l: int|
                0 <= l < species_idxs@.len() ==> (#[trigger] species_idxs@[l]) < species@.len(),
            forall|l: int|
                0 <= l < k ==> species@[(#[trigger] species_idxs@[l]) as int].can_stock_anywhere(),
        decreases species_idxs@.len() - k,
    {
        let candidate = &species[species_idxs[k]];
        if candidate.lifespan_days == 0 || candidate.area_needed(PastureKind::Open) == 0
            || candidate.area_needed(PastureKind::Covered) == 0 || candidate.area_needed(
            PastureKind::Individual,
        ) == 0 {
            return false;
        }
        k = k + 1;
    }
    true
}

/// In a consistent snapshot every herd names a pasture and a species that
/// exist.
pub proof fn lemma_herds_name_existing(snapshot: SnapshotView, h: int)
    requires
        snapshot.wf(),
        0 <= h < snapshot.herds.len(),
    ensures
        snapshot.herds[h].id == h,
        snapshot.herds[h].pasture_id < snapshot.pastures.len(),
        snapshot.herds[h].species_id < snapshot.species.len(),
{
}

/// In a consistent snapshot every health report accounts for exactly the
/// animals of the headcount at its position.
pub proof fn lemma_health_counts_add_up(snapshot: SnapshotView, i: int)
    requires
        snapshot.wf(),
        0 <= i < snapshot.health_reports.len(),
    ensures
        i < snapshot.headcount_reports.len(),
        snapshot.health_reports[i].healthy_count + snapshot.health_reports[i].ill_count
            + snapshot.health_reports[i].severely_ill_count
            + snapshot.health_reports[i].terminal_count
            == snapshot.headcount_reports[i].quantity,
{
}

/// The herds that an expansion founds stand on the pastures that the same
/// expansion made, one on each, and are of species that were eligible.
pub proof fn lemma_new_herds_stand_on_new_pastures(
    before: Seq<Herd>,
    grown: Seq<Herd>,
    first_new_pasture: int,
    new_pasture_count: int,
    species: Seq<Species>,
    species_idxs: Seq<usize>,
    h: int,
)
    requires
        herds_founded(before, grown, first_new_pasture, new_pasture_count, species, species_idxs),
        species_wf(species),
        before.len() <= h < grown.len(),
    ensures
        first_new_pasture <= grown[h].pasture_id < first_new_pasture + new_pasture_count,
        species_idxs.contains(grown[h].species_id),
{
    let k = choose|k: int|
        0 <= k < species_idxs.len() && (#[trigger] species_idxs[k]) < species.len()
            && species[species_idxs[k] as int].id == grown[h].species_id;
}

} // verus!
