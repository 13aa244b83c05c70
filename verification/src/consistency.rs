//! Why the stores of a snapshot stay consistent with each other while one
//! of them grows or changes, and why the parts of an expansion add up to the
//! expansion.
use vstd::prelude::*;

use crate::employee::Employee;
use crate::feeding_report::{feeding_reports_wf, FeedingReport};
use crate::headcount_report::{headcounts_wf, HeadcountReport};
use crate::health_report::{health_reports_appended, health_reports_wf, HealthReport};
use crate::herd::{herds_expanded, herds_identified, herds_wf, Herd};
use crate::livestock::{
    all_stockable, births_appended, butcher_all, can_stock_herd, capacity_before,
    herds_name_species, is_cull_outcome, is_newborn_of, lacks_lifespan,
    lemma_capacity_before_monotone, lemma_cull_all_evolves, live_count, livestock_wf,
    resize_herds, sizes_match, Livestock,
};
use crate::pasture::{pastures_wf, Pasture, PastureAreaMinMax, PastureKindMap};
use crate::snapshot::{
    eligible_can_stock, health_matches_headcounts, herds_founded, lifecycle_led, lifecycle_ran,
    livestock_grown, reports_led, structure_grew, was_born_into, Snapshot, SnapshotView,
};
use crate::species::{species_wf, Species};
use crate::warehouse::{warehouses_wf, Warehouse};

verus! {

/// What holds of a store also holds of a store that it is a prefix of, at
/// the positions that the prefix has.
pub(crate) proof fn lemma_prefix_keeps<T>(before: Seq<T>, grown: Seq<T>)
    requires
        before.is_prefix_of(grown),
    ensures
        before.len() <= grown.len(),
        forall|i: int| 0 <= i < before.len() ==> #[trigger] grown[i] == before[i],
{
}

/// A snapshot stays consistent when only its species store grows, by
/// species that are identified by their position and live no longer than
/// allowed.
pub(crate) proof fn lemma_species_grown_keeps_wf(before: Snapshot, after: Snapshot)
    requires
        before.wf(),
        before@.species.is_prefix_of(after@.species),
        species_wf(after@.species),
        after@ == (SnapshotView { species: after@.species, ..before@ }),
    ensures
        after.wf(),
{
}

/// New pastures leave the herds and the feeding reports consistent.
pub(crate) proof fn lemma_pastures_grown(
    before: Seq<Pasture>,
    grown: Seq<Pasture>,
    herds: Seq<Herd>,
    species: Seq<Species>,
    feeding_reports: Seq<FeedingReport>,
)
    requires
        before.is_prefix_of(grown),
        herds_wf(herds, before.len() as int, species.len() as int),
        all_stockable(herds, species, before),
        feeding_reports_wf(feeding_reports, before.len() as int),
    ensures
        herds_wf(herds, grown.len() as int, species.len() as int),
        all_stockable(herds, species, grown),
        feeding_reports_wf(feeding_reports, grown.len() as int),
{
    lemma_prefix_keeps(before, grown);
}

/// A herd that no animal belongs to has no live animals.
pub(crate) proof fn lemma_no_members(livestock: Seq<Livestock>, bound: int, herd: int)
    requires
        forall|i: int| 0 <= i < livestock.len() ==> (#[trigger] livestock[i]).herd_id < bound,
        herd >= bound,
    ensures
        live_count(livestock, herd) == 0,
    decreases livestock.len(),
{
    if livestock.len() > 0 {
        lemma_no_members(livestock.drop_last(), bound, herd);
    }
}

/// Herds founded on new pastures leave every store consistent.
pub(crate) proof fn lemma_herds_founded(
    before: Seq<Herd>,
    grown: Seq<Herd>,
    pastures: Seq<Pasture>,
    first_new: int,
    species: Seq<Species>,
    species_idxs: Seq<usize>,
    livestock: Seq<Livestock>,
    headcount_reports: Seq<HeadcountReport>,
    health_reports: Seq<HealthReport>,
    employee_count: int,
)
    requires
        0 <= first_new <= pastures.len(),
        herds_expanded(
            before,
            grown,
            pastures.subrange(first_new, pastures.len() as int),
            species,
            species_idxs,
        ),
        pastures_wf(pastures),
        species_wf(species),
        eligible_can_stock(species, species_idxs),
        herds_wf(before, pastures.len() as int, species.len() as int),
        all_stockable(before, species, pastures),
        livestock_wf(livestock, before),
        sizes_match(before, livestock),
        headcounts_wf(headcount_reports, employee_count, before.len() as int),
        health_reports_wf(health_reports, employee_count, before.len() as int),
    ensures
        herds_wf(grown, pastures.len() as int, species.len() as int),
        all_stockable(grown, species, pastures),
        livestock_wf(livestock, grown),
        sizes_match(grown, livestock),
        headcounts_wf(headcount_reports, employee_count, grown.len() as int),
        health_reports_wf(health_reports, employee_count, grown.len() as int),
        herds_founded(
            before,
            grown,
            first_new,
            pastures.len() - first_new,
            species,
            species_idxs,
        ),
{
    lemma_prefix_keeps(before, grown);
    assert forall|h: int| 0 <= h < grown.len() implies (#[trigger] grown[h]).id == h
        && grown[h].pasture_id < pastures.len() && grown[h].species_id < species.len()
        && can_stock_herd(grown[h], species, pastures) && grown[h].size == live_count(
        livestock,
        h,
    ) by {
        if h >= before.len() {
            lemma_no_members(livestock, before.len() as int, h);
        }
    }
}

/// Herds that only changed in size are still the herds that were founded.
pub(crate) proof fn lemma_herds_stay_founded(
    before: Seq<Herd>,
    founded: Seq<Herd>,
    herds: Seq<Herd>,
    first_new_pasture: int,
    new_pasture_count: int,
    species: Seq<Species>,
    species_idxs: Seq<usize>,
)
    requires
        herds_founded(before, founded, first_new_pasture, new_pasture_count, species, species_idxs),
        new_pasture_count >= 0,
        herds.len() == founded.len(),
        forall|h: int|
            0 <= h < herds.len() ==> {
                &&& (#[trigger] herds[h]).id == founded[h].id
                &&& herds[h].pasture_id == founded[h].pasture_id
                &&& herds[h].species_id == founded[h].species_id
            },
    ensures
        herds_founded(before, herds, first_new_pasture, new_pasture_count, species, species_idxs),
{
}

/// Newly hired employees leave the stores that name employees consistent.
pub(crate) proof fn lemma_employees_grown(
    before: Seq<Employee>,
    grown: Seq<Employee>,
    warehouses: Seq<Warehouse>,
    headcount_reports: Seq<HeadcountReport>,
    health_reports: Seq<HealthReport>,
    herd_count: int,
)
    requires
        before.len() <= grown.len(),
        warehouses_wf(warehouses, before.len() as int),
        headcounts_wf(headcount_reports, before.len() as int, herd_count),
        health_reports_wf(health_reports, before.len() as int, herd_count),
    ensures
        warehouses_wf(warehouses, grown.len() as int),
        headcounts_wf(headcount_reports, grown.len() as int, herd_count),
        health_reports_wf(health_reports, grown.len() as int, herd_count),
{
}

/// Resizing changes nothing about a herd but its size.
pub(crate) proof fn lemma_resized_herds(
    herds: Seq<Herd>,
    livestock: Seq<Livestock>,
    species: Seq<Species>,
    pastures: Seq<Pasture>,
    n: int,
)
    requires
        0 <= n <= herds.len(),
    ensures
        resize_herds(herds, livestock).len() == herds.len(),
        herds_wf(herds, pastures.len() as int, species.len() as int) ==> herds_wf(
            resize_herds(herds, livestock),
            pastures.len() as int,
            species.len() as int,
        ) && herds_name_species(resize_herds(herds, livestock), species.len() as int),
        all_stockable(herds, species, pastures) ==> all_stockable(
            resize_herds(herds, livestock),
            species,
            pastures,
        ),
        capacity_before(resize_herds(herds, livestock), species, pastures, n) == capacity_before(
            herds,
            species,
            pastures,
            n,
        ),
    decreases n,
{
    if n > 0 {
        lemma_resized_herds(herds, livestock, species, pastures, n - 1);
    }
}

/// The capacities of herds depend on their pastures and species alone.
pub(crate) proof fn lemma_capacity_depends_on_links(
    herds: Seq<Herd>,
    others: Seq<Herd>,
    species: Seq<Species>,
    pastures: Seq<Pasture>,
    n: int,
)
    requires
        0 <= n <= herds.len(),
        others.len() == herds.len(),
        forall|h: int|
            0 <= h < herds.len() ==> (#[trigger] others[h]).pasture_id == herds[h].pasture_id
                && others[h].species_id == herds[h].species_id,
    ensures
        capacity_before(others, species, pastures, n) == capacity_before(
            herds,
            species,
            pastures,
            n,
        ),
    decreases n,
{
    if n > 0 {
        lemma_capacity_depends_on_links(herds, others, species, pastures, n - 1);
    }
}

/// Which animals are born depends on the pastures and species of the
/// herds alone, not on their sizes.
pub(crate) proof fn lemma_births_depend_on_links(
    before: Seq<Livestock>,
    born: Seq<Livestock>,
    herds_at_birth: Seq<Herd>,
    herds: Seq<Herd>,
    species: Seq<Species>,
    pastures: Seq<Pasture>,
    earliest: int,
    latest: int,
)
    requires
        births_appended(before, born, herds_at_birth, species, pastures, earliest, latest),
        herds.len() == herds_at_birth.len(),
        forall|h: int|
            0 <= h < herds.len() ==> {
                &&& (#[trigger] herds[h]).id == herds_at_birth[h].id
                &&& herds[h].pasture_id == herds_at_birth[h].pasture_id
                &&& herds[h].species_id == herds_at_birth[h].species_id
            },
    ensures
        births_appended(before, born, herds, species, pastures, earliest, latest),
{
    assert forall|n: int| 0 <= n <= herds.len() implies #[trigger] capacity_before(
        herds,
        species,
        pastures,
        n,
    ) == capacity_before(herds_at_birth, species, pastures, n) by {
        lemma_capacity_depends_on_links(herds_at_birth, herds, species, pastures, n);
    }
}

/// Animals that were born and then culled and slaughtered are still the
/// animals that were born.
pub(crate) proof fn lemma_livestock_grown(
    before: Seq<Livestock>,
    born: Seq<Livestock>,
    culled: Seq<Livestock>,
    butchered: Seq<Livestock>,
    herds_at_birth: Seq<Herd>,
    herds: Seq<Herd>,
    species: Seq<Species>,
    pastures: Seq<Pasture>,
    earliest: int,
    latest: int,
)
    requires
        births_appended(before, born, herds_at_birth, species, pastures, earliest, latest),
        all_stockable(herds_at_birth, species, pastures),
        culled.len() == born.len(),
        forall|i: int| 0 <= i < born.len() ==> (#[trigger] born[i]).evolves_to(culled[i]),
        butchered.len() == culled.len(),
        forall|i: int| 0 <= i < culled.len() ==> (#[trigger] culled[i]).evolves_to(butchered[i]),
        herds.len() == herds_at_birth.len(),
        forall|h: int|
            0 <= h < herds.len() ==> {
                &&& (#[trigger] herds[h]).id == herds_at_birth[h].id
                &&& herds[h].pasture_id == herds_at_birth[h].pasture_id
                &&& herds[h].species_id == herds_at_birth[h].species_id
            },
    ensures
        livestock_grown(before, butchered, herds, species, pastures, earliest, latest),
{
    lemma_prefix_keeps(before, born);
    assert forall|n: int| 0 <= n <= herds.len() implies #[trigger] capacity_before(
        herds,
        species,
        pastures,
        n,
    ) == capacity_before(herds_at_birth, species, pastures, n) by {
        lemma_capacity_depends_on_links(herds_at_birth, herds, species, pastures, n);
    }
    assert forall|h: int, i: int|
        0 <= h < herds.len() && before.len() + capacity_before(herds, species, pastures, h) <= i
            < before.len() + capacity_before(herds, species, pastures, h + 1) implies was_born_into(
        #[trigger] butchered[i],
        #[trigger] herds[h],
        i,
        earliest,
        latest,
    ) by {
        lemma_capacity_before_monotone(herds_at_birth, species, pastures, 0, h);
        lemma_capacity_before_monotone(
            herds_at_birth,
            species,
            pastures,
            h + 1,
            herds_at_birth.len() as int,
        );
        assert(is_newborn_of(born[i], herds_at_birth[h], i, earliest, latest));
    }
}

/// An animal of a herd that can be stocked is of a species with a lifespan.
pub(crate) proof fn lemma_stocked_animals_have_lifespan(
    livestock: Seq<Livestock>,
    herds: Seq<Herd>,
    species: Seq<Species>,
    pastures: Seq<Pasture>,
)
    requires
        livestock_wf(livestock, herds),
        all_stockable(herds, species, pastures),
    ensures
        forall|i: int|
            0 <= i < livestock.len() ==> !lacks_lifespan(#[trigger] livestock[i], species),
{
}

/// Births, culling and slaughter, one after the other, are the life cycle
/// of an expansion.
pub(crate) proof fn lemma_lifecycle_led(
    before: SnapshotView,
    after: SnapshotView,
    born: Seq<Livestock>,
    culled: Seq<Livestock>,
    herds_stocked: Seq<Herd>,
    herds_culled: Seq<Herd>,
    from_when: int,
    to_when: int,
    kill_off_bp: int,
    selection: Seq<usize>,
    offsets: Seq<u64>,
)
    requires
        after == (SnapshotView { livestock: after.livestock, herds: after.herds, ..before }),
        all_stockable(before.herds, before.species, before.pastures),
        births_appended(
            before.livestock,
            born,
            before.herds,
            before.species,
            before.pastures,
            from_when,
            to_when,
        ),
        herds_stocked == resize_herds(before.herds, born),
        is_cull_outcome(born, culled, before.species, kill_off_bp, to_when, selection, offsets),
        forall|i: int| 0 <= i < born.len() ==> (#[trigger] born[i]).evolves_to(culled[i]),
        herds_culled == resize_herds(herds_stocked, culled),
        after.livestock == butcher_all(culled, before.species, to_when),
        forall|i: int|
            0 <= i < culled.len() ==> (#[trigger] culled[i]).evolves_to(after.livestock[i]),
        after.herds == resize_herds(herds_culled, after.livestock),
    ensures
        lifecycle_led(before, after, from_when, to_when, kill_off_bp),
{
    lemma_cull_all_evolves(born, selection, offsets, to_when, selection.len() as int);
    lemma_births_depend_on_links(
        before.livestock,
        born,
        before.herds,
        after.herds,
        before.species,
        before.pastures,
        from_when,
        to_when,
    );
    lemma_livestock_grown(
        before.livestock,
        born,
        culled,
        after.livestock,
        before.herds,
        after.herds,
        before.species,
        before.pastures,
        from_when,
        to_when,
    );
    assert(lifecycle_ran(
        before.livestock,
        born,
        culled,
        after.livestock,
        after.herds,
        after.species,
        after.pastures,
        from_when,
        to_when,
        kill_off_bp,
        selection,
        offsets,
    ));
}

/// Health reports made for the new headcounts keep every health report
/// matched with the headcount at its position.
pub(crate) proof fn lemma_health_follows(
    health_before: Seq<HealthReport>,
    health_grown: Seq<HealthReport>,
    headcounts_before: Seq<HeadcountReport>,
    headcounts_grown: Seq<HeadcountReport>,
    employees: Seq<Employee>,
    herds: Seq<Herd>,
    ill_max_bp: int,
    severely_ill_max_bp: int,
    terminal_max_bp: int,
)
    requires
        health_matches_headcounts(health_before, headcounts_before),
        headcounts_before.is_prefix_of(headcounts_grown),
        health_reports_appended(
            health_before,
            health_grown,
            headcounts_grown.subrange(
                headcounts_before.len() as int,
                headcounts_grown.len() as int,
            ),
            employees,
            herds,
            ill_max_bp,
            severely_ill_max_bp,
            terminal_max_bp,
        ),
        herds_identified(herds),
        headcounts_wf(headcounts_grown, employees.len() as int, herds.len() as int),
    ensures
        health_matches_headcounts(health_grown, headcounts_grown),
{
    lemma_prefix_keeps(health_before, health_grown);
    lemma_prefix_keeps(headcounts_before, headcounts_grown);
}

/// The three parts of an expansion, one after the other, are the
/// expansion.
pub(crate) proof fn lemma_stages_compose(
    before: SnapshotView,
    structured: SnapshotView,
    stocked: SnapshotView,
    after: SnapshotView,
    from_when: int,
    to_when: int,
    reports_interval: int,
    new_pastures: int,
    pasture_ranges: PastureKindMap<PastureAreaMinMax>,
    species_for_herds: Seq<usize>,
    hired_employees_count: int,
    employee_names: Seq<&str>,
    employee_surnames: Seq<&str>,
    employee_salary_min: int,
    employee_salary_max: int,
    new_warehouse_count: int,
    kill_off_bp: int,
    headcount_min_count: int,
    headcount_max_count: int,
    ill_max_bp: int,
    severely_ill_max_bp: int,
    terminal_max_bp: int,
)
    requires
        new_pastures >= 0,
        structure_grew(
            before,
            structured,
            from_when,
            to_when,
            reports_interval,
            new_pastures,
            pasture_ranges,
            species_for_herds,
            hired_employees_count,
            employee_names,
            employee_surnames,
            employee_salary_min,
            employee_salary_max,
            new_warehouse_count,
        ),
        lifecycle_led(structured, stocked, from_when, to_when, kill_off_bp),
        reports_led(
            stocked,
            after,
            from_when,
            to_when,
            reports_interval,
            headcount_min_count,
            headcount_max_count,
            ill_max_bp,
            severely_ill_max_bp,
            terminal_max_bp,
        ),
    ensures
        before.grew_into(
            after,
            from_when,
            to_when,
            reports_interval,
            new_pastures,
            pasture_ranges,
            species_for_herds,
            hired_employees_count,
            employee_names,
            employee_surnames,
            employee_salary_min,
            employee_salary_max,
            new_warehouse_count,
            kill_off_bp,
            headcount_min_count,
            headcount_max_count,
            ill_max_bp,
            severely_ill_max_bp,
            terminal_max_bp,
        ),
{
    lemma_herds_stay_founded(
        before.herds,
        structured.herds,
        after.herds,
        before.pastures.len() as int,
        new_pastures,
        before.species,
        species_for_herds,
    );
}

} // verus!
