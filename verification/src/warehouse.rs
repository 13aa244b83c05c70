//! Warehouses, the generator that builds them, and the one operation that
//! changes a warehouse: enlarging it.
use vstd::prelude::*;

use crate::employee::{employees_wf, Employee};
use crate::error::ConfigError;
use crate::random::{is_distinct_selection, RandomSource};

verus! {

/// The area, in square decimetres, that a newly built warehouse stays
/// below.
pub const NEW_WAREHOUSE_MAX_AREA: u64 = 4_000_000;

/// The volume, in cubic decimetres, that a newly built warehouse stays
/// below.
pub const NEW_WAREHOUSE_MAX_VOLUME: u64 = 90_000_000;

/// A warehouse and the employee who manages it. Area and volume are in
/// square and cubic decimetres.
#[derive(Clone, Copy, Debug, PartialEq, Eq)]
pub struct Warehouse {
    pub id: usize,
    pub manager_id: usize,
    pub area: u64,
    pub volume: u64,
}

impl Warehouse {
    /// A warehouse managed by `manager`.
    pub fn new(id: usize, manager: &Employee, area: u64, volume: u64) -> (warehouse: Self)
        ensures
            warehouse.id == id,
            warehouse.manager_id == manager.id,
            warehouse.area == area,
            warehouse.volume == volume,
    {
        Warehouse { id, manager_id: manager.id, area, volume }
    }

    /// This warehouse with `extra_area` and `extra_volume` added.
    pub open spec fn enlarged_by(&self, extra_area: int, extra_volume: int) -> Warehouse {
        Warehouse {
            id: self.id,
            manager_id: self.manager_id,
            area: (self.area + extra_area) as u64,
            volume: (self.volume + extra_volume) as u64,
        }
    }

    /// `later` is this warehouse, enlarged by less than `area_bound` and
    /// less than `volume_bound`.
    pub open spec fn is_enlarged_to(
        &self,
        later: Warehouse,
        area_bound: int,
        volume_bound: int,
    ) -> bool {
        &&& later.id == self.id
        &&& later.manager_id == self.manager_id
        &&& self.area <= later.area < self.area + area_bound
        &&& self.volume <= later.volume < self.volume + volume_bound
    }

    /// Adds `extra_area` and `extra_volume`.
    pub fn enlarge(&mut self, extra_area: u64, extra_volume: u64)
        requires
            old(self).area + extra_area <= u64::MAX,
            old(self).volume + extra_volume <= u64::MAX,
        ensures
            *final(self) == old(self).enlarged_by(extra_area as int, extra_volume as int),
    {
        self.area = self.area + extra_area;
        self.volume = self.volume + extra_volume;
    }
}

/// Every warehouse is identified by its position, is managed by an
/// employee who exists, and has a positive area and volume.
pub open spec fn warehouses_wf(warehouses: Seq<Warehouse>, employee_count: int) -> bool {
    forall|i: int|
        0 <= i < warehouses.len() ==> {
            &&& (#[trigger] warehouses[i]).id == i
            &&& warehouses[i].manager_id < employee_count
            &&& warehouses[i].area > 0
            &&& warehouses[i].volume > 0
        }
}

/// How many warehouses `expand_warehouse_vec` builds: as many as asked for,
/// but no more than there are employees to manage them.
pub open spec fn warehouses_built(count: int, employee_count: int) -> int {
    if count <= employee_count {
        count
    } else {
        employee_count
    }
}

/// `grown` is `before` followed by one new warehouse for each employee that
/// `managers` names, in that order.
pub open spec fn warehouses_expanded(
    before: Seq<Warehouse>,
    grown: Seq<Warehouse>,
    employees: Seq<Employee>,
    managers: Seq<usize>,
) -> bool {
    &&& grown.len() == before.len() + managers.len()
    &&& before.is_prefix_of(grown)
    &&& forall|i: int|
        before.len() <= i < grown.len() ==> {
            &&& (#[trigger] grown[i]).id == i
            &&& grown[i].manager_id == employees[managers[i - before.len()] as int].id
            &&& 1 <= grown[i].area < NEW_WAREHOUSE_MAX_AREA
            &&& 1 <= grown[i].volume < NEW_WAREHOUSE_MAX_VOLUME
        }
}

/// Builds `count` warehouses, or one for every employee if there are fewer
/// employees than that. The managers are drawn from the employees without
/// replacement, so no employee manages two of the new warehouses; area and
/// volume are drawn uniformly from one up to, but not reaching,
/// `NEW_WAREHOUSE_MAX_AREA` and `NEW_WAREHOUSE_MAX_VOLUME`.
pub fn expand_warehouse_vec(
    rng: &mut RandomSource,
    warehouses: &mut Vec<Warehouse>,
    count: usize,
    employees: &Vec<Employee>,
)
    ensures
        exists|managers: Seq<usize>|
            #[trigger] is_distinct_selection(
                managers,
                employees@.len() as int,
                warehouses_built(count as int, employees@.len() as int),
            ) && warehouses_expanded(old(warehouses)@, final(warehouses)@, employees@, managers),
        employees_wf(employees@) && warehouses_wf(
            old(warehouses)@,
            employees@.len() as int,
        ) ==> warehouses_wf(final(warehouses)@, employees@.len() as int),
{
    let built = if count <= employees.len() {
        count
    } else {
        employees.len()
    };
    let managers = match rng.sample_distinct(employees.len(), built) {
        Ok(managers) => managers,
        Err(_) => Vec::new(),
    };
    let ghost before = warehouses@;
    let mut j: usize = 0;
    while j < managers.len()
        invariant
            j <= managers@.len(),
            is_distinct_selection(managers@, employees@.len() as int, built as int),
            warehouses_expanded(before, warehouses@, employees@, managers@.take(j as int)),
        decreases managers@.len() - j,
    {
        let ghost earlier = warehouses@;
        let area = match rng.uniform_below(1, NEW_WAREHOUSE_MAX_AREA) {
            Ok(area) => area,
            Err(_) => 1,
        };
        let volume = match rng.uniform_below(1, NEW_WAREHOUSE_MAX_VOLUME) {
            Ok(volume) => volume,
            Err(_) => 1,
        };
        let id = warehouses.len();
        warehouses.push(Warehouse::new(id, &employees[managers[j]], area, volume));
        proof {
            assert(before.is_prefix_of(warehouses@)) by {
                assert(warehouses@.subrange(0, before.len() as int) =~= earlier.subrange(
                    0,
                    before.len() as int,
                ));
            }
        }
        j = j + 1;
    }
    proof {
        assert(managers@.take(j as int) =~= managers@);
        assert(is_distinct_selection(
            managers@,
            employees@.len() as int,
            warehouses_built(count as int, employees@.len() as int),
        ) && warehouses_expanded(before, warehouses@, employees@, managers@));
        if employees_wf(employees@) && warehouses_wf(
            before,
            employees@.len() as int,
        ) {
            assert forall|i: int| 0 <= i < warehouses@.len() implies {
                &&& (#[trigger] warehouses@[i]).id == i
                &&& warehouses@[i].manager_id < employees@.len()
                &&& warehouses@[i].area > 0
                &&& warehouses@[i].volume > 0
            } by {
                if i < before.len() {
                    assert(warehouses@.subrange(0, before.len() as int)[i] == warehouses@[i]);
                } else {
                    assert(managers@[i - before.len()] < employees@.len());
                }
            }
        }
    }
}

/// `position` is among the first `n` positions that `selection` names.
pub open spec fn is_selected(selection: Seq<usize>, n: int, position: int) -> bool {
    exists|k: int| 0 <= k < n && (#[trigger] selection[k]) == position
}

/// `grown` is `before` with the warehouses that `selection` names each
/// enlarged by less than the two bounds, and every other one as it was.
pub open spec fn warehouses_enlarged(
    before: Seq<Warehouse>,
    grown: Seq<Warehouse>,
    selection: Seq<usize>,
    area_bound: int,
    volume_bound: int,
) -> bool {
    &&& grown.len() == before.len()
    &&& forall|i: int|
        0 <= i < before.len() ==> if is_selected(selection, selection.len() as int, i) {
            (#[trigger] before[i]).is_enlarged_to(grown[i], area_bound, volume_bound)
        } else {
            grown[i] == before[i]
        }
}

/// Whether every warehouse can grow by less than the two bounds without
/// its size leaving the range of the numbers that hold it.
pub open spec fn room_to_enlarge(
    warehouses: Seq<Warehouse>,
    area_bound: int,
    volume_bound: int,
) -> bool {
    forall|i: int|
        0 <= i < warehouses.len() ==> (#[trigger] warehouses[i]).area + area_bound - 1 <= u64::MAX
            && warehouses[i].volume + volume_bound - 1 <= u64::MAX
}

/// The refusal, if any, with which `randomly_enlarge_warehouses` answers.
pub open spec fn enlarge_error(
    warehouses: Seq<Warehouse>,
    area_bound: int,
    volume_bound: int,
) -> Option<ConfigError> {
    if warehouses.len() == 0 {
        Some(ConfigError::EmptyPool)
    } else if area_bound <= 0 || volume_bound <= 0 || !room_to_enlarge(
        warehouses,
        area_bound,
        volume_bound,
    ) {
        Some(ConfigError::InvalidRange)
    } else {
        None
    }
}

fn has_room_to_enlarge(
    warehouses: &Vec<Warehouse>,
    area_bound: u64,
    volume_bound: u64,
) -> (ok: bool)
    requires
        area_bound > 0,
        volume_bound > 0,
    ensures
        ok == room_to_enlarge(warehouses@, area_bound as int, volume_bound as int),
{
    let mut i: usize = 0;
    while i < warehouses.len()
        invariant
            i <= warehouses@.len(),
            area_bound > 0,
            volume_bound > 0,
            forall|j: int|
                0 <= j < i ==> (#[trigger] warehouses@[j]).area + area_bound - 1 <= u64::MAX
                    && warehouses@[j].volume + volume_bound - 1 <= u64::MAX,
        decreases warehouses@.len() - i,
    {
        if warehouses[i].area > u64::MAX - (area_bound - 1) || warehouses[i].volume > u64::MAX - (
            volume_bound - 1) {
            return false;
        }
        i = i + 1;
    }
    true
}

/// Enlarges some of the warehouses: a number of them below the number of
/// all, drawn uniformly, is selected without replacement, and each selected
/// one grows by an area drawn uniformly from zero up to, but not reaching,
/// `maximum_extra_area`, and by a volume drawn likewise. Refuses, before
/// anything is drawn, an empty list, a bound of zero, and a bound that some
/// warehouse has no room for.
pub fn randomly_enlarge_warehouses(
    rng: &mut RandomSource,
    warehouses: &mut Vec<Warehouse>,
    maximum_extra_area: u64,
    maximum_extra_volume: u64,
) -> (outcome: Result<(), ConfigError>)
    ensures
        outcome is Err <==> enlarge_error(
            old(warehouses)@,
            maximum_extra_area as int,
            maximum_extra_volume as int,
        ) is Some,
        outcome is Err ==> Some(outcome->Err_0) == enlarge_error(
            old(warehouses)@,
            maximum_extra_area as int,
            maximum_extra_volume as int,
        ) && final(warehouses)@ == old(warehouses)@ && *final(rng) == *old(rng),
        outcome is Ok ==> exists|selection: Seq<usize>|
            selection.len() < old(warehouses)@.len() && is_distinct_selection(
                selection,
                old(warehouses)@.len() as int,
                selection.len() as int,
            ) && #[trigger] warehouses_enlarged(
                old(warehouses)@,
                final(warehouses)@,
                selection,
                maximum_extra_area as int,
                maximum_extra_volume as int,
            ),
        forall|employee_count: int|
            warehouses_wf(old(warehouses)@, employee_count) ==> #[trigger] warehouses_wf(
                final(warehouses)@,
                employee_count,
            ),
{
    if warehouses.len() == 0 {
        return Err(ConfigError::EmptyPool);
    }
    if maximum_extra_area == 0 || maximum_extra_volume == 0 {
        return Err(ConfigError::InvalidRange);
    }
    if !has_room_to_enlarge(warehouses, maximum_extra_area, maximum_extra_volume) {
        return Err(ConfigError::InvalidRange);
    }
    let ghost before = warehouses@;
    let to_edit = match rng.uniform_below(0, warehouses.len() as u64) {
        Ok(to_edit) => to_edit as usize,
        Err(_) => 0,
    };
    let selection = match rng.sample_distinct(warehouses.len(), to_edit) {
        Ok(selection) => selection,
        Err(_) => Vec::new(),
    };
    let mut k: usize = 0;
    while k < selection.len()
        invariant
            k <= selection@.len(),
            maximum_extra_area > 0,
            maximum_extra_volume > 0,
            is_distinct_selection(selection@, before.len() as int, to_edit as int),
            room_to_enlarge(before, maximum_extra_area as int, maximum_extra_volume as int),
            warehouses_enlarged(
                before,
                warehouses@,
                selection@.take(k as int),
                maximum_extra_area as int,
                maximum_extra_volume as int,
            ),
        decreases selection@.len() - k,
    {
        let ghost earlier = warehouses@;
        let i = selection[k];
        proof {
            if is_selected(selection@.take(k as int), k as int, i as int) {
                let l = choose|l: int| 0 <= l < k && (#[trigger] selection@.take(k as int)[l]) == i;
                assert(selection@[l] == selection@[k as int]);
            }
            assert(warehouses@[i as int] == before[i as int]);
        }
        let extra_area = match rng.uniform_below(0, maximum_extra_area) {
            Ok(extra_area) => extra_area,
            Err(_) => 0,
        };
        let extra_volume = match rng.uniform_below(0, maximum_extra_volume) {
            Ok(extra_volume) => extra_volume,
            Err(_) => 0,
        };
        warehouses[i].enlarge(extra_area, extra_volume);
        proof {
            let sooner = selection@.take(k as int);
            let later = selection@.take(k + 1);
            assert forall|m: int| 0 <= m < before.len() implies if is_selected(
                later,
                later.len() as int,
                m,
            ) {
                (#[trigger] before[m]).is_enlarged_to(
                    warehouses@[m],
                    maximum_extra_area as int,
                    maximum_extra_volume as int,
                )
            } else {
                warehouses@[m] == before[m]
            } by {
                if m == i {
                    assert(later[k as int] == i);
                } else {
                    assert(warehouses@[m] == earlier[m]);
                    if is_selected(later, later.len() as int, m) {
                        let l = choose|l: int| 0 <= l < later.len() && (#[trigger] later[l]) == m;
                        assert(sooner[l] == m);
                    } else if is_selected(sooner, sooner.len() as int, m) {
                        let l = choose|l: int| 0 <= l < sooner.len() && (#[trigger] sooner[l]) == m;
                        assert(later[l] == m);
                    }
                }
            }
        }
        k = k + 1;
    }
    proof {
        assert(selection@.take(k as int) =~= selection@);
        assert forall|employee_count: int| warehouses_wf(before, employee_count) implies #[trigger] warehouses_wf(
            warehouses@,
            employee_count,
        ) by {
            assert forall|m: int| 0 <= m < warehouses@.len() implies {
                &&& (#[trigger] warehouses@[m]).id == m
                &&& warehouses@[m].manager_id < employee_count
                &&& warehouses@[m].area > 0
                &&& warehouses@[m].volume > 0
            } by {
                assert(before[m].id == m);
            }
        }
    }
    Ok(())
}

} // verus!
