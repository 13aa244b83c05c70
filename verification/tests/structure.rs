use farm_snapshot::employee::{expand_employee_vec, Employee, MAX_ACCOUNT_NUMBER, MAX_PESEL};
use farm_snapshot::error::ConfigError;
use farm_snapshot::herd::{expand_herd_vec, Herd};
use farm_snapshot::pasture::{
    expand_pasture_vec, Pasture, PastureAreaMinMax, PastureKind, PastureKindMap,
};
use farm_snapshot::random::RandomSource;
use farm_snapshot::species::{Species, SpeciesAreaRequirements, SpeciesKind};
use farm_snapshot::warehouse::{
    expand_warehouse_vec, randomly_enlarge_warehouses, Warehouse, NEW_WAREHOUSE_MAX_AREA,
    NEW_WAREHOUSE_MAX_VOLUME,
};

fn area_ranges() -> PastureKindMap<PastureAreaMinMax> {
    PastureKindMap::new(
        PastureAreaMinMax { min: 100_000, max: 1_000_000 },
        PastureAreaMinMax { min: 1_000, max: 90_000 },
        PastureAreaMinMax { min: 100, max: 1_000 },
    )
}

fn animal(id: usize, name: &str, lifespan_days: u64) -> Species {
    Species::new(
        id,
        name,
        SpeciesKind::Animal,
        lifespan_days,
        Some(SpeciesAreaRequirements { pasture_kind_to_req_area: PastureKindMap::new(1_000, 800, 200) }),
    )
}

fn staff(count: usize) -> Vec<Employee> {
    let mut rng = RandomSource::from_seed(5);
    let mut employees = Vec::new();
    expand_employee_vec(&mut rng, &mut employees, count, &["Ann", "Bob"], &["Kim", "Ali"], 300_000, 1_200_000)
        .unwrap();
    employees
}

#[test]
fn pasture_kinds_have_ordinals() {
    assert_eq!(PastureKind::from_ordinal(0), Some(PastureKind::Open));
    assert_eq!(PastureKind::from_ordinal(1), Some(PastureKind::Covered));
    assert_eq!(PastureKind::from_ordinal(2), Some(PastureKind::Individual));
    assert_eq!(PastureKind::from_ordinal(3), None);
    assert_eq!(PastureKind::from_ordinal(u64::MAX), None);
}

#[test]
fn a_kind_map_holds_one_value_for_each_kind() {
    let map = PastureKindMap::new(1u8, 2u8, 3u8);
    assert_eq!(*map.get(PastureKind::Open), 1);
    assert_eq!(*map.get(PastureKind::Covered), 2);
    assert_eq!(*map.get(PastureKind::Individual), 3);
}

#[test]
fn new_pastures_are_numbered_on_and_sized_by_their_kind() {
    let mut rng = RandomSource::from_seed(1);
    let ranges = area_ranges();
    let mut pastures = vec![Pasture::new(0, 5, PastureKind::Covered)];
    assert_eq!(expand_pasture_vec(&mut rng, &mut pastures, 200, &ranges), Ok(()));
    assert_eq!(pastures.len(), 201);
    assert_eq!(pastures[0], Pasture::new(0, 5, PastureKind::Covered));
    let mut kinds = [false; 3];
    for (position, pasture) in pastures.iter().enumerate().skip(1) {
        assert_eq!(pasture.id, position);
        let range = ranges.get(pasture.kind);
        assert!(range.min <= pasture.area && pasture.area <= range.max);
        match pasture.kind {
            PastureKind::Open => kinds[0] = true,
            PastureKind::Covered => kinds[1] = true,
            PastureKind::Individual => kinds[2] = true,
        }
    }
    assert_eq!(kinds, [true, true, true]);
}

#[test]
fn no_new_pastures_leave_the_store_as_it_is() {
    let mut rng = RandomSource::from_seed(1);
    let mut pastures = vec![Pasture::new(0, 5, PastureKind::Open)];
    assert_eq!(expand_pasture_vec(&mut rng, &mut pastures, 0, &area_ranges()), Ok(()));
    assert_eq!(pastures, vec![Pasture::new(0, 5, PastureKind::Open)]);
}

#[test]
fn an_inverted_or_empty_area_range_is_refused() {
    let mut rng = RandomSource::from_seed(1);
    let mut pastures = vec![Pasture::new(0, 5, PastureKind::Open)];
    let good = PastureAreaMinMax { min: 1, max: 1 };
    let inverted = PastureAreaMinMax { min: 10, max: 9 };
    let without_area = PastureAreaMinMax { min: 0, max: 9 };
    for ranges in [
        PastureKindMap::new(inverted, good, good),
        PastureKindMap::new(good, inverted, good),
        PastureKindMap::new(good, good, inverted),
        PastureKindMap::new(good, without_area, good),
    ] {
        assert_eq!(
            expand_pasture_vec(&mut rng, &mut pastures, 0, &ranges),
            Err(ConfigError::InvalidRange)
        );
        assert_eq!(
            expand_pasture_vec(&mut rng, &mut pastures, 3, &ranges),
            Err(ConfigError::InvalidRange)
        );
    }
    assert_eq!(pastures, vec![Pasture::new(0, 5, PastureKind::Open)]);
    assert_eq!(
        expand_pasture_vec(&mut rng, &mut pastures, 3, &PastureKindMap::new(good, good, good)),
        Ok(())
    );
    assert!(pastures.iter().skip(1).all(|pasture| pasture.area == 1));
}

#[test]
fn one_herd_is_founded_on_each_pasture() {
    let mut rng = RandomSource::from_seed(2);
    let pastures = vec![
        Pasture::new(7, 500, PastureKind::Open),
        Pasture::new(8, 600, PastureKind::Covered),
        Pasture::new(9, 700, PastureKind::Individual),
    ];
    let species = vec![animal(0, "Cow", 600), animal(1, "Hen", 40), animal(2, "Pig", 160)];
    let mut herds = vec![Herd { id: 0, pasture_id: 3, species_id: 1, size: 4 }];
    assert_eq!(expand_herd_vec(&mut rng, &mut herds, &pastures, &species, &[0, 2]), Ok(()));
    assert_eq!(herds.len(), 4);
    assert_eq!(herds[0], Herd { id: 0, pasture_id: 3, species_id: 1, size: 4 });
    for (j, herd) in herds.iter().enumerate().skip(1) {
        assert_eq!(herd.id, j);
        assert_eq!(herd.pasture_id, 6 + j);
        assert!(herd.species_id == 0 || herd.species_id == 2);
        assert_eq!(herd.size, 0);
    }
}

#[test]
fn every_eligible_species_is_chosen_sooner_or_later() {
    let mut rng = RandomSource::from_seed(3);
    let pastures: Vec<Pasture> = (0..200).map(|id| Pasture::new(id, 500, PastureKind::Open)).collect();
    let species = vec![animal(0, "Cow", 600), animal(1, "Hen", 40), animal(2, "Pig", 160)];
    let mut herds = Vec::new();
    assert_eq!(expand_herd_vec(&mut rng, &mut herds, &pastures, &species, &[2, 1]), Ok(()));
    assert!(herds.iter().any(|herd| herd.species_id == 1));
    assert!(herds.iter().any(|herd| herd.species_id == 2));
    assert!(herds.iter().all(|herd| herd.species_id != 0));
}

#[test]
fn herds_are_refused_without_eligible_species() {
    let mut rng = RandomSource::from_seed(2);
    let pastures = vec![Pasture::new(0, 500, PastureKind::Open)];
    let species = vec![animal(0, "Cow", 600)];
    let mut herds = Vec::new();
    assert_eq!(
        expand_herd_vec(&mut rng, &mut herds, &pastures, &species, &[]),
        Err(ConfigError::NoEligibleSpecies)
    );
    assert_eq!(
        expand_herd_vec(&mut rng, &mut herds, &[], &species, &[]),
        Err(ConfigError::NoEligibleSpecies)
    );
    assert!(herds.is_empty());
}

#[test]
fn herds_are_refused_for_a_species_that_is_not_there() {
    let mut rng = RandomSource::from_seed(2);
    let pastures = vec![Pasture::new(0, 500, PastureKind::Open)];
    let species = vec![animal(0, "Cow", 600)];
    let mut herds = Vec::new();
    assert_eq!(
        expand_herd_vec(&mut rng, &mut herds, &pastures, &species, &[0, 1]),
        Err(ConfigError::UnknownSpecies)
    );
    assert_eq!(
        expand_herd_vec(&mut rng, &mut herds, &pastures, &[], &[0]),
        Err(ConfigError::UnknownSpecies)
    );
    assert!(herds.is_empty());
}

#[test]
fn a_species_keeps_what_it_was_made_with() {
    let cow = animal(4, "Angus Cow", 639);
    assert_eq!(cow.id, 4);
    assert_eq!(cow.name, "Angus Cow");
    assert_eq!(cow.kind, SpeciesKind::Animal);
    assert_eq!(cow.lifespan_days, 639);
    assert_eq!(cow.area_needed(PastureKind::Open), 1_000);
    assert_eq!(cow.area_needed(PastureKind::Covered), 800);
    assert_eq!(cow.area_needed(PastureKind::Individual), 200);
    let wheat = Species::new(5, "Wheat", SpeciesKind::Plant, 210, None);
    assert_eq!(wheat.kind, SpeciesKind::Plant);
    assert_eq!(wheat.area_needed(PastureKind::Open), 0);
}

#[test]
fn employees_are_hired_from_the_pools() {
    let mut rng = RandomSource::from_seed(4);
    let names = ["Ben", "Bob", "Gus"];
    let surnames = ["Ali", "Ash"];
    let mut employees = vec![Employee::new(0, "Ada", "Zhu", 1, 2, 3)];
    assert_eq!(
        expand_employee_vec(&mut rng, &mut employees, 300, &names, &surnames, 300_000, 1_200_000),
        Ok(())
    );
    assert_eq!(employees.len(), 301);
    assert_eq!(employees[0].name, "Ada");
    assert_eq!(employees[0].salary, 3);
    for (position, employee) in employees.iter().enumerate().skip(1) {
        assert_eq!(employee.id, position);
        assert!(names.contains(&employee.name.as_str()));
        assert!(surnames.contains(&employee.surname.as_str()));
        assert!(employee.pesel <= MAX_PESEL);
        assert!(employee.account_number <= MAX_ACCOUNT_NUMBER);
        assert!(300_000 <= employee.salary && employee.salary < 1_200_000);
    }
    for name in names {
        assert!(employees.iter().any(|employee| employee.name == name));
    }
    assert!(employees.iter().any(|employee| employee.pesel != employees[1].pesel));
    assert!(employees.iter().any(|employee| employee.account_number != employees[1].account_number));
}

#[test]
fn the_number_limits_have_eleven_and_twenty_four_digits() {
    assert_eq!(MAX_PESEL.to_string(), "9".repeat(11));
    assert_eq!(MAX_ACCOUNT_NUMBER.to_string(), "9".repeat(24));
}

#[test]
fn hiring_is_refused_with_an_empty_pool() {
    let mut rng = RandomSource::from_seed(4);
    let mut employees = Vec::new();
    assert_eq!(
        expand_employee_vec(&mut rng, &mut employees, 1, &[], &["Ali"], 1, 2),
        Err(ConfigError::EmptyPool)
    );
    assert_eq!(
        expand_employee_vec(&mut rng, &mut employees, 0, &["Ben"], &[], 1, 2),
        Err(ConfigError::EmptyPool)
    );
    assert_eq!(
        expand_employee_vec(&mut rng, &mut employees, 0, &[], &[], 2, 1),
        Err(ConfigError::EmptyPool)
    );
    assert!(employees.is_empty());
}

#[test]
fn hiring_is_refused_with_an_empty_salary_range() {
    let mut rng = RandomSource::from_seed(4);
    let mut employees = Vec::new();
    assert_eq!(
        expand_employee_vec(&mut rng, &mut employees, 1, &["Ben"], &["Ali"], 5, 5),
        Err(ConfigError::InvalidRange)
    );
    assert_eq!(
        expand_employee_vec(&mut rng, &mut employees, 1, &["Ben"], &["Ali"], 6, 5),
        Err(ConfigError::InvalidRange)
    );
    assert!(employees.is_empty());
    assert_eq!(expand_employee_vec(&mut rng, &mut employees, 1, &["Ben"], &["Ali"], 5, 6), Ok(()));
    assert_eq!(employees[0].salary, 5);
}

#[test]
fn new_warehouses_get_different_managers() {
    let employees = staff(30);
    let mut rng = RandomSource::from_seed(6);
    let mut warehouses = Vec::new();
    expand_warehouse_vec(&mut rng, &mut warehouses, 16, &employees);
    assert_eq!(warehouses.len(), 16);
    let mut managers: Vec<usize> = Vec::new();
    for (position, warehouse) in warehouses.iter().enumerate() {
        assert_eq!(warehouse.id, position);
        assert!(warehouse.manager_id < employees.len());
        assert!(1 <= warehouse.area && warehouse.area < NEW_WAREHOUSE_MAX_AREA);
        assert!(1 <= warehouse.volume && warehouse.volume < NEW_WAREHOUSE_MAX_VOLUME);
        managers.push(warehouse.manager_id);
    }
    managers.sort();
    managers.dedup();
    assert_eq!(managers.len(), 16);
}

#[test]
fn new_warehouses_stay_below_forty_thousand_square_metres_and_ninety_thousand_cubic_metres() {
    assert_eq!(NEW_WAREHOUSE_MAX_AREA, 40_000 * 100);
    assert_eq!(NEW_WAREHOUSE_MAX_VOLUME, 90_000 * 1_000);
    let employees = staff(200);
    for seed in 0..20 {
        let mut rng = RandomSource::from_seed(seed);
        let mut warehouses = Vec::new();
        expand_warehouse_vec(&mut rng, &mut warehouses, 200, &employees);
        assert_eq!(warehouses.len(), 200);
        assert!(warehouses.iter().all(|w| 1 <= w.area && w.area < NEW_WAREHOUSE_MAX_AREA));
        assert!(warehouses.iter().all(|w| 1 <= w.volume && w.volume < NEW_WAREHOUSE_MAX_VOLUME));
    }
}

#[test]
fn no_more_warehouses_are_built_than_there_are_employees() {
    let employees = staff(3);
    let mut rng = RandomSource::from_seed(6);
    let mut warehouses = vec![Warehouse::new(0, &employees[0], 10, 20)];
    expand_warehouse_vec(&mut rng, &mut warehouses, 5, &employees);
    assert_eq!(warehouses.len(), 4);
    assert_eq!(warehouses[0], Warehouse { id: 0, manager_id: 0, area: 10, volume: 20 });
    let mut managers: Vec<usize> = warehouses.iter().skip(1).map(|w| w.manager_id).collect();
    managers.sort();
    assert_eq!(managers, vec![0, 1, 2]);
    expand_warehouse_vec(&mut rng, &mut warehouses, 5, &Vec::new());
    assert_eq!(warehouses.len(), 4);
}

#[test]
fn a_warehouse_is_enlarged_by_what_is_added() {
    let employees = staff(1);
    let mut warehouse = Warehouse::new(3, &employees[0], 100, 2_000);
    warehouse.enlarge(5, 70);
    assert_eq!(warehouse, Warehouse { id: 3, manager_id: 0, area: 105, volume: 2_070 });
    warehouse.enlarge(0, 0);
    assert_eq!(warehouse, Warehouse { id: 3, manager_id: 0, area: 105, volume: 2_070 });
}

#[test]
fn enlarging_changes_fewer_warehouses_than_there_are_and_only_upwards() {
    let employees = staff(40);
    let mut changed_any = false;
    for seed in 0..20 {
        let mut rng = RandomSource::from_seed(seed);
        let mut warehouses = Vec::new();
        expand_warehouse_vec(&mut rng, &mut warehouses, 40, &employees);
        let before = warehouses.clone();
        assert_eq!(randomly_enlarge_warehouses(&mut rng, &mut warehouses, 4_000_000, 90_000_000), Ok(()));
        assert_eq!(warehouses.len(), before.len());
        let mut changed = 0;
        for (old, new) in before.iter().zip(warehouses.iter()) {
            assert_eq!(new.id, old.id);
            assert_eq!(new.manager_id, old.manager_id);
            assert!(old.area <= new.area && new.area < old.area + 4_000_000);
            assert!(old.volume <= new.volume && new.volume < old.volume + 90_000_000);
            if new != old {
                changed += 1;
            }
        }
        assert!(changed < warehouses.len());
        changed_any |= changed > 0;
    }
    assert!(changed_any);
}

#[test]
fn enlarging_a_single_warehouse_changes_nothing() {
    let employees = staff(1);
    let mut rng = RandomSource::from_seed(8);
    let mut warehouses = vec![Warehouse::new(0, &employees[0], 10, 20)];
    assert_eq!(randomly_enlarge_warehouses(&mut rng, &mut warehouses, 100, 100), Ok(()));
    assert_eq!(warehouses, vec![Warehouse { id: 0, manager_id: 0, area: 10, volume: 20 }]);
}

#[test]
fn enlarging_is_refused_without_warehouses() {
    let mut rng = RandomSource::from_seed(8);
    let mut warehouses: Vec<Warehouse> = Vec::new();
    assert_eq!(
        randomly_enlarge_warehouses(&mut rng, &mut warehouses, 100, 100),
        Err(ConfigError::EmptyPool)
    );
}

#[test]
fn enlarging_is_refused_without_room() {
    let employees = staff(1);
    let mut rng = RandomSource::from_seed(8);
    let untouched = vec![
        Warehouse::new(0, &employees[0], 10, 20),
        Warehouse::new(1, &employees[0], u64::MAX - 5, 20),
    ];
    let mut warehouses = untouched.clone();
    assert_eq!(
        randomly_enlarge_warehouses(&mut rng, &mut warehouses, 0, 100),
        Err(ConfigError::InvalidRange)
    );
    assert_eq!(
        randomly_enlarge_warehouses(&mut rng, &mut warehouses, 100, 0),
        Err(ConfigError::InvalidRange)
    );
    assert_eq!(
        randomly_enlarge_warehouses(&mut rng, &mut warehouses, 7, 100),
        Err(ConfigError::InvalidRange)
    );
    assert_eq!(warehouses, untouched);
    assert_eq!(randomly_enlarge_warehouses(&mut rng, &mut warehouses, 6, 100), Ok(()));
}
