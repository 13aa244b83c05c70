use farm_snapshot::error::ConfigError;
use farm_snapshot::livestock::DisposalPurpose;
use farm_snapshot::pasture::{PastureAreaMinMax, PastureKind, PastureKindMap};
use farm_snapshot::random::RandomSource;
use farm_snapshot::share::ONE_HUNDRED_PERCENT;
use farm_snapshot::snapshot::Snapshot;
use farm_snapshot::species::{SpeciesAreaRequirements, SpeciesKind};
use farm_snapshot::time::{day_of, MAX_LIFESPAN_DAYS, MAX_TIMESTAMP, SECONDS_PER_DAY};

const DAY: i64 = SECONDS_PER_DAY;
const T0: i64 = 19_000 * DAY;
const T1: i64 = 19_100 * DAY;
const T2: i64 = 19_150 * DAY;
const NAMES: [&str; 3] = ["Ben", "Bob", "Gus"];
const SURNAMES: [&str; 2] = ["Ali", "Ash"];

fn needs(open: u64, covered: u64, individual: u64) -> Option<SpeciesAreaRequirements> {
    Some(SpeciesAreaRequirements { pasture_kind_to_req_area: PastureKindMap::new(open, covered, individual) })
}

fn area_ranges() -> PastureKindMap<PastureAreaMinMax> {
    PastureKindMap::new(
        PastureAreaMinMax { min: 100_000, max: 1_000_000 },
        PastureAreaMinMax { min: 1_000, max: 90_000 },
        PastureAreaMinMax { min: 100, max: 1_000 },
    )
}

fn farm() -> Snapshot {
    let mut snapshot = Snapshot::new();
    assert_eq!(snapshot.add_species("Angus Cow", SpeciesKind::Animal, 639, needs(1_000, 800, 200)), Ok(0));
    assert_eq!(snapshot.add_species("Leghorn Chicken", SpeciesKind::Animal, 42, needs(100, 100, 25)), Ok(1));
    assert_eq!(snapshot.add_species("Wheat", SpeciesKind::Plant, 210, None), Ok(2));
    snapshot
}

fn grow(
    snapshot: &mut Snapshot,
    rng: &mut RandomSource,
    from: i64,
    to: i64,
    new_pastures: usize,
    eligible: &[usize],
    hired: usize,
    new_warehouses: usize,
    kill_off_bp: u32,
) -> Result<(), ConfigError> {
    snapshot.expand(
        rng, from, to, DAY, new_pastures, &area_ranges(), eligible, hired, &NAMES, &SURNAMES,
        300_000, 1_200_000, new_warehouses, kill_off_bp, 9_000, 12_000, 1_000, 700, 200,
    )
}

fn check_consistency(snapshot: &Snapshot) {
    let pastures = snapshot.pastures();
    let species = snapshot.species();
    let herds = snapshot.herds();
    let livestock = snapshot.livestock();
    let employees = snapshot.employees();
    assert!(pastures.iter().enumerate().all(|(i, p)| p.id == i && p.area > 0));
    assert!(species.iter().enumerate().all(|(i, s)| s.id == i));
    assert!(employees.iter().enumerate().all(|(i, e)| e.id == i));
    for (h, herd) in herds.iter().enumerate() {
        assert_eq!(herd.id, h);
        assert!(herd.pasture_id < pastures.len());
        assert!(herd.species_id < species.len());
        let live = livestock.iter().filter(|a| a.herd_id == h && a.disposal.is_none()).count();
        assert_eq!(herd.size, live);
    }
    for (i, animal) in livestock.iter().enumerate() {
        assert_eq!(animal.id, i);
        assert!(animal.herd_id < herds.len());
        assert_eq!(animal.species_id, herds[animal.herd_id].species_id);
        assert_eq!(animal.disposal.is_some(), animal.disposal_purpose.is_some());
        if let Some(disposal) = animal.disposal {
            assert!(disposal >= animal.birth);
        }
    }
    for (i, warehouse) in snapshot.warehouses().iter().enumerate() {
        assert_eq!(warehouse.id, i);
        assert!(warehouse.manager_id < employees.len());
        assert!(warehouse.area > 0 && warehouse.volume > 0);
    }
    let feeding = snapshot.feeding_reports();
    for (k, report) in feeding.iter().enumerate() {
        assert_eq!(report.id, k);
        assert!(report.pasture_id < pastures.len());
        assert!(report.start_fill_bp <= report.end_fill_bp);
        assert!(report.end_fill_bp <= ONE_HUNDRED_PERCENT);
        assert!(
            report.start_fill_bp == 0
                || (feeding[k - 1].pasture_id == report.pasture_id
                    && report.start_fill_bp <= feeding[k - 1].end_fill_bp)
        );
    }
    let headcounts = snapshot.headcount_reports();
    let health = snapshot.health_reports();
    assert_eq!(health.len(), headcounts.len());
    for (i, (report, headcount)) in health.iter().zip(headcounts.iter()).enumerate() {
        assert_eq!(headcount.id, i);
        assert_eq!(report.id, i);
        assert!(headcount.employee_id < employees.len());
        assert!(report.employee_id < employees.len());
        assert!(headcount.herd_id < herds.len());
        assert_eq!(report.herd_id, headcount.herd_id);
        assert_eq!(report.timestamp, headcount.timestamp);
        assert_eq!(
            report.healthy_count + report.ill_count + report.severely_ill_count + report.terminal_count,
            headcount.quantity
        );
    }
}

#[test]
fn a_new_snapshot_is_empty() {
    let snapshot = Snapshot::new();
    assert!(snapshot.pastures().is_empty());
    assert!(snapshot.species().is_empty());
    assert!(snapshot.herds().is_empty());
    assert!(snapshot.feeding_reports().is_empty());
    assert!(snapshot.livestock().is_empty());
    assert!(snapshot.employees().is_empty());
    assert!(snapshot.health_reports().is_empty());
    assert!(snapshot.warehouses().is_empty());
    assert!(snapshot.headcount_reports().is_empty());
}

#[test]
fn species_are_numbered_as_they_are_added() {
    let snapshot = farm();
    let species = snapshot.species();
    assert_eq!(species.len(), 3);
    assert_eq!((species[1].id, species[1].name.as_str()), (1, "Leghorn Chicken"));
    assert_eq!(species[1].kind, SpeciesKind::Animal);
    assert_eq!(species[1].lifespan_days, 42);
    assert_eq!(species[1].area_needed(PastureKind::Individual), 25);
    assert_eq!(species[2].kind, SpeciesKind::Plant);
    assert!(species[2].area_requirements.is_none());
}

#[test]
fn a_species_that_lives_too_long_is_refused() {
    let mut snapshot = farm();
    assert_eq!(
        snapshot.add_species("Sponge", SpeciesKind::Animal, MAX_LIFESPAN_DAYS + 1, needs(1, 1, 1)),
        Err(ConfigError::InvalidRange)
    );
    assert_eq!(snapshot.species().len(), 3);
    assert_eq!(snapshot.add_species("Sponge", SpeciesKind::Animal, MAX_LIFESPAN_DAYS, needs(1, 1, 1)), Ok(3));
}

#[test]
fn a_single_open_pasture_yields_ten_animals_at_the_first_expansion() {
    let mut snapshot = Snapshot::new();
    snapshot.add_species("Cow", SpeciesKind::Animal, 100, needs(1_000, 1_000, 1_000)).unwrap();
    let exact = PastureAreaMinMax { min: 1_000_000, max: 1_000_000 };
    let mut rng = RandomSource::from_seed(1);
    assert_eq!(
        snapshot.expand(
            &mut rng, T0, T0 + 10 * DAY, DAY, 1, &PastureKindMap::new(exact, exact, exact), &[0], 1,
            &NAMES, &SURNAMES, 1, 2, 0, 0, 5, 5, 0, 0, 0,
        ),
        Ok(())
    );
    assert_eq!(snapshot.pastures().len(), 1);
    assert_eq!(snapshot.pastures()[0].area, 1_000_000);
    assert_eq!(snapshot.herds().len(), 1);
    assert_eq!(snapshot.livestock().len(), 10);
    assert_eq!(snapshot.herds()[0].size, 10);
    assert!(snapshot.livestock().iter().all(|a| a.disposal.is_none() && T0 <= a.birth && a.birth < T0 + 10 * DAY));
    assert_eq!(snapshot.feeding_reports().len(), 10);
    assert_eq!(snapshot.headcount_reports().len(), 10);
    assert_eq!(snapshot.health_reports().len(), 10);
    assert!(snapshot.health_reports().iter().all(|r| r.healthy_count == 5 && r.ill_count == 0));
    check_consistency(&snapshot);
}

#[test]
fn an_expansion_grows_every_store_consistently() {
    let mut snapshot = farm();
    let mut rng = RandomSource::from_seed(2);
    assert_eq!(grow(&mut snapshot, &mut rng, T0, T1, 40, &[0, 1], 25, 16, 1_000), Ok(()));
    assert_eq!(snapshot.pastures().len(), 40);
    assert_eq!(snapshot.herds().len(), 40);
    assert_eq!(snapshot.employees().len(), 25);
    assert_eq!(snapshot.warehouses().len(), 16);
    assert_eq!(snapshot.feeding_reports().len(), 40 * 100);
    assert_eq!(snapshot.headcount_reports().len(), 40 * 100);
    assert_eq!(snapshot.health_reports().len(), 40 * 100);
    assert_eq!(snapshot.species().len(), 3);
    let mut expected = 0;
    for (h, herd) in snapshot.herds().iter().enumerate() {
        assert_eq!(herd.pasture_id, h);
        assert!(herd.species_id == 0 || herd.species_id == 1);
        let pasture = &snapshot.pastures()[herd.pasture_id];
        let species = &snapshot.species()[herd.species_id];
        expected += pasture.area / (species.area_needed(pasture.kind) * species.lifespan_days);
    }
    assert!(expected > 0);
    assert_eq!(snapshot.livestock().len() as u64, expected);
    let livestock = snapshot.livestock();
    assert!(livestock.iter().all(|a| T0 <= a.birth && a.birth < T1));
    let culled = livestock.iter().filter(|a| a.disposal_purpose == Some(DisposalPurpose::Health)).count();
    assert_eq!(culled, (livestock.len() + 5) / 10);
    for animal in livestock.iter() {
        let lifespan = snapshot.species()[animal.species_id].lifespan_days as i64 * DAY;
        match animal.disposal_purpose {
            Some(DisposalPurpose::Health) => {
                assert!(animal.disposal.unwrap() <= T1);
                assert!(animal.disposal.unwrap() < animal.birth + lifespan);
            },
            Some(DisposalPurpose::Butcher) => {
                assert_eq!(animal.disposal, Some(animal.birth + lifespan));
                assert!(animal.birth + lifespan < T1);
            },
            None => assert!(animal.birth + lifespan >= T1),
        }
    }
    assert!(livestock.iter().any(|a| a.disposal_purpose == Some(DisposalPurpose::Butcher)));
    assert!(snapshot.feeding_reports().iter().all(|r| day_of(T0) <= r.date && r.date < day_of(T1)));
    assert!(snapshot.headcount_reports().iter().all(|r| T0 <= r.timestamp && r.timestamp < T1));
    check_consistency(&snapshot);
}

#[test]
fn a_second_expansion_founds_herds_on_its_own_pastures_only() {
    let mut snapshot = farm();
    let mut rng = RandomSource::from_seed(3);
    assert_eq!(grow(&mut snapshot, &mut rng, T0, T1, 30, &[0, 1], 20, 5, 1_000), Ok(()));
    let herds_before = snapshot.herds().clone();
    let livestock_before = snapshot.livestock().clone();
    let pastures_before = snapshot.pastures().clone();
    let feeding_before = snapshot.feeding_reports().clone();
    let headcounts_before = snapshot.headcount_reports().clone();
    let health_before = snapshot.health_reports().clone();
    let warehouses_before = snapshot.warehouses().clone();
    assert_eq!(snapshot.add_species("Yorkshire Pig", SpeciesKind::Animal, 167, needs(900, 700, 400)), Ok(3));
    assert_eq!(grow(&mut snapshot, &mut rng, T1, T2, 10, &[3], 0, 0, 2_000), Ok(()));
    assert_eq!(snapshot.pastures().len(), 40);
    assert_eq!(snapshot.pastures()[..30], pastures_before[..]);
    assert_eq!(snapshot.herds().len(), 40);
    for (h, herd) in snapshot.herds().iter().enumerate() {
        if h < 30 {
            assert_eq!(herd.pasture_id, herds_before[h].pasture_id);
            assert_eq!(herd.species_id, herds_before[h].species_id);
            assert!(herd.pasture_id < 30);
        } else {
            assert_eq!(herd.pasture_id, h);
            assert_eq!(herd.species_id, 3);
        }
    }
    assert_eq!(snapshot.employees().len(), 20);
    assert_eq!(snapshot.warehouses(), &warehouses_before);
    let livestock = snapshot.livestock();
    assert!(livestock.len() > livestock_before.len());
    for (before, after) in livestock_before.iter().zip(livestock.iter()) {
        assert_eq!((after.id, after.birth, after.herd_id, after.species_id),
                   (before.id, before.birth, before.herd_id, before.species_id));
        if before.disposal.is_some() {
            assert_eq!(after, before);
        }
    }
    assert!(livestock[livestock_before.len()..].iter().all(|a| T1 <= a.birth && a.birth < T2));
    assert!(livestock[livestock_before.len()..].iter().any(|a| a.species_id == 3));
    assert_eq!(snapshot.feeding_reports().len(), feeding_before.len() + 40 * 50);
    assert_eq!(snapshot.feeding_reports()[..feeding_before.len()], feeding_before[..]);
    assert_eq!(snapshot.headcount_reports().len(), headcounts_before.len() + 40 * 50);
    assert_eq!(snapshot.headcount_reports()[..headcounts_before.len()], headcounts_before[..]);
    assert_eq!(snapshot.health_reports().len(), health_before.len() + 40 * 50);
    assert_eq!(snapshot.health_reports()[..health_before.len()], health_before[..]);
    assert!(snapshot.headcount_reports()[headcounts_before.len()..].iter().all(|r| T1 <= r.timestamp && r.timestamp < T2));
    check_consistency(&snapshot);
}

#[test]
fn equal_seeds_give_equal_snapshots() {
    let mut first = farm();
    let mut second = farm();
    grow(&mut first, &mut RandomSource::from_seed(77), T0, T1, 10, &[0, 1], 5, 2, 500).unwrap();
    grow(&mut second, &mut RandomSource::from_seed(77), T0, T1, 10, &[0, 1], 5, 2, 500).unwrap();
    assert_eq!(first.pastures(), second.pastures());
    assert_eq!(first.herds(), second.herds());
    assert_eq!(first.livestock(), second.livestock());
    assert_eq!(first.warehouses(), second.warehouses());
    assert_eq!(first.feeding_reports(), second.feeding_reports());
    assert_eq!(first.headcount_reports(), second.headcount_reports());
    assert_eq!(first.health_reports(), second.health_reports());
}

#[test]
fn a_refused_expansion_changes_nothing() {
    let mut snapshot = farm();
    let mut rng = RandomSource::from_seed(4);
    grow(&mut snapshot, &mut rng, T0, T1, 5, &[0], 3, 1, 0).unwrap();
    let pastures = snapshot.pastures().clone();
    let herds = snapshot.herds().clone();
    let livestock = snapshot.livestock().clone();
    let feeding = snapshot.feeding_reports().clone();
    let headcounts = snapshot.headcount_reports().clone();
    let attempts = [
        grow(&mut snapshot, &mut rng, T1, T1, 5, &[0], 3, 1, 0),
        grow(&mut snapshot, &mut rng, T1, MAX_TIMESTAMP + 1, 5, &[0], 3, 1, 0),
        grow(&mut snapshot, &mut rng, T1, T2, 5, &[], 3, 1, 0),
        grow(&mut snapshot, &mut rng, T1, T2, 5, &[0, 3], 3, 1, 0),
        grow(&mut snapshot, &mut rng, T1, T2, 5, &[0, 2], 3, 1, 0),
        grow(&mut snapshot, &mut rng, T1, T2, 5, &[0], 3, 1, 10_001),
    ];
    assert_eq!(
        attempts,
        [
            Err(ConfigError::InvalidWindow),
            Err(ConfigError::TimestampOutOfRange),
            Err(ConfigError::NoEligibleSpecies),
            Err(ConfigError::UnknownSpecies),
            Err(ConfigError::UnsuitableSpecies),
            Err(ConfigError::InvalidPercentage),
        ]
    );
    assert_eq!(snapshot.pastures(), &pastures);
    assert_eq!(snapshot.herds(), &herds);
    assert_eq!(snapshot.livestock(), &livestock);
    assert_eq!(snapshot.feeding_reports(), &feeding);
    assert_eq!(snapshot.headcount_reports(), &headcounts);
    assert_eq!(snapshot.employees().len(), 3);
    assert_eq!(snapshot.warehouses().len(), 1);
}

#[test]
fn an_expansion_is_refused_for_bad_ranges_and_pools() {
    let mut snapshot = farm();
    let mut rng = RandomSource::from_seed(4);
    let good = area_ranges();
    let inverted = PastureKindMap::new(
        PastureAreaMinMax { min: 2, max: 1 },
        PastureAreaMinMax { min: 1, max: 1 },
        PastureAreaMinMax { min: 1, max: 1 },
    );
    let empty: [&str; 0] = [];
    assert_eq!(
        snapshot.expand(&mut rng, T0, T1, 0, 1, &good, &[0], 1, &NAMES, &SURNAMES, 1, 2, 0, 0, 1, 2, 0, 0, 0),
        Err(ConfigError::InvalidWindow)
    );
    assert_eq!(
        snapshot.expand(&mut rng, T0, T1, DAY, 1, &inverted, &[0], 1, &NAMES, &SURNAMES, 1, 2, 0, 0, 1, 2, 0, 0, 0),
        Err(ConfigError::InvalidRange)
    );
    assert_eq!(
        snapshot.expand(&mut rng, T0, T1, DAY, 1, &good, &[0], 1, &empty, &SURNAMES, 1, 2, 0, 0, 1, 2, 0, 0, 0),
        Err(ConfigError::EmptyPool)
    );
    assert_eq!(
        snapshot.expand(&mut rng, T0, T1, DAY, 1, &good, &[0], 1, &NAMES, &empty, 1, 2, 0, 0, 1, 2, 0, 0, 0),
        Err(ConfigError::EmptyPool)
    );
    assert_eq!(
        snapshot.expand(&mut rng, T0, T1, DAY, 1, &good, &[0], 1, &NAMES, &SURNAMES, 2, 2, 0, 0, 1, 2, 0, 0, 0),
        Err(ConfigError::InvalidRange)
    );
    assert_eq!(
        snapshot.expand(&mut rng, T0, T1, DAY, 1, &good, &[0], 0, &NAMES, &SURNAMES, 1, 2, 0, 0, 1, 2, 0, 0, 0),
        Err(ConfigError::EmptyPool)
    );
    assert_eq!(
        snapshot.expand(&mut rng, T0, T1, DAY, 1, &good, &[0], 1, &NAMES, &SURNAMES, 1, 2, 0, 0, 3, 2, 0, 0, 0),
        Err(ConfigError::InvalidRange)
    );
    assert!(snapshot.pastures().is_empty());
    assert!(snapshot.employees().is_empty());
    assert_eq!(
        snapshot.expand(&mut rng, T0, T1, DAY, 1, &good, &[0], 1, &NAMES, &SURNAMES, 1, 2, 0, 0, 2, 2, 0, 0, 0),
        Ok(())
    );
}

#[test]
fn warehouses_of_a_snapshot_can_be_enlarged() {
    let mut snapshot = farm();
    let mut rng = RandomSource::from_seed(6);
    assert_eq!(snapshot.enlarge_warehouses(&mut rng, 10, 10), Err(ConfigError::EmptyPool));
    grow(&mut snapshot, &mut rng, T0, T1, 2, &[0], 30, 20, 0).unwrap();
    let before = snapshot.warehouses().clone();
    let herds = snapshot.herds().clone();
    assert_eq!(snapshot.enlarge_warehouses(&mut rng, 0, 10), Err(ConfigError::InvalidRange));
    assert_eq!(snapshot.warehouses(), &before);
    let mut changed = 0;
    for _ in 0..10 {
        assert_eq!(snapshot.enlarge_warehouses(&mut rng, 4_000_000, 9_000_000), Ok(()));
    }
    for (old, new) in before.iter().zip(snapshot.warehouses().iter()) {
        assert_eq!((new.id, new.manager_id), (old.id, old.manager_id));
        assert!(old.area <= new.area && new.area < old.area + 10 * 4_000_000);
        assert!(old.volume <= new.volume && new.volume < old.volume + 10 * 9_000_000);
        if new != old {
            changed += 1;
        }
    }
    assert!(changed > 0);
    assert_eq!(snapshot.herds(), &herds);
    check_consistency(&snapshot);
}
