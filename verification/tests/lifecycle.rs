use farm_snapshot::error::ConfigError;
use farm_snapshot::herd::Herd;
use farm_snapshot::livestock::{
    apply_cull, butcher_livestock_vec, expand_livestock, health_disposal_time, herd_capacity,
    kill_off_livestock_vec, DisposalPurpose, Livestock,
};
use farm_snapshot::pasture::{Pasture, PastureKind, PastureKindMap};
use farm_snapshot::random::RandomSource;
use farm_snapshot::share::{floor_share, rounded_share, ONE_HUNDRED_PERCENT};
use farm_snapshot::species::{Species, SpeciesAreaRequirements, SpeciesKind};
use farm_snapshot::time::{MAX_TIMESTAMP, MIN_TIMESTAMP, SECONDS_PER_DAY};

const DAY: i64 = SECONDS_PER_DAY;

fn animal(id: usize, lifespan_days: u64, open: u64, covered: u64, individual: u64) -> Species {
    Species::new(
        id,
        "Animal",
        SpeciesKind::Animal,
        lifespan_days,
        Some(SpeciesAreaRequirements {
            pasture_kind_to_req_area: PastureKindMap::new(open, covered, individual),
        }),
    )
}

fn live(id: usize, birth: i64, herd: &Herd) -> Livestock {
    Livestock::new(id, birth, None, None, herd)
}

fn a_herd_of(count: usize, species_id: usize) -> (Vec<Herd>, Vec<Livestock>) {
    let herds = vec![Herd { id: 0, pasture_id: 0, species_id, size: count }];
    let livestock = (0..count).map(|id| live(id, 1_000 * DAY + id as i64, &herds[0])).collect();
    (herds, livestock)
}

fn live_in(livestock: &[Livestock], herd: usize) -> usize {
    livestock.iter().filter(|a| a.herd_id == herd && a.disposal.is_none()).count()
}

#[test]
fn capacity_is_the_area_over_need_times_lifespan_rounded_down() {
    assert_eq!(herd_capacity(1_000_000, 1_000, 100), Some(10));
    assert_eq!(herd_capacity(1_099_999, 1_000, 100), Some(10));
    assert_eq!(herd_capacity(1_100_000, 1_000, 100), Some(11));
    assert_eq!(herd_capacity(99_999, 1_000, 100), Some(0));
    assert_eq!(herd_capacity(0, 1_000, 100), Some(0));
    assert_eq!(herd_capacity(1_000, 25, 40), Some(1));
    assert_eq!(herd_capacity(u64::MAX, 1, 1), Some(u64::MAX));
    assert_eq!(herd_capacity(u64::MAX, u64::MAX, u64::MAX), Some(0));
}

#[test]
fn capacity_is_undefined_without_need_or_lifespan() {
    assert_eq!(herd_capacity(1_000_000, 0, 100), None);
    assert_eq!(herd_capacity(1_000_000, 1_000, 0), None);
    assert_eq!(herd_capacity(0, 0, 0), None);
}

#[test]
fn an_open_pasture_of_ten_thousand_square_metres_yields_ten_animals() {
    let mut rng = RandomSource::from_seed(1);
    let pastures = vec![Pasture::new(0, 1_000_000, PastureKind::Open)];
    let species = vec![animal(0, 100, 1_000, 7, 3)];
    let mut herds = vec![Herd::new(0, &pastures[0], &species[0])];
    let mut livestock = Vec::new();
    assert_eq!(
        expand_livestock(&mut rng, &mut livestock, &mut herds, &species, &pastures, 0, 30 * DAY),
        Ok(())
    );
    assert_eq!(livestock.len(), 10);
    assert_eq!(herds[0].size, 10);
    for (position, born) in livestock.iter().enumerate() {
        assert_eq!(born.id, position);
        assert_eq!(born.herd_id, 0);
        assert_eq!(born.species_id, 0);
        assert!(0 <= born.birth && born.birth < 30 * DAY);
        assert_eq!(born.disposal, None);
        assert_eq!(born.disposal_purpose, None);
    }
    assert!(livestock.iter().any(|born| born.birth != livestock[0].birth));
}

#[test]
fn every_herd_gets_its_capacity_in_turn() {
    let mut rng = RandomSource::from_seed(2);
    let pastures = vec![
        Pasture::new(0, 1_000_000, PastureKind::Open),
        Pasture::new(1, 50_000, PastureKind::Covered),
        Pasture::new(2, 900, PastureKind::Individual),
    ];
    let species = vec![animal(0, 100, 1_000, 800, 200), animal(1, 40, 100, 100, 25)];
    let mut herds = vec![
        Herd { id: 0, pasture_id: 1, species_id: 1, size: 1 },
        Herd { id: 1, pasture_id: 0, species_id: 0, size: 0 },
        Herd { id: 2, pasture_id: 2, species_id: 1, size: 0 },
        Herd { id: 3, pasture_id: 2, species_id: 0, size: 0 },
    ];
    let mut livestock = vec![live(0, -5, &herds[0])];
    assert_eq!(
        expand_livestock(&mut rng, &mut livestock, &mut herds, &species, &pastures, 100, 200),
        Ok(())
    );
    // 50_000 / (100 * 40) = 12, 1_000_000 / (1_000 * 100) = 10, 900 / (25 * 40) = 0,
    // 900 / (200 * 100) = 0
    assert_eq!(livestock.len(), 1 + 12 + 10);
    assert_eq!(livestock[0], live(0, -5, &herds[0]));
    assert!(livestock[1..13].iter().all(|a| a.herd_id == 0 && a.species_id == 1));
    assert!(livestock[13..23].iter().all(|a| a.herd_id == 1 && a.species_id == 0));
    assert!(livestock[1..].iter().all(|a| 100 <= a.birth && a.birth < 200));
    assert!(livestock.iter().enumerate().all(|(position, a)| a.id == position));
    assert_eq!(herds.iter().map(|herd| herd.size).collect::<Vec<_>>(), vec![13, 10, 0, 0]);
    assert_eq!(herds[0].pasture_id, 1);
    assert_eq!(herds[1].species_id, 0);
}

#[test]
fn expanding_again_adds_a_further_batch() {
    let mut rng = RandomSource::from_seed(3);
    let pastures = vec![Pasture::new(0, 1_000_000, PastureKind::Open)];
    let species = vec![animal(0, 100, 1_000, 7, 3)];
    let mut herds = vec![Herd::new(0, &pastures[0], &species[0])];
    let mut livestock = Vec::new();
    expand_livestock(&mut rng, &mut livestock, &mut herds, &species, &pastures, 0, 10).unwrap();
    expand_livestock(&mut rng, &mut livestock, &mut herds, &species, &pastures, 10, 11).unwrap();
    assert_eq!(livestock.len(), 20);
    assert_eq!(herds[0].size, 20);
    assert!(livestock[10..].iter().all(|a| a.birth == 10));
}

#[test]
fn births_are_refused_outside_the_supported_span() {
    let mut rng = RandomSource::from_seed(1);
    let pastures = vec![Pasture::new(0, 1_000_000, PastureKind::Open)];
    let species = vec![animal(0, 100, 1_000, 7, 3)];
    let mut herds = vec![Herd::new(0, &pastures[0], &species[0])];
    let mut livestock = Vec::new();
    assert_eq!(
        expand_livestock(&mut rng, &mut livestock, &mut herds, &species, &pastures, MIN_TIMESTAMP - 1, 0),
        Err(ConfigError::TimestampOutOfRange)
    );
    assert_eq!(
        expand_livestock(&mut rng, &mut livestock, &mut herds, &species, &pastures, 0, MAX_TIMESTAMP + 1),
        Err(ConfigError::TimestampOutOfRange)
    );
    assert!(livestock.is_empty());
    assert_eq!(herds[0].size, 0);
}

#[test]
fn births_are_refused_in_an_empty_window() {
    let mut rng = RandomSource::from_seed(1);
    let pastures = vec![Pasture::new(0, 1_000_000, PastureKind::Open)];
    let species = vec![animal(0, 100, 1_000, 7, 3)];
    let mut herds = vec![Herd::new(0, &pastures[0], &species[0])];
    let mut livestock = Vec::new();
    for (earliest, latest) in [(5, 5), (6, 5)] {
        assert_eq!(
            expand_livestock(&mut rng, &mut livestock, &mut herds, &species, &pastures, earliest, latest),
            Err(ConfigError::InvalidWindow)
        );
    }
    assert!(livestock.is_empty());
}

#[test]
fn births_are_refused_for_a_herd_without_capacity() {
    let mut rng = RandomSource::from_seed(1);
    let pastures = vec![
        Pasture::new(0, 1_000_000, PastureKind::Open),
        Pasture::new(1, 1_000_000, PastureKind::Covered),
    ];
    let species = vec![
        animal(0, 100, 1_000, 0, 3),
        animal(1, 0, 1_000, 7, 3),
        Species::new(2, "Wheat", SpeciesKind::Plant, 210, None),
    ];
    for (pasture_id, species_id) in [(1, 0), (0, 1), (0, 2)] {
        let mut herds = vec![
            Herd { id: 0, pasture_id: 0, species_id: 0, size: 0 },
            Herd { id: 1, pasture_id, species_id, size: 0 },
        ];
        let mut livestock = Vec::new();
        assert_eq!(
            expand_livestock(&mut rng, &mut livestock, &mut herds, &species, &pastures, 0, 10),
            Err(ConfigError::UnsuitableSpecies)
        );
        assert!(livestock.is_empty());
        assert_eq!(herds[0].size, 0);
    }
}

#[test]
fn shares_are_rounded_to_the_nearest_whole() {
    assert_eq!(rounded_share(100, 2_000), Ok(20));
    assert_eq!(rounded_share(100, 1_000), Ok(10));
    assert_eq!(rounded_share(3, 5_000), Ok(2));
    assert_eq!(rounded_share(10, 1_249), Ok(1));
    assert_eq!(rounded_share(10, 1_499), Ok(1));
    assert_eq!(rounded_share(10, 1_500), Ok(2));
    assert_eq!(rounded_share(1, 4_999), Ok(0));
    assert_eq!(rounded_share(1, 5_000), Ok(1));
    assert_eq!(rounded_share(0, 10_000), Ok(0));
    assert_eq!(rounded_share(7, 0), Ok(0));
    assert_eq!(rounded_share(7, ONE_HUNDRED_PERCENT), Ok(7));
    assert_eq!(rounded_share(usize::MAX, ONE_HUNDRED_PERCENT), Ok(usize::MAX));
}

#[test]
fn a_share_above_one_hundred_percent_is_refused() {
    assert_eq!(rounded_share(100, 10_001), Err(ConfigError::InvalidPercentage));
    assert_eq!(rounded_share(0, u32::MAX), Err(ConfigError::InvalidPercentage));
}

#[test]
fn shares_are_rounded_down() {
    assert_eq!(floor_share(10_000, 1_000), 1_000);
    assert_eq!(floor_share(9_999, 1_000), 999);
    assert_eq!(floor_share(19, 9_999), 18);
    assert_eq!(floor_share(10, 20_000), 20);
    assert_eq!(floor_share(0, 5_000), 0);
    assert_eq!(floor_share(u32::MAX, u32::MAX), 1_844_674_406_511_961);
}

#[test]
fn a_health_disposal_falls_at_death_but_not_after_the_limit_nor_before_birth() {
    assert_eq!(health_disposal_time(100, 50, 1_000), 150);
    assert_eq!(health_disposal_time(100, 0, 1_000), 100);
    assert_eq!(health_disposal_time(100, 900, 1_000), 1_000);
    assert_eq!(health_disposal_time(100, 901, 1_000), 1_000);
    assert_eq!(health_disposal_time(100, u64::MAX, 1_000), 1_000);
    assert_eq!(health_disposal_time(100, 50, 100), 100);
    assert_eq!(health_disposal_time(100, 50, 99), 100);
    assert_eq!(health_disposal_time(100, 0, 99), 100);
    assert_eq!(health_disposal_time(-100, 30, -80), -80);
    assert_eq!(health_disposal_time(i64::MAX, u64::MAX, i64::MAX), i64::MAX);
    assert_eq!(health_disposal_time(i64::MIN, u64::MAX, i64::MAX), i64::MAX);
}

#[test]
fn the_selected_live_animals_are_culled() {
    let (mut herds, mut livestock) = a_herd_of(5, 0);
    let birth = |id: i64| 1_000 * DAY + id;
    apply_cull(&mut livestock, &mut herds, &vec![3, 1], &vec![10, 432_000], birth(0) + DAY);
    assert_eq!(livestock[0], live(0, birth(0), &herds[0]));
    assert_eq!(livestock[2], live(2, birth(2), &herds[0]));
    assert_eq!(livestock[4], live(4, birth(4), &herds[0]));
    assert_eq!(
        livestock[3],
        Livestock::new(3, birth(3), Some(birth(3) + 10), Some(DisposalPurpose::Health), &herds[0])
    );
    assert_eq!(
        livestock[1],
        Livestock::new(1, birth(1), Some(birth(0) + DAY), Some(DisposalPurpose::Health), &herds[0])
    );
    assert_eq!(herds[0].size, 3);
}

#[test]
fn a_selected_animal_that_is_disposed_of_is_passed_over() {
    let (mut herds, mut livestock) = a_herd_of(3, 0);
    herds[0].size = 2;
    livestock[1].disposal = Some(livestock[1].birth + 7);
    livestock[1].disposal_purpose = Some(DisposalPurpose::Butcher);
    let before = livestock.clone();
    apply_cull(&mut livestock, &mut herds, &vec![1, 1], &vec![1, 2], i64::MAX);
    assert_eq!(livestock, before);
    assert_eq!(herds[0].size, 2);
    apply_cull(&mut livestock, &mut herds, &vec![2, 2], &vec![1, 2], i64::MAX);
    assert_eq!(livestock[2].disposal, Some(before[2].birth + 1));
    assert_eq!(herds[0].size, 1);
}

#[test]
fn culling_a_fifth_of_a_hundred_disposes_of_twenty_and_never_again_of_those() {
    let mut rng = RandomSource::from_seed(8);
    let species = vec![animal(0, 100, 1_000, 800, 200)];
    let (mut herds, mut livestock) = a_herd_of(100, 0);
    let max_date = 1_050 * DAY;
    assert_eq!(
        kill_off_livestock_vec(&mut rng, &mut livestock, &mut herds, 2_000, &species, max_date),
        Ok(())
    );
    let culled: Vec<Livestock> = livestock.iter().filter(|a| a.disposal.is_some()).cloned().collect();
    assert_eq!(culled.len(), 20);
    assert_eq!(herds[0].size, 80);
    for victim in &culled {
        assert_eq!(victim.disposal_purpose, Some(DisposalPurpose::Health));
        let disposal = victim.disposal.unwrap();
        assert!(victim.birth <= disposal && disposal <= max_date);
        assert!(disposal < victim.birth + 100 * DAY);
    }
    assert!(livestock.iter().filter(|a| a.disposal.is_none()).all(|a| a.disposal_purpose.is_none()));
    for _ in 0..5 {
        assert_eq!(
            kill_off_livestock_vec(&mut rng, &mut livestock, &mut herds, 2_000, &species, max_date + DAY),
            Ok(())
        );
        for victim in &culled {
            assert_eq!(livestock[victim.id], *victim);
        }
        assert_eq!(herds[0].size, live_in(&livestock, 0));
    }
    let disposed = livestock.iter().filter(|a| a.disposal.is_some()).count();
    assert!(20 < disposed && disposed <= 100);
}

#[test]
fn culling_everything_leaves_no_animal_live() {
    let mut rng = RandomSource::from_seed(9);
    let species = vec![animal(0, 100, 1_000, 800, 200), animal(1, 1, 1, 1, 1)];
    let mut herds = vec![
        Herd { id: 0, pasture_id: 0, species_id: 0, size: 2 },
        Herd { id: 1, pasture_id: 0, species_id: 1, size: 1 },
    ];
    let mut livestock =
        vec![live(0, 0, &herds[0]), live(1, 10, &herds[1]), live(2, 20, &herds[0])];
    assert_eq!(
        kill_off_livestock_vec(&mut rng, &mut livestock, &mut herds, 10_000, &species, 5),
        Ok(())
    );
    assert_eq!(livestock[0].disposal.map(|d| d <= 5), Some(true));
    assert_eq!(livestock[1].disposal, Some(10));
    assert_eq!(livestock[2].disposal, Some(20));
    assert!(livestock.iter().all(|a| a.disposal_purpose == Some(DisposalPurpose::Health)));
    assert_eq!(herds[0].size, 0);
    assert_eq!(herds[1].size, 0);
}

#[test]
fn culling_nothing_changes_nothing() {
    let mut rng = RandomSource::from_seed(9);
    let species = vec![animal(0, 100, 1_000, 800, 200)];
    let (mut herds, mut livestock) = a_herd_of(4, 0);
    let before = livestock.clone();
    assert_eq!(kill_off_livestock_vec(&mut rng, &mut livestock, &mut herds, 1_249, &species, 0), Ok(()));
    assert_eq!(livestock, before);
    assert_eq!(herds[0].size, 4);
    let mut none: Vec<Livestock> = Vec::new();
    assert_eq!(kill_off_livestock_vec(&mut rng, &mut none, &mut herds, 10_000, &species, 0), Ok(()));
}

#[test]
fn culling_is_refused_above_one_hundred_percent() {
    let mut rng = RandomSource::from_seed(9);
    let species = vec![animal(0, 100, 1_000, 800, 200)];
    let (mut herds, mut livestock) = a_herd_of(4, 0);
    let before = livestock.clone();
    assert_eq!(
        kill_off_livestock_vec(&mut rng, &mut livestock, &mut herds, 10_001, &species, 0),
        Err(ConfigError::InvalidPercentage)
    );
    assert_eq!(livestock, before);
    assert_eq!(herds[0].size, 4);
}

#[test]
fn culling_is_refused_for_a_live_animal_without_lifespan() {
    let mut rng = RandomSource::from_seed(9);
    let species = vec![animal(0, 0, 1_000, 800, 200)];
    let (mut herds, mut livestock) = a_herd_of(2, 0);
    let before = livestock.clone();
    assert_eq!(
        kill_off_livestock_vec(&mut rng, &mut livestock, &mut herds, 0, &species, 0),
        Err(ConfigError::UnsuitableSpecies)
    );
    assert_eq!(livestock, before);
    apply_cull(&mut livestock, &mut herds, &vec![0, 1], &vec![0, 0], i64::MAX);
    assert_eq!(
        kill_off_livestock_vec(&mut rng, &mut livestock, &mut herds, 10_000, &species, 0),
        Ok(())
    );
}

#[test]
fn animals_past_their_lifespan_are_slaughtered() {
    let species = vec![animal(0, 100, 1_000, 800, 200), animal(1, 40, 100, 100, 25)];
    let mut herds = vec![
        Herd { id: 0, pasture_id: 0, species_id: 0, size: 3 },
        Herd { id: 1, pasture_id: 0, species_id: 1, size: 1 },
    ];
    let mut livestock = vec![
        live(0, 0, &herds[0]),
        live(1, DAY, &herds[0]),
        live(2, DAY + 1, &herds[0]),
        live(3, 61 * DAY, &herds[1]),
    ];
    let cutoff = 101 * DAY + 1;
    butcher_livestock_vec(&mut livestock, &mut herds, &species, cutoff);
    assert_eq!(
        livestock,
        vec![
            Livestock::new(0, 0, Some(100 * DAY), Some(DisposalPurpose::Butcher), &herds[0]),
            Livestock::new(1, DAY, Some(101 * DAY), Some(DisposalPurpose::Butcher), &herds[0]),
            live(2, DAY + 1, &herds[0]),
            Livestock::new(3, 61 * DAY, Some(101 * DAY), Some(DisposalPurpose::Butcher), &herds[1]),
        ]
    );
    assert_eq!(herds[0].size, 1);
    assert_eq!(herds[1].size, 0);
}

#[test]
fn slaughter_twice_is_slaughter_once() {
    let species = vec![animal(0, 100, 1_000, 800, 200)];
    let (mut herds, mut livestock) = a_herd_of(10, 0);
    let cutoff = 1_100 * DAY + 5;
    butcher_livestock_vec(&mut livestock, &mut herds, &species, cutoff);
    let once = livestock.clone();
    let size = herds[0].size;
    assert_eq!(once.iter().filter(|a| a.disposal.is_some()).count(), 5);
    butcher_livestock_vec(&mut livestock, &mut herds, &species, cutoff);
    assert_eq!(livestock, once);
    assert_eq!(herds[0].size, size);
    assert_eq!(size, 5);
}

#[test]
fn slaughter_never_overwrites_a_health_disposal() {
    let mut rng = RandomSource::from_seed(12);
    let species = vec![animal(0, 100, 1_000, 800, 200)];
    let (mut herds, mut livestock) = a_herd_of(50, 0);
    kill_off_livestock_vec(&mut rng, &mut livestock, &mut herds, 5_000, &species, 2_000 * DAY).unwrap();
    let culled = livestock.clone();
    butcher_livestock_vec(&mut livestock, &mut herds, &species, 2_000 * DAY);
    for (before, after) in culled.iter().zip(livestock.iter()) {
        if before.disposal.is_some() {
            assert_eq!(after, before);
            assert_eq!(after.disposal_purpose, Some(DisposalPurpose::Health));
        } else {
            assert_eq!(after.disposal, Some(before.birth + 100 * DAY));
            assert_eq!(after.disposal_purpose, Some(DisposalPurpose::Butcher));
        }
        assert!(after.disposal.unwrap() >= after.birth);
    }
    assert_eq!(livestock.iter().filter(|a| a.disposal_purpose == Some(DisposalPurpose::Health)).count(), 25);
    assert_eq!(herds[0].size, 0);
    let slaughtered = livestock.clone();
    kill_off_livestock_vec(&mut rng, &mut livestock, &mut herds, 10_000, &species, 3_000 * DAY).unwrap();
    assert_eq!(livestock, slaughtered);
}
