//! The life of the animals: how many a herd is given, when they are born,
//! and how an animal comes to be disposed of, for its health or for
//! slaughter. An animal that has been disposed of is never touched again.
use vstd::prelude::*;

use crate::error::ConfigError;
use crate::herd::{herds_wf, Herd};
use crate::pasture::Pasture;
use crate::random::{is_distinct_selection, RandomSource};
use crate::share::{rounded_share, spec_rounded_share};
use crate::species::{species_wf, Species};
use crate::time::{is_timestamp_in_range, timestamp_in_range, SECONDS_PER_DAY};

verus! {

/// Why an animal was disposed of.
#[derive(Clone, Copy, Debug, PartialEq, Eq, Structural)]
pub enum DisposalPurpose {
    Butcher,
    Health,
}

/// One animal. `birth` and `disposal` are instants in seconds.
#[derive(Clone, Copy, Debug, PartialEq, Eq)]
pub struct Livestock {
    pub id: usize,
    pub birth: i64,
    pub disposal: Option<i64>,
    pub disposal_purpose: Option<DisposalPurpose>,
    pub species_id: usize,
    pub herd_id: usize,
}

impl Livestock {
    /// An animal of `herd` and of its species.
    pub fn new(
        id: usize,
        birth: i64,
        disposal: Option<i64>,
        disposal_purpose: Option<DisposalPurpose>,
        herd: &Herd,
    ) -> (animal: Self)
        ensures
            animal.id == id,
            animal.birth == birth,
            animal.disposal == disposal,
            animal.disposal_purpose == disposal_purpose,
            animal.species_id == herd.species_id,
            animal.herd_id == herd.id,
    {
        Livestock {
            id,
            birth,
            disposal,
            disposal_purpose,
            species_id: herd.species_id,
            herd_id: herd.id,
        }
    }

    /// The animal has not been disposed of.
    pub open spec fn is_live(&self) -> bool {
        self.disposal is None
    }

    /// The record is consistent: the birth is a supported instant, and a
    /// disposal has exactly one purpose and is no earlier than the birth.
    pub open spec fn record_ok(&self) -> bool {
        &&& timestamp_in_range(self.birth as int)
        &&& self.disposal is Some <==> self.disposal_purpose is Some
        &&& self.disposal is Some ==> self.birth <= self.disposal->0
    }

    /// `later` is this animal, either untouched or newly disposed of; an
    /// animal that was disposed of already is untouched.
    pub open spec fn evolves_to(&self, later: Livestock) -> bool {
        &&& later.id == self.id
        &&& later.birth == self.birth
        &&& later.species_id == self.species_id
        &&& later.herd_id == self.herd_id
        &&& self.disposal is Some ==> later == *self
    }
}

/// Every animal is identified by its position, belongs to a herd that
/// exists, is of that herd's species, and has a consistent record.
pub open spec fn livestock_wf(livestock: Seq<Livestock>, herds: Seq<Herd>) -> bool {
    forall|i: int|
        0 <= i < livestock.len() ==> {
            &&& (#[trigger] livestock[i]).id == i
            &&& livestock[i].herd_id < herds.len()
            &&& livestock[i].species_id == herds[livestock[i].herd_id as int].species_id
            &&& livestock[i].record_ok()
        }
}

/// Every herd names a species that exists.
pub open spec fn herds_name_species(herds: Seq<Herd>, species_count: int) -> bool {
    forall|h: int| 0 <= h < herds.len() ==> (#[trigger] herds[h]).species_id < species_count
}

/// The number of live animals of herd `herd`.
pub open spec fn live_count(livestock: Seq<Livestock>, herd: int) -> nat
    decreases livestock.len(),
{
    if livestock.len() == 0 {
        0
    } else {
        live_count(livestock.drop_last(), herd) + if counts_in(livestock.last(), herd) {
            1nat
        } else {
            0nat
        }
    }
}

/// `animal` is a live animal of herd `herd`.
pub open spec fn counts_in(animal: Livestock, herd: int) -> bool {
    animal.herd_id == herd && animal.is_live()
}

/// The size of every herd is the number of its live animals.
pub open spec fn sizes_match(herds: Seq<Herd>, livestock: Seq<Livestock>) -> bool {
    forall|h: int| 0 <= h < herds.len() ==> (#[trigger] herds[h]).size == live_count(livestock, h)
}

/// `herds` with every size set to the number of the herd's live animals
/// among `livestock`.
pub open spec fn resize_herds(herds: Seq<Herd>, livestock: Seq<Livestock>) -> Seq<Herd> {
    Seq::new(
        herds.len(),
        |h: int|
            Herd {
                id: herds[h].id,
                pasture_id: herds[h].pasture_id,
                species_id: herds[h].species_id,
                size: live_count(livestock, h) as usize,
            },
    )
}

/// A herd has no more live animals than there are animals.
pub proof fn lemma_live_count_bound(livestock: Seq<Livestock>, herd: int)
    ensures
        live_count(livestock, herd) <= livestock.len(),
    decreases livestock.len(),
{
    if livestock.len() > 0 {
        lemma_live_count_bound(livestock.drop_last(), herd);
    }
}

/// A new animal adds one to the live animals of its herd if it is live, and
/// nothing to those of any other herd.
pub proof fn lemma_live_count_push(livestock: Seq<Livestock>, animal: Livestock, herd: int)
    ensures
        live_count(livestock.push(animal), herd) == live_count(livestock, herd) + if counts_in(
            animal,
            herd,
        ) {
            1nat
        } else {
            0nat
        },
{
    assert(livestock.push(animal).drop_last() =~= livestock);
}

/// Replacing one animal changes the number of live animals of a herd by
/// what the new animal counts for it less what the old one counted.
pub proof fn lemma_live_count_update(
    livestock: Seq<Livestock>,
    i: int,
    animal: Livestock,
    herd: int,
)
    requires
        0 <= i < livestock.len(),
    ensures
        live_count(livestock.update(i, animal), herd) + (if counts_in(livestock[i], herd) {
            1nat
        } else {
            0nat
        }) == live_count(livestock, herd) + (if counts_in(animal, herd) {
            1nat
        } else {
            0nat
        }),
    decreases livestock.len(),
{
    let updated = livestock.update(i, animal);
    if i == livestock.len() - 1 {
        assert(updated.drop_last() =~= livestock.drop_last());
    } else {
        assert(updated.drop_last() =~= livestock.drop_last().update(i, animal));
        lemma_live_count_update(livestock.drop_last(), i, animal, herd);
    }
}

/// The instant at which an animal born at `birth` ends its natural life.
pub open spec fn end_of_life(animal: Livestock, species: Seq<Species>) -> int {
    animal.birth + species[animal.species_id as int].lifespan_seconds()
}

/// What slaughter at the end of the natural life makes of one animal: an
/// animal without a disposal purpose whose life ends before `cutoff` is
/// disposed of at that end; any other is left as it is.
pub open spec fn butcher_one(animal: Livestock, species: Seq<Species>, cutoff: int) -> Livestock {
    if animal.disposal_purpose is None && end_of_life(animal, species) < cutoff {
        Livestock {
            id: animal.id,
            birth: animal.birth,
            disposal: Some(end_of_life(animal, species) as i64),
            disposal_purpose: Some(DisposalPurpose::Butcher),
            species_id: animal.species_id,
            herd_id: animal.herd_id,
        }
    } else {
        animal
    }
}

/// `butcher_one` applied to every animal.
pub open spec fn butcher_all(livestock: Seq<Livestock>, species: Seq<Species>, cutoff: int) -> Seq<
    Livestock,
> {
    livestock.map_values(|animal: Livestock| butcher_one(animal, species, cutoff))
}

/// Slaughter keeps every record's identity, and leaves an animal that was
/// disposed of before exactly as it was.
pub proof fn lemma_butcher_all_evolves(
    livestock: Seq<Livestock>,
    species: Seq<Species>,
    cutoff: int,
)
    requires
        forall|i: int| 0 <= i < livestock.len() ==> (#[trigger] livestock[i]).record_ok(),
    ensures
        butcher_all(livestock, species, cutoff).len() == livestock.len(),
        forall|i: int|
            0 <= i < livestock.len() ==> (#[trigger] livestock[i]).evolves_to(
                butcher_all(livestock, species, cutoff)[i],
            ),
{
}

/// Slaughter done twice with the same cutoff is slaughter done once.
pub proof fn lemma_butcher_all_idempotent(
    livestock: Seq<Livestock>,
    species: Seq<Species>,
    cutoff: int,
)
    ensures
        butcher_all(butcher_all(livestock, species, cutoff), species, cutoff) == butcher_all(
            livestock,
            species,
            cutoff,
        ),
{
}

/// Disposes of every animal that has no disposal purpose yet and whose
/// natural life ends before `cutoff_time`, at the end of that life and for
/// slaughter, and takes it off its herd's size.
pub fn butcher_livestock_vec(
    livestock: &mut Vec<Livestock>,
    herds: &mut Vec<Herd>,
    species: &Vec<Species>,
    cutoff_time: i64,
)
    requires
        livestock_wf(old(livestock)@, old(herds)@),
        herds_name_species(old(herds)@, species@.len() as int),
        species_wf(species@),
        sizes_match(old(herds)@, old(livestock)@),
    ensures
        final(livestock)@ == butcher_all(old(livestock)@, species@, cutoff_time as int),
        final(herds)@ == resize_herds(old(herds)@, final(livestock)@),
        forall|i: int|
            0 <= i < old(livestock)@.len() ==> (#[trigger] old(livestock)@[i]).evolves_to(
                final(livestock)@[i],
            ),
        livestock_wf(final(livestock)@, final(herds)@),
        sizes_match(final(herds)@, final(livestock)@),
{
    let ghost before = livestock@;
    let ghost herds_before = herds@;
    let mut i: usize = 0;
    while i < livestock.len()
        invariant
            i <= livestock@.len(),
            livestock@.len() == before.len(),
            herds@.len() == herds_before.len(),
            livestock_wf(before, herds_before),
            herds_name_species(herds_before, species@.len() as int),
            species_wf(species@),
            forall|j: int|
                0 <= j < i
                    ==> (#[trigger] livestock@[j]) == butcher_one(before[j], species@, cutoff_time as int),
            forall|j: int| i <= j < before.len() ==> (#[trigger] livestock@[j]) == before[j],
            forall|h: int|
                0 <= h < herds@.len() ==> {
                    &&& (#[trigger] herds@[h]).id == herds_before[h].id
                    &&& herds@[h].pasture_id == herds_before[h].pasture_id
                    &&& herds@[h].species_id == herds_before[h].species_id
                    &&& herds@[h].size == live_count(livestock@, h)
                },
        decreases livestock@.len() - i,
    {
        let animal = livestock[i];
        if animal.disposal_purpose.is_none() {
            let lifespan_days = species[animal.species_id].lifespan_days;
            let end: i64 = animal.birth + (lifespan_days as i64) * SECONDS_PER_DAY;
            if end < cutoff_time {
                let ghost earlier = livestock@;
                let h = animal.herd_id;
                livestock[i].disposal = Some(end);
                livestock[i].disposal_purpose = Some(DisposalPurpose::Butcher);
                proof {
                    assert(livestock@ =~= earlier.update(i as int, livestock@[i as int]));
                    assert forall|g: int| 0 <= g < herds@.len() implies live_count(livestock@, g)
                        == live_count(earlier, g) - if g == h { 1int } else { 0int } by {
                        lemma_live_count_update(earlier, i as int, livestock@[i as int], g);
                    }
                    assert(live_count(livestock@, h as int) + 1 == live_count(earlier, h as int));
                }
                herds[h].size = herds[h].size - 1;
            }
        }
        i = i + 1;
    }
    proof {
        lemma_butcher_all_evolves(before, species@, cutoff_time as int);
    }
}

/// The instant at which an animal born at `birth` that dies `offset` seconds
/// later is disposed of: its death, but no later than `max_date`, and never
/// before its birth.
pub open spec fn spec_health_disposal_time(birth: int, offset: int, max_date: int) -> int {
    if birth + offset <= max_date {
        birth + offset
    } else if birth <= max_date {
        max_date
    } else {
        birth
    }
}

/// The instant of a disposal for health: `birth + offset`, but no later than
/// `max_date`, and never before `birth`.
pub fn health_disposal_time(birth: i64, offset: u64, max_date: i64) -> (instant: i64)
    ensures
        instant == spec_health_disposal_time(birth as int, offset as int, max_date as int),
        birth <= instant,
{
    let death: i128 = birth as i128 + offset as i128;
    if death <= max_date as i128 {
        death as i64
    } else if birth <= max_date {
        max_date
    } else {
        birth
    }
}

/// `animal`, disposed of for its health after living `offset` seconds.
pub open spec fn cull_one(animal: Livestock, offset: int, max_date: int) -> Livestock {
    Livestock {
        id: animal.id,
        birth: animal.birth,
        disposal: Some(spec_health_disposal_time(animal.birth as int, offset, max_date) as i64),
        disposal_purpose: Some(DisposalPurpose::Health),
        species_id: animal.species_id,
        herd_id: animal.herd_id,
    }
}

/// `livestock` after the animal at position `i` was selected: it is culled
/// if it was live, and nothing changes if it was not.
pub open spec fn cull_at(livestock: Seq<Livestock>, i: int, offset: int, max_date: int) -> Seq<
    Livestock,
> {
    if 0 <= i < livestock.len() && livestock[i].is_live() {
        livestock.update(i, cull_one(livestock[i], offset, max_date))
    } else {
        livestock
    }
}

/// `livestock` after the first `n` positions of `selection` were selected in
/// turn, the `k`-th with the lifetime `offsets[k]`.
pub open spec fn cull_all(
    livestock: Seq<Livestock>,
    selection: Seq<usize>,
    offsets: Seq<u64>,
    max_date: int,
    n: int,
) -> Seq<Livestock>
    decreases n,
{
    if n <= 0 {
        livestock
    } else {
        cull_at(
            cull_all(livestock, selection, offsets, max_date, n - 1),
            selection[n - 1] as int,
            offsets[n - 1] as int,
            max_date,
        )
    }
}

/// Culling keeps every record's identity, and leaves an animal that was
/// disposed of before exactly as it was.
pub proof fn lemma_cull_all_evolves(
    livestock: Seq<Livestock>,
    selection: Seq<usize>,
    offsets: Seq<u64>,
    max_date: int,
    n: int,
)
    requires
        0 <= n <= selection.len(),
        n <= offsets.len(),
    ensures
        cull_all(livestock, selection, offsets, max_date, n).len() == livestock.len(),
        forall|i: int|
            0 <= i < livestock.len() ==> (#[trigger] livestock[i]).evolves_to(
                cull_all(livestock, selection, offsets, max_date, n)[i],
            ),
    decreases n,
{
    if n > 0 {
        lemma_cull_all_evolves(livestock, selection, offsets, max_date, n - 1);
    }
}

/// Disposes, for its health, of each live animal that `selection` names,
/// the `k`-th selected after a life of `offsets[k]` seconds, and takes it
/// off its herd's size. A selected animal that was disposed of already is
/// passed over.
pub fn apply_cull(
    livestock: &mut Vec<Livestock>,
    herds: &mut Vec<Herd>,
    selection: &Vec<usize>,
    offsets: &Vec<u64>,
    max_date: i64,
)
    requires
        livestock_wf(old(livestock)@, old(herds)@),
        sizes_match(old(herds)@, old(livestock)@),
        selection@.len() == offsets@.len(),
        forall|k: int|
            0 <= k < selection@.len() ==> (#[trigger] selection@[k]) < old(livestock)@.len(),
    ensures
        final(livestock)@ == cull_all(
            old(livestock)@,
            selection@,
            offsets@,
            max_date as int,
            selection@.len() as int,
        ),
        final(herds)@ == resize_herds(old(herds)@, final(livestock)@),
        livestock_wf(final(livestock)@, final(herds)@),
        sizes_match(final(herds)@, final(livestock)@),
{
    let ghost before = livestock@;
    let ghost herds_before = herds@;
    let mut k: usize = 0;
    while k < selection.len()
        invariant
            k <= selection@.len(),
            selection@.len() == offsets@.len(),
            forall|l: int| 0 <= l < selection@.len() ==> (#[trigger] selection@[l]) < before.len(),
            livestock@ == cull_all(before, selection@, offsets@, max_date as int, k as int),
            livestock@.len() == before.len(),
            herds@.len() == herds_before.len(),
            livestock_wf(livestock@, herds_before),
            forall|h: int|
                0 <= h < herds@.len() ==> {
                    &&& (#[trigger] herds@[h]).id == herds_before[h].id
                    &&& herds@[h].pasture_id == herds_before[h].pasture_id
                    &&& herds@[h].species_id == herds_before[h].species_id
                    &&& herds@[h].size == live_count(livestock@, h)
                },
        decreases selection@.len() - k,
    {
        let i = selection[k];
        let animal = livestock[i];
        if animal.disposal.is_none() {
            let ghost earlier = livestock@;
            let h = animal.herd_id;
            livestock[i].disposal = Some(health_disposal_time(animal.birth, offsets[k], max_date));
            livestock[i].disposal_purpose = Some(DisposalPurpose::Health);
            proof {
                assert(livestock@ =~= earlier.update(i as int, livestock@[i as int]));
                assert forall|g: int| 0 <= g < herds@.len() implies live_count(livestock@, g)
                    == live_count(earlier, g) - if g == h { 1int } else { 0int } by {
                    lemma_live_count_update(earlier, i as int, livestock@[i as int], g);
                }
                assert(live_count(livestock@, h as int) + 1 == live_count(earlier, h as int));
            }
            herds[h].size = herds[h].size - 1;
        }
        k = k + 1;
    }
}

/// `animal` is live and of a species without a lifespan, so that no
/// lifetime can be drawn for it.
pub open spec fn lacks_lifespan(animal: Livestock, species: Seq<Species>) -> bool {
    animal.is_live() && species[animal.species_id as int].lifespan_days == 0
}

/// The refusal, if any, with which `kill_off_livestock_vec` answers.
pub open spec fn kill_off_error(
    livestock: Seq<Livestock>,
    species: Seq<Species>,
    kill_bp: int,
) -> Option<ConfigError> {
    if kill_bp > 10_000 {
        Some(ConfigError::InvalidPercentage)
    } else if exists|i: int|
        0 <= i < livestock.len() && lacks_lifespan(#[trigger] livestock[i], species) {
        Some(ConfigError::UnsuitableSpecies)
    } else {
        None
    }
}

/// `after` is what culling makes of `before` when `selection` is drawn and
/// the selected live animals are given the lifetimes `offsets`: the
/// selection names the share `kill_bp` of all animals, rounded, no animal
/// twice, and each lifetime is shorter than the lifespan of the species.
pub open spec fn is_cull_outcome(
    before: Seq<Livestock>,
    after: Seq<Livestock>,
    species: Seq<Species>,
    kill_bp: int,
    max_date: int,
    selection: Seq<usize>,
    offsets: Seq<u64>,
) -> bool {
    &&& is_distinct_selection(
        selection,
        before.len() as int,
        spec_rounded_share(before.len() as int, kill_bp),
    )
    &&& offsets.len() == selection.len()
    &&& forall|k: int|
        0 <= k < selection.len() && before[(#[trigger] selection[k]) as int].is_live()
            ==> offsets[k] < species[before[selection[k] as int].species_id as int].lifespan_seconds()
    &&& after == cull_all(before, selection, offsets, max_date, selection.len() as int)
}

fn every_live_animal_has_lifespan(livestock: &Vec<Livestock>, species: &Vec<Species>) -> (ok: bool)
    requires
        forall|i: int|
            0 <= i < livestock@.len() ==> (#[trigger] livestock@[i]).species_id < species@.len(),
    ensures
        ok <==> forall|i: int|
            0 <= i < livestock@.len() ==> !lacks_lifespan(#[trigger] livestock@[i], species@),
{
    let mut i: usize = 0;
    while i < livestock.len()
        invariant
            i <= livestock@.len(),
            forall|j: int|
                0 <= j < livestock@.len()
                    ==> (#[trigger] livestock@[j]).species_id < species@.len(),
            forall|j: int| 0 <= j < i ==> !lacks_lifespan(#[trigger] livestock@[j], species@),
        decreases livestock@.len() - i,
    {
        if livestock[i].disposal.is_none() && species[livestock[i].species_id].lifespan_days == 0 {
            return false;
        }
        i = i + 1;
    }
    true
}

/// Culls the share `kill_bp` of all animals: that many different animals
/// are drawn, and each of them that is still live is disposed of for its
/// health, after a lifetime drawn uniformly from zero up to, but not
/// reaching, the lifespan of its species; the disposal falls no later than
/// `max_date` and never before the birth. Refuses, before anything is drawn,
/// a share above one hundred percent and a live animal of a species without
/// a lifespan.
pub fn kill_off_livestock_vec(
    rng: &mut RandomSource,
    livestock: &mut Vec<Livestock>,
    herds: &mut Vec<Herd>,
    kill_bp: u32,
    species: &Vec<Species>,
    max_date: i64,
) -> (outcome: Result<(), ConfigError>)
    requires
        livestock_wf(old(livestock)@, old(herds)@),
        herds_name_species(old(herds)@, species@.len() as int),
        species_wf(species@),
        sizes_match(old(herds)@, old(livestock)@),
    ensures
        outcome is Err <==> kill_off_error(old(livestock)@, species@, kill_bp as int) is Some,
        outcome is Err ==> Some(outcome->Err_0) == kill_off_error(
            old(livestock)@,
            species@,
            kill_bp as int,
        ) && final(livestock)@ == old(livestock)@ && final(herds)@ == old(herds)@ && *final(rng) == *old(rng),
        outcome is Ok ==> exists|selection: Seq<usize>, offsets: Seq<u64>|
            is_cull_outcome(
                old(livestock)@,
                final(livestock)@,
                species@,
                kill_bp as int,
                max_date as int,
                selection,
                offsets,
            ),
        outcome is Ok ==> final(herds)@ == resize_herds(old(herds)@, final(livestock)@),
        final(livestock)@.len() == old(livestock)@.len(),
        forall|i: int|
            0 <= i < old(livestock)@.len() ==> (#[trigger] old(livestock)@[i]).evolves_to(
                final(livestock)@[i],
            ),
        livestock_wf(final(livestock)@, final(herds)@),
        sizes_match(final(herds)@, final(livestock)@),
{
    let kill_count = match rounded_share(livestock.len(), kill_bp) {
        Ok(kill_count) => kill_count,
        Err(refusal) => {
            return Err(refusal);
        },
    };
    if !every_live_animal_has_lifespan(livestock, species) {
        return Err(ConfigError::UnsuitableSpecies);
    }
    let ghost before = livestock@;
    let selection = match rng.sample_distinct(livestock.len(), kill_count) {
        Ok(selection) => selection,
        Err(_) => Vec::new(),
    };
    let mut offsets: Vec<u64> = Vec::new();
    let mut k: usize = 0;
    while k < selection.len()
        invariant
            k <= selection@.len(),
            offsets@.len() == k,
            livestock@ == before,
            livestock_wf(before, herds@),
            herds_name_species(herds@, species@.len() as int),
            species_wf(species@),
            forall|l: int| 0 <= l < selection@.len() ==> (#[trigger] selection@[l]) < before.len(),
            forall|i: int|
                0 <= i < before.len() ==> !lacks_lifespan(#[trigger] before[i], species@),
            forall|l: int|
                0 <= l < k && before[(#[trigger] selection@[l]) as int].is_live() ==> offsets@[l]
                    < species@[before[selection@[l] as int].species_id as int].lifespan_seconds(),
        decreases selection@.len() - k,
    {
        let animal = livestock[selection[k]];
        let offset = if animal.disposal.is_none() {
            let lifespan_seconds: u64 = species[animal.species_id].lifespan_days * 86_400;
            match rng.uniform_below(0, lifespan_seconds) {
                Ok(offset) => offset,
                Err(_) => 0,
            }
        } else {
            0
        };
        offsets.push(offset);
        k = k + 1;
    }
    apply_cull(livestock, herds, &selection, &offsets, max_date);
    proof {
        lemma_cull_all_evolves(
            before,
            selection@,
            offsets@,
            max_date as int,
            selection@.len() as int,
        );
        assert(is_cull_outcome(
            before,
            livestock@,
            species@,
            kill_bp as int,
            max_date as int,
            selection@,
            offsets@,
        ));
    }
    Ok(())
}

/// How many animals a pasture of `area` sustains when one animal needs
/// `required_area` and lives `lifespan_days` days: the quotient, rounded
/// down.
pub open spec fn spec_herd_capacity(area: int, required_area: int, lifespan_days: int) -> int {
    area / (required_area * lifespan_days)
}

/// The capacity of a pasture for one species; none where the species needs
/// no area or has no lifespan.
pub fn herd_capacity(area: u64, required_area: u64, lifespan_days: u64) -> (capacity: Option<u64>)
    ensures
        capacity is None <==> required_area == 0 || lifespan_days == 0,
        capacity is Some ==> capacity->0 == spec_herd_capacity(
            area as int,
            required_area as int,
            lifespan_days as int,
        ),
{
    if required_area == 0 || lifespan_days == 0 {
        return None;
    }
    assert(1 <= required_area * lifespan_days <= 0xffff_ffff_ffff_ffff * 0xffff_ffff_ffff_ffff)
        by (nonlinear_arith)
        requires
            1 <= required_area <= 0xffff_ffff_ffff_ffff,
            1 <= lifespan_days <= 0xffff_ffff_ffff_ffff,
    ;
    let per_animal: u128 = (required_area as u128) * (lifespan_days as u128);
    let capacity: u128 = (area as u128) / per_animal;
    assert(capacity <= area) by (nonlinear_arith)
        requires
            capacity == (area as int) / (per_animal as int),
            per_animal >= 1,
            area >= 0,
    ;
    Some(capacity as u64)
}

/// A capacity can be derived for `herd`.
pub open spec fn can_stock_herd(herd: Herd, species: Seq<Species>, pastures: Seq<Pasture>) -> bool {
    species[herd.species_id as int].can_stock(pastures[herd.pasture_id as int].kind)
}

/// The capacity of `herd`: that of its pasture for its species.
pub open spec fn capacity_of(herd: Herd, species: Seq<Species>, pastures: Seq<Pasture>) -> int {
    spec_herd_capacity(
        pastures[herd.pasture_id as int].area as int,
        species[herd.species_id as int].required_area(pastures[herd.pasture_id as int].kind),
        species[herd.species_id as int].lifespan_days as int,
    )
}

/// The capacities of the first `n` herds, added up.
pub open spec fn capacity_before(
    herds: Seq<Herd>,
    species: Seq<Species>,
    pastures: Seq<Pasture>,
    n: int,
) -> int
    decreases n,
{
    if n <= 0 {
        0
    } else {
        capacity_before(herds, species, pastures, n - 1) + capacity_of(
            herds[n - 1],
            species,
            pastures,
        )
    }
}

/// Every herd can be given a capacity.
pub open spec fn all_stockable(
    herds: Seq<Herd>,
    species: Seq<Species>,
    pastures: Seq<Pasture>,
) -> bool {
    forall|h: int| 0 <= h < herds.len() ==> can_stock_herd(#[trigger] herds[h], species, pastures)
}

/// The capacity of a herd that can be stocked is not negative.
pub proof fn lemma_capacity_nonnegative(herd: Herd, species: Seq<Species>, pastures: Seq<Pasture>)
    requires
        can_stock_herd(herd, species, pastures),
    ensures
        capacity_of(herd, species, pastures) >= 0,
{
    let area = pastures[herd.pasture_id as int].area as int;
    let required = species[herd.species_id as int].required_area(
        pastures[herd.pasture_id as int].kind,
    );
    let days = species[herd.species_id as int].lifespan_days as int;
    assert(area / (required * days) >= 0) by (nonlinear_arith)
        requires
            area >= 0,
            required > 0,
            days > 0,
    ;
}

/// The running total of capacities never falls.
pub proof fn lemma_capacity_before_monotone(
    herds: Seq<Herd>,
    species: Seq<Species>,
    pastures: Seq<Pasture>,
    a: int,
    b: int,
)
    requires
        0 <= a <= b <= herds.len(),
        all_stockable(herds, species, pastures),
    ensures
        0 <= capacity_before(herds, species, pastures, a) <= capacity_before(
            herds,
            species,
            pastures,
            b,
        ),
    decreases b,
{
    if b > 0 {
        lemma_capacity_nonnegative(herds[b - 1], species, pastures);
        if a < b {
            lemma_capacity_before_monotone(herds, species, pastures, a, b - 1);
        } else {
            lemma_capacity_before_monotone(herds, species, pastures, a - 1, b - 1);
        }
    }
}

/// `animal` is a live animal of `herd`, recorded at `position` and born in
/// the window from `earliest` up to, but not reaching, `latest`.
pub open spec fn is_newborn_of(
    animal: Livestock,
    herd: Herd,
    position: int,
    earliest: int,
    latest: int,
) -> bool {
    &&& animal.id == position
    &&& animal.herd_id == herd.id
    &&& animal.species_id == herd.species_id
    &&& earliest <= animal.birth < latest
    &&& animal.disposal is None
    &&& animal.disposal_purpose is None
}

/// `grown` is `before` followed, herd by herd, by as many newborn animals of
/// each herd as the herd's capacity.
pub open spec fn births_appended(
    before: Seq<Livestock>,
    grown: Seq<Livestock>,
    herds: Seq<Herd>,
    species: Seq<Species>,
    pastures: Seq<Pasture>,
    earliest: int,
    latest: int,
) -> bool {
    &&& grown.len() == before.len() + capacity_before(herds, species, pastures, herds.len() as int)
    &&& before.is_prefix_of(grown)
    &&& forall|h: int, i: int|
        0 <= h < herds.len() && before.len() + capacity_before(herds, species, pastures, h) <= i
            < before.len() + capacity_before(herds, species, pastures, h + 1) ==> is_newborn_of(
            #[trigger] grown[i],
            #[trigger] herds[h],
            i,
            earliest,
            latest,
        )
}

/// The refusal, if any, with which `expand_livestock` answers.
pub open spec fn expand_livestock_error(
    herds: Seq<Herd>,
    species: Seq<Species>,
    pastures: Seq<Pasture>,
    earliest: int,
    latest: int,
) -> Option<ConfigError> {
    if !timestamp_in_range(earliest) || !timestamp_in_range(latest) {
        Some(ConfigError::TimestampOutOfRange)
    } else if latest <= earliest {
        Some(ConfigError::InvalidWindow)
    } else if !all_stockable(herds, species, pastures) {
        Some(ConfigError::UnsuitableSpecies)
    } else {
        None
    }
}

fn every_herd_can_be_stocked(
    herds: &Vec<Herd>,
    species: &Vec<Species>,
    pastures: &Vec<Pasture>,
) -> (ok: bool)
    requires
        herds_wf(herds@, pastures@.len() as int, species@.len() as int),
    ensures
        ok <==> all_stockable(herds@, species@, pastures@),
{
    let mut h: usize = 0;
    while h < herds.len()
        invariant
            h <= herds@.len(),
            herds_wf(herds@, pastures@.len() as int, species@.len() as int),
            forall|g: int| 0 <= g < h ==> can_stock_herd(#[trigger] herds@[g], species@, pastures@),
        decreases herds@.len() - h,
    {
        let kind = pastures[herds[h].pasture_id].kind;
        let kind_of_species = &species[herds[h].species_id];
        if kind_of_species.lifespan_days == 0 || kind_of_species.area_needed(kind) == 0 {
            return false;
        }
        h = h + 1;
    }
    true
}

/// Gives every herd as many newborn animals as its capacity, each born at
/// an instant drawn uniformly from `earliest_birth` up to, but not reaching,
/// `latest_birth`, and adds them to the herd's size. Refuses, before
/// anything is drawn, an instant outside the supported span, a window that
/// is empty or inverted, and a herd for which no capacity can be derived.
pub fn expand_livestock(
    rng: &mut RandomSource,
    livestock: &mut Vec<Livestock>,
    herds: &mut Vec<Herd>,
    species: &Vec<Species>,
    pastures: &Vec<Pasture>,
    earliest_birth: i64,
    latest_birth: i64,
) -> (outcome: Result<(), ConfigError>)
    requires
        herds_wf(old(herds)@, pastures@.len() as int, species@.len() as int),
        sizes_match(old(herds)@, old(livestock)@),
    ensures
        outcome is Err <==> expand_livestock_error(
            old(herds)@,
            species@,
            pastures@,
            earliest_birth as int,
            latest_birth as int,
        ) is Some,
        outcome is Err ==> Some(outcome->Err_0) == expand_livestock_error(
            old(herds)@,
            species@,
            pastures@,
            earliest_birth as int,
            latest_birth as int,
        ) && final(livestock)@ == old(livestock)@ && final(herds)@ == old(herds)@ && *final(rng) == *old(rng),
        outcome is Ok ==> births_appended(
            old(livestock)@,
            final(livestock)@,
            old(herds)@,
            species@,
            pastures@,
            earliest_birth as int,
            latest_birth as int,
        ),
        outcome is Ok ==> final(herds)@ == resize_herds(old(herds)@, final(livestock)@),
        sizes_match(final(herds)@, final(livestock)@),
        livestock_wf(old(livestock)@, old(herds)@) ==> livestock_wf(
            final(livestock)@,
            final(herds)@,
        ),
{
    if !is_timestamp_in_range(earliest_birth) || !is_timestamp_in_range(latest_birth) {
        return Err(ConfigError::TimestampOutOfRange);
    }
    if latest_birth <= earliest_birth {
        return Err(ConfigError::InvalidWindow);
    }
    if !every_herd_can_be_stocked(herds, species, pastures) {
        return Err(ConfigError::UnsuitableSpecies);
    }
    let ghost before = livestock@;
    let ghost herds_before = herds@;
    let birth_span: u64 = (latest_birth - earliest_birth) as u64;
    let mut h: usize = 0;
    while h < herds.len()
        invariant
            h <= herds@.len(),
            herds@.len() == herds_before.len(),
            herds_wf(herds_before, pastures@.len() as int, species@.len() as int),
            all_stockable(herds_before, species@, pastures@),
            timestamp_in_range(earliest_birth as int),
            timestamp_in_range(latest_birth as int),
            birth_span == latest_birth - earliest_birth,
            birth_span > 0,
            livestock@.len() == before.len() + capacity_before(herds_before, species@, pastures@, h as int),
            before.is_prefix_of(livestock@),
            forall|g: int, i: int|
                0 <= g < h && before.len() + capacity_before(herds_before, species@, pastures@, g) <= i
                    < before.len() + capacity_before(herds_before, species@, pastures@, g + 1)
                    ==> is_newborn_of(
                    #[trigger] livestock@[i],
                    #[trigger] herds_before[g],
                    i,
                    earliest_birth as int,
                    latest_birth as int,
                ),
            forall|g: int|
                0 <= g < herds@.len() ==> {
                    &&& (#[trigger] herds@[g]).id == herds_before[g].id
                    &&& herds@[g].pasture_id == herds_before[g].pasture_id
                    &&& herds@[g].species_id == herds_before[g].species_id
                    &&& herds@[g].size == live_count(livestock@, g)
                },
        decreases herds@.len() - h,
    {
        let herd = herds[h];
        let pasture = &pastures[herd.pasture_id];
        let kind_of_species = &species[herd.species_id];
        let capacity = match herd_capacity(
            pasture.area,
            kind_of_species.area_needed(pasture.kind),
            kind_of_species.lifespan_days,
        ) {
            Some(capacity) => capacity,
            None => 0,
        };
        let ghost block_start = livestock@.len();
        let mut made: u64 = 0;
        while made < capacity
            invariant
                made <= capacity,
                h < herds@.len(),
                herds@.len() == herds_before.len(),
                herd.id == h,
                all_stockable(herds_before, species@, pastures@),
                herd.id == herds_before[h as int].id,
                herd.species_id == herds_before[h as int].species_id,
                timestamp_in_range(earliest_birth as int),
                timestamp_in_range(latest_birth as int),
                birth_span == latest_birth - earliest_birth,
                birth_span > 0,
                block_start == before.len() + capacity_before(herds_before, species@, pastures@, h as int),
                livestock@.len() == block_start + made,
                before.is_prefix_of(livestock@),
                forall|g: int, i: int|
                    0 <= g < h && before.len() + capacity_before(herds_before, species@, pastures@, g)
                        <= i < before.len() + capacity_before(
                        herds_before,
                        species@,
                        pastures@,
                        g + 1,
                    ) ==> is_newborn_of(
                        #[trigger] livestock@[i],
                        #[trigger] herds_before[g],
                        i,
                        earliest_birth as int,
                        latest_birth as int,
                    ),
                forall|i: int|
                    block_start <= i < livestock@.len() ==> is_newborn_of(
                        #[trigger] livestock@[i],
                        herds_before[h as int],
                        i,
                        earliest_birth as int,
                        latest_birth as int,
                    ),
                forall|g: int|
                    0 <= g < herds@.len() ==> {
                        &&& (#[trigger] herds@[g]).id == herds_before[g].id
                        &&& herds@[g].pasture_id == herds_before[g].pasture_id
                        &&& herds@[g].species_id == herds_before[g].species_id
                        &&& herds@[g].size == live_count(livestock@, g)
                    },
            decreases capacity - made,
        {
            let offset = match rng.uniform_below(0, birth_span) {
                Ok(offset) => offset,
                Err(_) => 0,
            };
            let birth: i64 = earliest_birth + offset as i64;
            let ghost earlier = livestock@;
            let id = livestock.len();
            let animal = Livestock::new(id, birth, None, None, &herd);
            livestock.push(animal);
            proof {
                assert(livestock@.len() == livestock.len());
                assert forall|g: int| 0 <= g < herds@.len() implies live_count(livestock@, g)
                    == live_count(earlier, g) + if g == h { 1int } else { 0int } by {
                    lemma_live_count_push(earlier, animal, g);
                }
                lemma_live_count_bound(livestock@, h as int);
                assert(live_count(livestock@, h as int) == live_count(earlier, h as int) + 1);
                assert forall|g: int, i: int|
                    0 <= g < h && before.len() + capacity_before(herds_before, species@, pastures@, g)
                        <= i < before.len() + capacity_before(
                        herds_before,
                        species@,
                        pastures@,
                        g + 1,
                    ) implies is_newborn_of(
                    #[trigger] livestock@[i],
                    #[trigger] herds_before[g],
                    i,
                    earliest_birth as int,
                    latest_birth as int,
                ) by {
                    lemma_capacity_before_monotone(herds_before, species@, pastures@, 0, g);
                    lemma_capacity_before_monotone(
                        herds_before,
                        species@,
                        pastures@,
                        g + 1,
                        h as int,
                    );
                }
            }
            herds[h].size = herds[h].size + 1;
            made = made + 1;
        }
        h = h + 1;
    }
    proof {
        assert(herds@ =~= resize_herds(herds_before, livestock@));
        lemma_births_keep_wf(
            before,
            livestock@,
            herds_before,
            herds@,
            species@,
            pastures@,
            earliest_birth as int,
            latest_birth as int,
        );
    }
    Ok(())
}

/// Appending newborn animals keeps the livestock well formed.
pub proof fn lemma_births_keep_wf(
    before: Seq<Livestock>,
    grown: Seq<Livestock>,
    herds: Seq<Herd>,
    herds_after: Seq<Herd>,
    species: Seq<Species>,
    pastures: Seq<Pasture>,
    earliest: int,
    latest: int,
)
    requires
        births_appended(before, grown, herds, species, pastures, earliest, latest),
        herds_wf(herds, pastures.len() as int, species.len() as int),
        herds_after == resize_herds(herds, grown),
        timestamp_in_range(earliest),
        timestamp_in_range(latest),
        all_stockable(herds, species, pastures),
    ensures
        livestock_wf(before, herds) ==> livestock_wf(grown, herds_after),
{
    if livestock_wf(before, herds) {
        assert forall|i: int| 0 <= i < grown.len() implies {
            &&& (#[trigger] grown[i]).id == i
            &&& grown[i].herd_id < herds_after.len()
            &&& grown[i].species_id == herds_after[grown[i].herd_id as int].species_id
            &&& grown[i].record_ok()
        } by {
            if i < before.len() {
                assert(grown.subrange(0, before.len() as int)[i] == grown[i]);
            } else {
                let h = lemma_block_of(
                    herds,
                    species,
                    pastures,
                    herds.len() as int,
                    i - before.len(),
                );
            }
        }
    }
}

/// Every position below the total capacity of the first `n` herds lies in
/// the block of exactly one of them.
pub proof fn lemma_block_of(
    herds: Seq<Herd>,
    species: Seq<Species>,
    pastures: Seq<Pasture>,
    n: int,
    offset: int,
) -> (h: int)
    requires
        0 <= n <= herds.len(),
        0 <= offset < capacity_before(herds, species, pastures, n),
        all_stockable(herds, species, pastures),
    ensures
        0 <= h < n,
        capacity_before(herds, species, pastures, h) <= offset < capacity_before(
            herds,
            species,
            pastures,
            h + 1,
        ),
    decreases n,
{
    if offset >= capacity_before(herds, species, pastures, n - 1) {
        n - 1
    } else {
        lemma_block_of(herds, species, pastures, n - 1, offset)
    }
}

/// In well-formed livestock every animal belongs to a herd that exists; an
/// animal that was disposed of has exactly one purpose, its health or
/// slaughter, and was not disposed of before it was born; an animal that was
/// not has no purpose.
pub proof fn lemma_disposal_is_consistent(livestock: Seq<Livestock>, herds: Seq<Herd>, i: int)
    requires
        livestock_wf(livestock, herds),
        0 <= i < livestock.len(),
    ensures
        livestock[i].herd_id < herds.len(),
        livestock[i].disposal is Some ==> livestock[i].birth <= livestock[i].disposal->0 && (
        livestock[i].disposal_purpose == Some(DisposalPurpose::Health)
            || livestock[i].disposal_purpose == Some(DisposalPurpose::Butcher)),
        livestock[i].disposal is None ==> livestock[i].disposal_purpose is None,
{
}

/// A disposal is final: an animal that was disposed of is left exactly as
/// it is by culling followed by slaughter and by slaughter followed by
/// culling, whatever is drawn.
pub proof fn lemma_disposal_is_final(
    livestock: Seq<Livestock>,
    species: Seq<Species>,
    selection: Seq<usize>,
    offsets: Seq<u64>,
    max_date: int,
    cutoff: int,
    i: int,
)
    requires
        forall|j: int| 0 <= j < livestock.len() ==> (#[trigger] livestock[j]).record_ok(),
        offsets.len() == selection.len(),
        0 <= i < livestock.len(),
        livestock[i].disposal is Some,
    ensures
        butcher_all(
            cull_all(livestock, selection, offsets, max_date, selection.len() as int),
            species,
            cutoff,
        )[i] == livestock[i],
        cull_all(
            butcher_all(livestock, species, cutoff),
            selection,
            offsets,
            max_date,
            selection.len() as int,
        )[i] == livestock[i],
{
    let n = selection.len() as int;
    lemma_cull_all_evolves(livestock, selection, offsets, max_date, n);
    lemma_butcher_all_evolves(livestock, species, cutoff);
    lemma_cull_all_evolves(
        butcher_all(livestock, species, cutoff),
        selection,
        offsets,
        max_date,
        n,
    );
}

/// A herd is given exactly as many animals as the area of its pasture
/// holds multiples of the area that one animal needs times the days that it
/// lives, and they stand together behind the animals of the herds before
/// it.
pub proof fn lemma_births_per_herd(
    before: Seq<Livestock>,
    grown: Seq<Livestock>,
    herds: Seq<Herd>,
    species: Seq<Species>,
    pastures: Seq<Pasture>,
    earliest: int,
    latest: int,
    h: int,
)
    requires
        births_appended(before, grown, herds, species, pastures, earliest, latest),
        all_stockable(herds, species, pastures),
        0 <= h < herds.len(),
    ensures
        capacity_before(herds, species, pastures, h + 1) - capacity_before(
            herds,
            species,
            pastures,
            h,
        ) == spec_herd_capacity(
            pastures[herds[h].pasture_id as int].area as int,
            species[herds[h].species_id as int].required_area(
                pastures[herds[h].pasture_id as int].kind,
            ),
            species[herds[h].species_id as int].lifespan_days as int,
        ),
        0 <= capacity_before(herds, species, pastures, h) <= capacity_before(
            herds,
            species,
            pastures,
            h + 1,
        ) <= grown.len() - before.len(),
        herds.len() == 1 ==> grown.len() - before.len() == capacity_of(herds[0], species, pastures),
{
    lemma_capacity_before_monotone(herds, species, pastures, 0, h);
    lemma_capacity_before_monotone(herds, species, pastures, h, h + 1);
    lemma_capacity_before_monotone(herds, species, pastures, h + 1, herds.len() as int);
}

} // verus!
