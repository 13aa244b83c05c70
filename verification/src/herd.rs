//! Herds, and the generator that founds one herd on each new pasture.
use vstd::prelude::*;

use crate::error::ConfigError;
use crate::pasture::Pasture;
use crate::random::RandomSource;
use crate::species::Species;

verus! {

/// A herd: animals of one species on one pasture. `size` counts the animals
/// of the herd that have not been disposed of.
#[derive(Clone, Copy, Debug, PartialEq, Eq)]
pub struct Herd {
    pub id: usize,
    pub pasture_id: usize,
    pub species_id: usize,
    pub size: usize,
}

impl Herd {
    /// An empty herd of `species` on `pasture`.
    pub fn new(id: usize, pasture: &Pasture, species: &Species) -> (herd: Self)
        ensures
            herd.id == id,
            herd.pasture_id == pasture.id,
            herd.species_id == species.id,
            herd.size == 0,
    {
        Herd { id, pasture_id: pasture.id, species_id: species.id, size: 0 }
    }
}

/// Every herd is identified by its position.
pub open spec fn herds_identified(herds: Seq<Herd>) -> bool {
    forall|h: int| 0 <= h < herds.len() ==> (#[trigger] herds[h]).id == h
}

/// Every herd is identified by its position and names a pasture and a
/// species that exist.
pub open spec fn herds_wf(herds: Seq<Herd>, pasture_count: int, species_count: int) -> bool {
    &&& herds_identified(herds)
    &&& forall|h: int|
        0 <= h < herds.len() ==> (#[trigger] herds[h]).pasture_id < pasture_count
            && herds[h].species_id < species_count
}

/// `species_id` is the id of one of the species that `species_idxs` names.
pub open spec fn is_eligible_species_id(
    species_id: usize,
    species: Seq<Species>,
    species_idxs: Seq<usize>,
) -> bool {
    exists|k: int|
        0 <= k < species_idxs.len() && (#[trigger] species_idxs[k]) < species.len()
            && species[species_idxs[k] as int].id == species_id
}

/// The refusal, if any, with which `expand_herd_vec` answers.
pub open spec fn expand_herd_error(species: Seq<Species>, species_idxs: Seq<usize>) -> Option<
    ConfigError,
> {
    if species_idxs.len() == 0 {
        Some(ConfigError::NoEligibleSpecies)
    } else if exists|k: int|
        0 <= k < species_idxs.len() && (#[trigger] species_idxs[k]) >= species.len() {
        Some(ConfigError::UnknownSpecies)
    } else {
        None
    }
}

/// `grown` is `before` followed by one empty herd for each of `pastures`, in
/// their order, each of an eligible species.
pub open spec fn herds_expanded(
    before: Seq<Herd>,
    grown: Seq<Herd>,
    pastures: Seq<Pasture>,
    species: Seq<Species>,
    species_idxs: Seq<usize>,
) -> bool {
    &&& grown.len() == before.len() + pastures.len()
    &&& before.is_prefix_of(grown)
    &&& forall|i: int|
        before.len() <= i < grown.len() ==> {
            &&& (#[trigger] grown[i]).id == i
            &&& grown[i].pasture_id == pastures[i - before.len()].id
            &&& grown[i].size == 0
            &&& is_eligible_species_id(grown[i].species_id, species, species_idxs)
        }
}

pub(crate) fn all_indices_known(species_idxs: &[usize], species_count: usize) -> (ok: bool)
    ensures
        ok <==> forall|k: int|
            0 <= k < species_idxs@.len() ==> (#[trigger] species_idxs@[k]) < species_count,
{
    let mut k: usize = 0;
    while k < species_idxs.len()
        invariant
            k <= species_idxs@.len(),
            forall|l: int| 0 <= l < k ==> (#[trigger] species_idxs@[l]) < species_count,
        decreases species_idxs@.len() - k,
    {
        if species_idxs[k] >= species_count {
            return false;
        }
        k = k + 1;
    }
    true
}

/// Appends one empty herd for each of `pastures`, of a species drawn
/// uniformly from those that `species_idxs` names. Refuses, before anything
/// is drawn, when `species_idxs` is empty or names a species that is not in
/// `species`.
pub fn expand_herd_vec(
    rng: &mut RandomSource,
    herds: &mut Vec<Herd>,
    pastures: &[Pasture],
    species: &[Species],
    species_idxs: &[usize],
) -> (outcome: Result<(), ConfigError>)
    ensures
        outcome is Err <==> expand_herd_error(species@, species_idxs@) is Some,
        outcome is Err ==> Some(outcome->Err_0) == expand_herd_error(species@, species_idxs@)
            && final(herds)@ == old(herds)@ && *final(rng) == *old(rng),
        outcome is Ok ==> herds_expanded(
            old(herds)@,
            final(herds)@,
            pastures@,
            species@,
            species_idxs@,
        ),
{
    if species_idxs.len() == 0 {
        return Err(ConfigError::NoEligibleSpecies);
    }
    if !all_indices_known(species_idxs, species.len()) {
        return Err(ConfigError::UnknownSpecies);
    }
    let ghost before = herds@;
    let mut j: usize = 0;
    while j < pastures.len()
        invariant
            j <= pastures@.len(),
            species_idxs@.len() > 0,
            forall|k: int|
                0 <= k < species_idxs@.len() ==> (#[trigger] species_idxs@[k]) < species@.len(),
            herds_expanded(before, herds@, pastures@.take(j as int), species@, species_idxs@),
        decreases pastures@.len() - j,
    {
        let idx = match rng.pick(species_idxs) {
            Ok(idx) => *idx,
            Err(_) => species_idxs[0],
        };
        let id = herds.len();
        herds.push(Herd::new(id, &pastures[j], &species[idx]));
        j = j + 1;
    }
    Ok(())
}

} // verus!
