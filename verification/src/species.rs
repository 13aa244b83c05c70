//! Species and what they ask of a pasture.
use vstd::prelude::*;

use crate::pasture::{PastureKind, PastureKindMap};
use crate::time::MAX_LIFESPAN_DAYS;

verus! {

/// Whether a species is kept as livestock or grown as a crop.
#[derive(Clone, Copy, Debug, PartialEq, Eq, Structural)]
pub enum SpeciesKind {
    Animal,
    Plant,
}

/// The area, in square decimetres, that one individual needs on a pasture
/// of each kind.
#[derive(Debug)]
pub struct SpeciesAreaRequirements {
    pub pasture_kind_to_req_area: PastureKindMap<u64>,
}

/// A species. It is never changed once made.
#[derive(Debug)]
pub struct Species {
    pub id: usize,
    pub name: String,
    pub kind: SpeciesKind,
    pub lifespan_days: u64,
    pub area_requirements: Option<SpeciesAreaRequirements>,
}

impl Species {
    /// The lifespan in seconds.
    pub open spec fn lifespan_seconds(&self) -> int {
        self.lifespan_days * 86_400
    }

    /// The area one individual needs on a pasture of `kind`; zero where the
    /// species states no requirement.
    pub open spec fn required_area(&self, kind: PastureKind) -> int {
        match self.area_requirements {
            Some(requirements) => requirements.pasture_kind_to_req_area.spec_get(kind) as int,
            None => 0,
        }
    }

    /// A capacity can be derived for this species on a pasture of `kind`.
    pub open spec fn can_stock(&self, kind: PastureKind) -> bool {
        self.lifespan_days > 0 && self.required_area(kind) > 0
    }

    /// A capacity can be derived for this species on a pasture of any kind.
    pub open spec fn can_stock_anywhere(&self) -> bool {
        &&& self.can_stock(PastureKind::Open)
        &&& self.can_stock(PastureKind::Covered)
        &&& self.can_stock(PastureKind::Individual)
    }

    /// A species with the given record; the name is copied.
    pub fn new(
        id: usize,
        name: &str,
        kind: SpeciesKind,
        lifespan_days: u64,
        area_requirements: Option<SpeciesAreaRequirements>,
    ) -> (species: Self)
        ensures
            species.id == id,
            species.name@ == name@,
            species.kind == kind,
            species.lifespan_days == lifespan_days,
            species.area_requirements == area_requirements,
    {
        Species { id, name: name.to_owned(), kind, lifespan_days, area_requirements }
    }

    /// The area one individual needs on a pasture of `kind`, zero where
    /// none is stated.
    pub fn area_needed(&self, kind: PastureKind) -> (area: u64)
        ensures
            area == self.required_area(kind),
    {
        match &self.area_requirements {
            Some(requirements) => *requirements.pasture_kind_to_req_area.get(kind),
            None => 0,
        }
    }
}

/// Every species is identified by its position and lives no longer than
/// `MAX_LIFESPAN_DAYS`.
pub open spec fn species_wf(species: Seq<Species>) -> bool {
    forall|i: int|
        0 <= i < species.len() ==> (#[trigger] species[i]).id == i && species[i].lifespan_days
            <= MAX_LIFESPAN_DAYS
}

} // verus!
