//! Pastures, their kinds, and the generator that adds new pastures.
use vstd::prelude::*;

use crate::error::ConfigError;
use crate::random::RandomSource;

verus! {

/// How a pasture is laid out.
#[derive(Clone, Copy, Debug, PartialEq, Eq, Structural)]
pub enum PastureKind {
    Open,
    Covered,
    Individual,
}

impl PastureKind {
    /// The kind at position `ordinal` in the order of declaration.
    pub open spec fn spec_from_ordinal(ordinal: int) -> Option<PastureKind> {
        if ordinal == 0 {
            Some(PastureKind::Open)
        } else if ordinal == 1 {
            Some(PastureKind::Covered)
        } else if ordinal == 2 {
            Some(PastureKind::Individual)
        } else {
            None
        }
    }

    /// The kind at position `ordinal`, if there is one.
    pub fn from_ordinal(ordinal: u64) -> (kind: Option<PastureKind>)
        ensures
            kind == Self::spec_from_ordinal(ordinal as int),
    {
        if ordinal == 0 {
            Some(PastureKind::Open)
        } else if ordinal == 1 {
            Some(PastureKind::Covered)
        } else if ordinal == 2 {
            Some(PastureKind::Individual)
        } else {
            None
        }
    }
}

/// One value for each pasture kind.
#[derive(Debug)]
pub struct PastureKindMap<T> {
    pub open: T,
    pub covered: T,
    pub individual: T,
}

impl<T> PastureKindMap<T> {
    /// The value held for `kind`.
    pub open spec fn spec_get(&self, kind: PastureKind) -> T {
        match kind {
            PastureKind::Open => self.open,
            PastureKind::Covered => self.covered,
            PastureKind::Individual => self.individual,
        }
    }

    /// A map that holds `open`, `covered` and `individual` for the three kinds.
    pub fn new(open: T, covered: T, individual: T) -> (table: Self)
        ensures
            table.open == open,
            table.covered == covered,
            table.individual == individual,
    {
        PastureKindMap { open, covered, individual }
    }

    /// The value held for `kind`.
    pub fn get(&self, kind: PastureKind) -> (value: &T)
        ensures
            *value == self.spec_get(kind),
    {
        match kind {
            PastureKind::Open => &self.open,
            PastureKind::Covered => &self.covered,
            PastureKind::Individual => &self.individual,
        }
    }
}

/// The inclusive range of areas, in square decimetres, that a new pasture of
/// one kind may have.
#[derive(Clone, Copy, Debug, PartialEq, Eq)]
pub struct PastureAreaMinMax {
    pub min: u64,
    pub max: u64,
}

impl PastureAreaMinMax {
    /// The range holds a positive area and is not inverted.
    pub open spec fn is_valid(&self) -> bool {
        0 < self.min <= self.max
    }

    /// Whether `area` lies in the range.
    pub open spec fn holds(&self, area: int) -> bool {
        self.min <= area <= self.max
    }
}

/// A pasture. Its area is in square decimetres and is never changed.
#[derive(Clone, Copy, Debug, PartialEq, Eq)]
pub struct Pasture {
    pub id: usize,
    pub area: u64,
    pub kind: PastureKind,
}

impl Pasture {
    /// A pasture with the given record.
    pub fn new(id: usize, area: u64, kind: PastureKind) -> (pasture: Self)
        ensures
            pasture.id == id,
            pasture.area == area,
            pasture.kind == kind,
    {
        Pasture { id, area, kind }
    }
}

/// Every pasture is identified by its position and has a positive area.
pub open spec fn pastures_wf(pastures: Seq<Pasture>) -> bool {
    forall|i: int|
        0 <= i < pastures.len() ==> (#[trigger] pastures[i]).id == i && pastures[i].area > 0
}

/// All three area ranges are valid.
pub open spec fn area_ranges_valid(size_ranges: PastureKindMap<PastureAreaMinMax>) -> bool {
    &&& size_ranges.open.is_valid()
    &&& size_ranges.covered.is_valid()
    &&& size_ranges.individual.is_valid()
}

/// The refusal, if any, with which `expand_pasture_vec` answers.
pub open spec fn expand_pasture_error(size_ranges: PastureKindMap<PastureAreaMinMax>) -> Option<
    ConfigError,
> {
    if area_ranges_valid(size_ranges) {
        None
    } else {
        Some(ConfigError::InvalidRange)
    }
}

/// `grown` is `before` followed by `count` new pastures, each identified by
/// its position and with an area inside the range of its kind.
pub open spec fn pastures_expanded(
    before: Seq<Pasture>,
    grown: Seq<Pasture>,
    count: int,
    size_ranges: PastureKindMap<PastureAreaMinMax>,
) -> bool {
    &&& grown.len() == before.len() + count
    &&& before.is_prefix_of(grown)
    &&& forall|i: int|
        before.len() <= i < grown.len() ==> {
            &&& (#[trigger] grown[i]).id == i
            &&& size_ranges.spec_get(grown[i].kind).holds(grown[i].area as int)
        }
}

pub(crate) fn area_ranges_are_valid(size_ranges: &PastureKindMap<PastureAreaMinMax>) -> (ok: bool)
    ensures
        ok == area_ranges_valid(*size_ranges),
{
    0 < size_ranges.open.min && size_ranges.open.min <= size_ranges.open.max
        && 0 < size_ranges.covered.min && size_ranges.covered.min <= size_ranges.covered.max
        && 0 < size_ranges.individual.min && size_ranges.individual.min
        <= size_ranges.individual.max
}

/// Appends `count` pastures. Each gets a kind drawn uniformly from the three
/// kinds and an area drawn uniformly from the range of that kind. Refuses,
/// before anything is drawn, unless all three ranges are valid.
pub fn expand_pasture_vec(
    rng: &mut RandomSource,
    pastures: &mut Vec<Pasture>,
    count: usize,
    size_ranges: &PastureKindMap<PastureAreaMinMax>,
) -> (outcome: Result<(), ConfigError>)
    ensures
        outcome is Err <==> expand_pasture_error(*size_ranges) is Some,
        outcome is Err ==> Some(outcome->Err_0) == expand_pasture_error(*size_ranges)
            && final(pastures)@ == old(pastures)@ && *final(rng) == *old(rng),
        outcome is Ok ==> pastures_expanded(
            old(pastures)@,
            final(pastures)@,
            count as int,
            *size_ranges,
        ),
        outcome is Ok && pastures_wf(old(pastures)@) ==> pastures_wf(final(pastures)@),
{
    if !area_ranges_are_valid(size_ranges) {
        return Err(ConfigError::InvalidRange);
    }
    let ghost before = pastures@;
    let mut made: usize = 0;
    while made < count
        invariant
            made <= count,
            area_ranges_valid(*size_ranges),
            pastures_expanded(before, pastures@, made as int, *size_ranges),
        decreases count - made,
    {
        let ordinal = match rng.uniform_below(0, 3) {
            Ok(ordinal) => ordinal,
            Err(_) => 0,
        };
        let kind = match PastureKind::from_ordinal(ordinal) {
            Some(kind) => kind,
            None => PastureKind::Open,
        };
        let range = size_ranges.get(kind);
        let area = match rng.uniform_inclusive(range.min, range.max) {
            Ok(area) => area,
            Err(_) => range.min,
        };
        let id = pastures.len();
        pastures.push(Pasture::new(id, area, kind));
        made = made + 1;
    }
    proof {
        lemma_expanded_pastures_wf(before, pastures@, count as int, *size_ranges);
    }
    Ok(())
}

/// Pastures appended from valid ranges keep the store well formed.
pub proof fn lemma_expanded_pastures_wf(
    before: Seq<Pasture>,
    grown: Seq<Pasture>,
    count: int,
    size_ranges: PastureKindMap<PastureAreaMinMax>,
)
    requires
        pastures_expanded(before, grown, count, size_ranges),
        area_ranges_valid(size_ranges),
    ensures
        pastures_wf(before) ==> pastures_wf(grown),
{
    if pastures_wf(before) {
        assert forall|i: int| 0 <= i < grown.len() implies (#[trigger] grown[i]).id == i
            && grown[i].area > 0 by {
            if i < before.len() {
                assert(grown.subrange(0, before.len() as int)[i] == grown[i]);
            }
        }
    }
}

} // verus!
