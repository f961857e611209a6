//! The mathematical model of a planet's state and of what each handler does to it.
use vstd::prelude::*;

verus! {

#[verifier::ext_equal]
/// What the planet logic can observe of a planet state: its identifier, the charge of
/// each energy cell (in order), whether a rocket is stored, and whether the planet type
/// allows rockets at all.
pub struct PlanetView {
    pub id: u32,
    pub cells: Seq<bool>,
    pub rocket: bool,
    pub rocket_permitted: bool,
}

/// `p` is the first position of `cells` that holds `want`.
pub open spec fn is_first(cells: Seq<bool>, want: bool, p: int) -> bool {
    &&& 0 <= p < cells.len()
    &&& cells[p] == want
    &&& forall|j: int| 0 <= j < p ==> cells[j] != want
}

/// The first position of `cells` that holds `want`, if there is one.
pub open spec fn first_position(cells: Seq<bool>, want: bool) -> Option<int> {
    if exists|p: int| is_first(cells, want, p) {
        Some(choose|p: int| is_first(cells, want, p))
    } else {
        None
    }
}

/// The number of charged cells in `cells`.
pub open spec fn count_charged(cells: Seq<bool>) -> nat
    decreases cells.len(),
{
    if cells.len() == 0 {
        0
    } else {
        count_charged(cells.drop_last()) + if cells.last() {
            1nat
        } else {
            0nat
        }
    }
}

/// There is only one first position.
pub proof fn lemma_first_unique(cells: Seq<bool>, want: bool, p: int, q: int)
    requires
        is_first(cells, want, p),
        is_first(cells, want, q),
    ensures
        p == q,
{
    if p < q {
        assert(cells[p] != want);
    } else if q < p {
        assert(cells[q] != want);
    }
}

/// `first_position` is the position that `is_first` describes.
pub proof fn lemma_first_position_is(cells: Seq<bool>, want: bool, p: int)
    requires
        is_first(cells, want, p),
    ensures
        first_position(cells, want) == Some(p),
{
    let q = choose|q: int| is_first(cells, want, q);
    lemma_first_unique(cells, want, p, q);
}

/// Where some position holds `want`, a first one does.
pub proof fn lemma_first_exists(cells: Seq<bool>, want: bool, j: int)
    requires
        0 <= j < cells.len(),
        cells[j] == want,
    ensures
        first_position(cells, want) is Some,
        is_first(cells, want, first_position(cells, want)->0),
    decreases j,
{
    if exists|k: int| 0 <= k < j && cells[k] == want {
        let k = choose|k: int| 0 <= k < j && cells[k] == want;
        lemma_first_exists(cells, want, k);
    } else {
        assert(is_first(cells, want, j));
    }
}

/// Where no position holds `want`, there is no first one.
pub proof fn lemma_first_none(cells: Seq<bool>, want: bool)
    requires
        forall|j: int| 0 <= j < cells.len() ==> cells[j] != want,
    ensures
        first_position(cells, want) is None,
{
}

/// A sunray charges the first discharged cell; where every cell is charged it is wasted.
pub open spec fn after_sunray(v: PlanetView) -> PlanetView {
    match first_position(v.cells, false) {
        Some(p) => PlanetView { cells: v.cells.update(p, true), ..v },
        None => v,
    }
}

/// An asteroid is deflected where a rocket is stored, or where the planet may build one
/// and has a charged cell to build it with.
pub open spec fn asteroid_deflected(v: PlanetView) -> bool {
    v.rocket || (v.rocket_permitted && first_position(v.cells, true) is Some)
}

/// After an asteroid: a stored rocket is handed out; otherwise, where the planet may
/// build one, the first charged cell is spent on a rocket that is handed out at once;
/// otherwise nothing changes.
pub open spec fn after_asteroid(v: PlanetView) -> PlanetView {
    if v.rocket {
        PlanetView { rocket: false, ..v }
    } else if v.rocket_permitted && first_position(v.cells, true) is Some {
        PlanetView { cells: v.cells.update(first_position(v.cells, true)->0, false), ..v }
    } else {
        v
    }
}

/// The state with energy cell `i` spent.
pub open spec fn spend_cell(v: PlanetView, i: int) -> PlanetView {
    PlanetView { cells: v.cells.update(i, false), ..v }
}

/// The number of charged energy cells that the planet reports to explorers: it looks at
/// its single cell, the first one.
pub open spec fn reported_cells(v: PlanetView) -> u32 {
    if v.cells[0] {
        1
    } else {
        0
    }
}

} // verus!
