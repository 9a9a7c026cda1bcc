//! The placement controller: what one tick of the pointer does to the store.
//!
//! While the left button is held the selected tile is stamped on the cell
//! under the cursor; while only the right button is held the cell is
//! erased. A cell that already holds the selected tile is left alone, so
//! that dragging over it causes no churn.

use vstd::prelude::*;
use crate::geometry::Point;
use crate::key::{encode, spec_encode, CellKey};
use crate::store::{spec_lookup, PlacementStore};
use crate::tile::{PlacedTile, SelectionState, TileKind};

verus! {

/// The state of the pointer during a tick: which buttons are held, and
/// whether the pointer is over the palette rather than over the field.
#[derive(Clone, Copy, Debug, PartialEq, Eq, Structural)]
pub struct PointerState {
    pub left_down: bool,
    pub right_down: bool,
    pub over_ui: bool,
}

/// What a tick does to the cell under the cursor.
#[derive(Clone, Copy, Debug, PartialEq, Eq, Structural)]
pub enum Decision {
    /// Nothing changes.
    NoOp,
    /// The empty cell gets the selected tile.
    Insert,
    /// The occupant is destroyed and the selected tile takes its cell.
    Replace,
    /// The occupant is destroyed and the cell stays empty.
    Erase,
}

/// Everything that one tick of the controller reads: the selected kind, the
/// centre of the cell under the cursor, the pointer, and the handle that a
/// tile created in this tick will carry.
#[derive(Clone, Copy, Debug, PartialEq, Eq, Structural)]
pub struct Tick {
    pub selected: TileKind,
    pub center: Point,
    pub pointer: PointerState,
    pub handle: u64,
}

/// What the rendering world has to do after a tick: destroy the tile that
/// left the store, and show the tile that entered it.
#[derive(Clone, Copy, Debug, PartialEq, Eq, Structural)]
pub struct TickOutcome {
    pub destroyed: Option<PlacedTile>,
    pub created: Option<PlacedTile>,
}

impl Decision {
    /// Whether the decision removes the occupant of the cell.
    pub open spec fn spec_destroys(self) -> bool {
        self == Decision::Replace || self == Decision::Erase
    }

    /// Whether the decision puts a new tile into the cell.
    pub open spec fn spec_creates(self) -> bool {
        self == Decision::Insert || self == Decision::Replace
    }

    /// Whether the decision removes the occupant of the cell.
    pub fn destroys(&self) -> (b: bool)
        ensures
            b == self.spec_destroys(),
    {
        match self {
            Decision::Replace => true,
            Decision::Erase => true,
            _ => false,
        }
    }

    /// Whether the decision puts a new tile into the cell.
    pub fn creates(&self) -> (b: bool)
        ensures
            b == self.spec_creates(),
    {
        match self {
            Decision::Insert => true,
            Decision::Replace => true,
            _ => false,
        }
    }
}

impl Tick {
    /// The key of the cell under the cursor.
    pub open spec fn key(self) -> CellKey {
        spec_encode(self.center) as CellKey
    }

    /// The tile that this tick creates where it creates one.
    pub open spec fn tile(self) -> PlacedTile {
        PlacedTile { kind: self.selected, position: self.center, handle: self.handle }
    }
}

/// The decision for a cell with the given occupant. Over the palette, or
/// with no button held, nothing happens. With the left button held the
/// selected tile is inserted into an empty cell and replaces an occupant of
/// another kind; an occupant of the selected kind stays. With only the right
/// button held an occupant is erased.
pub open spec fn spec_decide(
    occupant: Option<PlacedTile>,
    selected: TileKind,
    pointer: PointerState,
) -> Decision {
    if pointer.over_ui || !(pointer.left_down || pointer.right_down) {
        Decision::NoOp
    } else {
        match occupant {
            Some(tile) => {
                if pointer.left_down {
                    if tile.kind == selected {
                        Decision::NoOp
                    } else {
                        Decision::Replace
                    }
                } else {
                    Decision::Erase
                }
            },
            None => {
                if pointer.left_down {
                    Decision::Insert
                } else {
                    Decision::NoOp
                }
            },
        }
    }
}

/// The decision that a tick takes on a store with the entries `m`.
pub open spec fn spec_decision(m: Map<CellKey, PlacedTile>, tick: Tick) -> Decision {
    spec_decide(spec_lookup(m, tick.key()), tick.selected, tick.pointer)
}

/// The entries of the store after a tick.
pub open spec fn spec_step(m: Map<CellKey, PlacedTile>, tick: Tick) -> Map<CellKey, PlacedTile> {
    match spec_decision(m, tick) {
        Decision::NoOp => m,
        Decision::Insert => m.insert(tick.key(), tick.tile()),
        Decision::Replace => m.insert(tick.key(), tick.tile()),
        Decision::Erase => m.remove(tick.key()),
    }
}

/// What a tick reports to the rendering world.
pub open spec fn spec_outcome(m: Map<CellKey, PlacedTile>, tick: Tick) -> TickOutcome {
    let decision = spec_decision(m, tick);
    TickOutcome {
        destroyed: if decision.spec_destroys() {
            spec_lookup(m, tick.key())
        } else {
            None
        },
        created: if decision.spec_creates() {
            Some(tick.tile())
        } else {
            None
        },
    }
}

/// The kind of the tile in the cell centred on `center`, if the cell is
/// occupied.
pub open spec fn tile_kind_at(m: Map<CellKey, PlacedTile>, center: Point) -> Option<TileKind> {
    match spec_lookup(m, spec_encode(center) as CellKey) {
        Some(tile) => Some(tile.kind),
        None => None,
    }
}

/// The decision for a cell with the given occupant.
pub fn decide(occupant: Option<PlacedTile>, selected: TileKind, pointer: PointerState) -> (decision:
    Decision)
    ensures
        decision == spec_decide(occupant, selected, pointer),
{
    if pointer.over_ui || !(pointer.left_down || pointer.right_down) {
        return Decision::NoOp;
    }
    match occupant {
        Some(tile) => {
            if pointer.left_down {
                if tile.kind == selected {
                    Decision::NoOp
                } else {
                    Decision::Replace
                }
            } else {
                Decision::Erase
            }
        },
        None => {
            if pointer.left_down {
                Decision::Insert
            } else {
                Decision::NoOp
            }
        },
    }
}

/// The decision that a tick would take on the store, which is left as it
/// is. A caller learns from it whether the tick needs a handle for a new
/// tile.
pub fn plan(
    store: &PlacementStore,
    selection: &SelectionState,
    center: Point,
    pointer: PointerState,
) -> (decision: Decision)
    ensures
        decision == spec_decide(
            spec_lookup(store@, spec_encode(center) as CellKey),
            selection.kind,
            pointer,
        ),
{
    let key = encode(center);
    decide(store.get(key), selection.kind, pointer)
}

/// One tick of the controller on the cell centred on `center`.
///
/// The store afterwards and the reported outcome are those of `spec_step`
/// and `spec_outcome`. Only the cell under the cursor can change. After a
/// tick over the field with the left button held the cell holds a tile of
/// the selected kind; after one with only the right button held it is
/// empty. A tile is created only with `handle` as its handle.
pub fn place_tick(
    store: &mut PlacementStore,
    selection: &SelectionState,
    center: Point,
    pointer: PointerState,
    handle: u64,
) -> (outcome: TickOutcome)
    ensures
        final(store)@ == spec_step(
            old(store)@,
            (Tick { selected: selection.kind, center, pointer, handle }),
        ),
        outcome == spec_outcome(
            old(store)@,
            (Tick { selected: selection.kind, center, pointer, handle }),
        ),
        forall|k: CellKey|
            k != spec_encode(center) ==> spec_lookup(final(store)@, k) == spec_lookup(
                old(store)@,
                k,
            ),
        !pointer.over_ui && pointer.left_down ==> tile_kind_at(final(store)@, center) == Some(
            selection.kind,
        ),
        !pointer.over_ui && pointer.right_down && !pointer.left_down ==> tile_kind_at(
            final(store)@,
            center,
        ).is_none(),
{
    let ghost before = store@;
    let ghost tick = Tick { selected: selection.kind, center, pointer, handle };
    if pointer.over_ui {
        return TickOutcome { destroyed: None, created: None };
    }
    let key = encode(center);
    let mut destroyed: Option<PlacedTile> = None;
    if pointer.left_down || pointer.right_down {
        if let Some(occupant) = store.get(key) {
            if pointer.left_down && occupant.kind == selection.kind {
                return TickOutcome { destroyed: None, created: None };
            }
            let _ = store.remove(key);
            destroyed = Some(occupant);
        }
    }
    let mut created: Option<PlacedTile> = None;
    if pointer.left_down {
        let tile = PlacedTile { kind: selection.kind, position: center, handle };
        store.put(key, tile);
        created = Some(tile);
    }
    assert(store@ =~= spec_step(before, tick));
    TickOutcome { destroyed, created }
}

} // verus!
