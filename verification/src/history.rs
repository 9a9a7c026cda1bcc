//! What holds of the store over whole sequences of ticks.
//!
//! The rendering world is modelled as the set of tiles that are alive in it:
//! a tick's outcome takes the destroyed tile out of that set and puts the
//! created tile in.

use vstd::prelude::*;
use crate::controller::{spec_decision, spec_outcome, spec_step, Tick, TickOutcome};
use crate::geometry::{FieldGeometry, Point};
use crate::key::{lemma_encode_injective, spec_encode, spec_key_safe, CellKey};
use crate::store::{no_entries, spec_lookup};
use crate::tile::{PlacedTile, TileKind};

verus! {

/// The entries of the store after the ticks, taken in order.
pub open spec fn spec_run(m: Map<CellKey, PlacedTile>, ticks: Seq<Tick>) -> Map<
    CellKey,
    PlacedTile,
>
    decreases ticks.len(),
{
    if ticks.len() == 0 {
        m
    } else {
        spec_step(spec_run(m, ticks.drop_last()), ticks.last())
    }
}

/// How many of the ticks create a tile.
pub open spec fn spec_creates(m: Map<CellKey, PlacedTile>, ticks: Seq<Tick>) -> nat
    decreases ticks.len(),
{
    if ticks.len() == 0 {
        0
    } else {
        let before = spec_run(m, ticks.drop_last());
        let one: nat = if spec_decision(before, ticks.last()).spec_creates() {
            1
        } else {
            0
        };
        spec_creates(m, ticks.drop_last()) + one
    }
}

/// How many of the ticks destroy a tile.
pub open spec fn spec_destroys(m: Map<CellKey, PlacedTile>, ticks: Seq<Tick>) -> nat
    decreases ticks.len(),
{
    if ticks.len() == 0 {
        0
    } else {
        let before = spec_run(m, ticks.drop_last());
        let one: nat = if spec_decision(before, ticks.last()).spec_destroys() {
            1
        } else {
            0
        };
        spec_destroys(m, ticks.drop_last()) + one
    }
}

/// The tiles alive in the world once it has carried out an outcome.
pub open spec fn spec_world_after(world: Set<PlacedTile>, outcome: TickOutcome) -> Set<
    PlacedTile,
> {
    let kept = match outcome.destroyed {
        Some(tile) => world.remove(tile),
        None => world,
    };
    match outcome.created {
        Some(tile) => kept.insert(tile),
        None => kept,
    }
}

/// The tiles alive in the world once it has carried out the outcomes of the
/// ticks, taken in order, on a store that starts with the entries `m`.
pub open spec fn spec_world_run(
    world: Set<PlacedTile>,
    m: Map<CellKey, PlacedTile>,
    ticks: Seq<Tick>,
) -> Set<PlacedTile>
    decreases ticks.len(),
{
    if ticks.len() == 0 {
        world
    } else {
        spec_world_after(
            spec_world_run(world, m, ticks.drop_last()),
            spec_outcome(spec_run(m, ticks.drop_last()), ticks.last()),
        )
    }
}

/// Whether every tile sits under the key of its own position.
pub open spec fn keyed_by_position(m: Map<CellKey, PlacedTile>) -> bool {
    forall|k: CellKey| #[trigger] m.contains_key(k) ==> spec_encode(m[k].position) == k
}

/// Whether every tile sits on the centre of a cell of the field.
pub open spec fn on_cell_centers(m: Map<CellKey, PlacedTile>, g: FieldGeometry) -> bool {
    forall|k: CellKey| #[trigger] m.contains_key(k) ==> g.is_center(m[k].position)
}

/// Whether the cell centred on `center` holds a tile of the kind `kind`.
pub open spec fn tile_is(m: Map<CellKey, PlacedTile>, center: Point, kind: TileKind) -> bool {
    let key = spec_encode(center) as CellKey;
    m.contains_key(key) && m[key].kind == kind
}

/// Whether all the ticks press the left button over the field, on the cell
/// centred on `center` and with the kind `selected`.
pub open spec fn all_stamp(ticks: Seq<Tick>, selected: TileKind, center: Point) -> bool {
    forall|i: int|
        0 <= i < ticks.len() ==> {
            &&& (#[trigger] ticks[i]).selected == selected
            &&& ticks[i].center == center
            &&& ticks[i].pointer.left_down
            &&& !ticks[i].pointer.over_ui
        }
}

/// A tick keeps every tile under the key of its position.
pub proof fn lemma_step_keeps_keys(m: Map<CellKey, PlacedTile>, tick: Tick)
    requires
        keyed_by_position(m),
    ensures
        keyed_by_position(spec_step(m, tick)),
{
    let after = spec_step(m, tick);
    assert forall|k: CellKey| #[trigger] after.contains_key(k) implies spec_encode(
        after[k].position,
    ) == k by {
        if k != tick.key() {
            assert(m.contains_key(k));
        }
    }
}

/// After a tick the tiles alive in the world are the tiles of the store, if
/// they were before.
pub proof fn lemma_step_world(m: Map<CellKey, PlacedTile>, tick: Tick)
    requires
        keyed_by_position(m),
    ensures
        spec_world_after(m.values(), spec_outcome(m, tick)) == spec_step(m, tick).values(),
{
    let after = spec_step(m, tick);
    let world = spec_world_after(m.values(), spec_outcome(m, tick));
    let key = tick.key();
    lemma_step_keeps_keys(m, tick);
    assert forall|v: PlacedTile| world.contains(v) implies after.values().contains(v) by {
        if spec_outcome(m, tick).created == Some(v) {
            assert(after.contains_key(key) && after[key] == v);
        } else {
            assert(m.values().contains(v));
            let k = choose|k: CellKey| #[trigger] m.dom().contains(k) && m[k] == v;
            assert(after.dom().contains(k) && after[k] == v);
        }
    }
    assert forall|v: PlacedTile| after.values().contains(v) implies world.contains(v) by {
        let k = choose|k: CellKey| #[trigger] after.dom().contains(k) && after[k] == v;
        if k != key {
            assert(m.dom().contains(k) && m[k] == v);
            assert(m.contains_key(k));
        } else if !spec_decision(m, tick).spec_creates() {
            assert(m.dom().contains(k) && m[k] == v);
        }
    }
    assert(world =~= after.values());
}

/// At most one occupant: whatever the ticks, the store afterwards keeps
/// every tile under the key of its position, and the tiles alive in the
/// world are exactly the tiles of the store.
pub proof fn lemma_run_one_occupant(m: Map<CellKey, PlacedTile>, ticks: Seq<Tick>)
    requires
        keyed_by_position(m),
    ensures
        keyed_by_position(spec_run(m, ticks)),
        spec_world_run(m.values(), m, ticks) == spec_run(m, ticks).values(),
    decreases ticks.len(),
{
    if ticks.len() > 0 {
        lemma_run_one_occupant(m, ticks.drop_last());
        let before = spec_run(m, ticks.drop_last());
        lemma_step_keeps_keys(before, ticks.last());
        lemma_step_world(before, ticks.last());
    }
}

/// At most one occupant, from the start: after any ticks on an empty store
/// every tile sits under the key of its position and the world holds the
/// tiles of the store and no others.
pub proof fn lemma_run_from_empty(ticks: Seq<Tick>)
    ensures
        keyed_by_position(spec_run(no_entries(), ticks)),
        spec_world_run(Set::empty(), no_entries(), ticks) == spec_run(no_entries(), ticks).values(),
{
    assert(no_entries().values() =~= Set::<PlacedTile>::empty());
    lemma_run_one_occupant(no_entries(), ticks);
}

/// In a store that keeps its tiles under the keys of their positions, two
/// tiles on the same position are one entry, and two entries differ in
/// their positions.
pub proof fn lemma_one_tile_per_position(m: Map<CellKey, PlacedTile>, k1: CellKey, k2: CellKey)
    requires
        keyed_by_position(m),
        m.contains_key(k1),
        m.contains_key(k2),
    ensures
        m[k1].position == m[k2].position <==> k1 == k2,
{
}

/// In a store that keeps its tiles under the keys of their positions there
/// are as many tiles as occupied keys: every occupied key has one tile of
/// its own.
pub proof fn lemma_one_tile_per_key(m: Map<CellKey, PlacedTile>)
    requires
        keyed_by_position(m),
        m.dom().finite(),
    ensures
        m.is_injective(),
        m.values().finite(),
        m.values().len() == m.dom().len(),
{
    assert(m.is_injective()) by {
        assert forall|x: CellKey, y: CellKey|
            x != y && m.dom().contains(x) && m.dom().contains(y) implies #[trigger] m[x]
            != #[trigger] m[y] by {
            assert(m.contains_key(x) && m.contains_key(y));
        }
    }
    m.lemma_injective_values_len();
}

/// On a key-safe field whose cell centres carry the tiles, a cell holds at
/// most one tile: a tile whose position is the centre `center` is the entry
/// under the key of `center`.
pub proof fn lemma_one_tile_per_cell(
    m: Map<CellKey, PlacedTile>,
    g: FieldGeometry,
    k: CellKey,
    center: Point,
)
    requires
        g.wf(),
        spec_key_safe(g),
        keyed_by_position(m),
        on_cell_centers(m, g),
        g.is_center(center),
        m.contains_key(k),
    ensures
        m[k].position == center <==> k == spec_encode(center),
{
    if k == spec_encode(center) {
        lemma_encode_injective(g, m[k].position, center);
    }
}

/// A tick of the ticks that stamp one cell with one kind leaves in the cell
/// a tile of that kind; and it creates or destroys a tile only where the
/// cell did not hold that kind before.
proof fn lemma_stamp_step(m: Map<CellKey, PlacedTile>, tick: Tick)
    requires
        tick.pointer.left_down,
        !tick.pointer.over_ui,
    ensures
        spec_lookup(spec_step(m, tick), tick.key()).is_some(),
        spec_lookup(spec_step(m, tick), tick.key()).unwrap().kind == tick.selected,
        spec_lookup(m, tick.key()).is_some() && spec_lookup(m, tick.key()).unwrap().kind
            == tick.selected ==> spec_step(m, tick) == m && !spec_decision(m, tick).spec_creates()
            && !spec_decision(m, tick).spec_destroys(),
{
}

/// Idempotent re-stamp: any number of ticks, at least one, that hold the
/// left button over one cell with one selection create exactly one tile,
/// or none where the cell held a tile of that kind to begin with; they
/// destroy only a tile of another kind that the cell held to begin with. In
/// the end the cell holds the tile that was there already, or else the tile
/// of the first tick.
pub proof fn lemma_restamp_creates_once(
    m: Map<CellKey, PlacedTile>,
    ticks: Seq<Tick>,
    selected: TileKind,
    center: Point,
)
    requires
        ticks.len() >= 1,
        all_stamp(ticks, selected, center),
    ensures
        spec_creates(m, ticks) == (if tile_is(m, center, selected) {
            0nat
        } else {
            1nat
        }),
        spec_destroys(m, ticks) == (if spec_lookup(m, ticks[0].key()).is_some() && !tile_is(
            m,
            center,
            selected,
        ) {
            1nat
        } else {
            0nat
        }),
        spec_run(m, ticks) == spec_step(m, ticks[0]),
        tile_is(spec_run(m, ticks), center, selected),
    decreases ticks.len(),
{
    let first = ticks[0];
    let last = ticks.last();
    assert(first.key() == last.key());
    if ticks.len() == 1 {
        assert(ticks.drop_last().len() == 0);
        assert(spec_run(m, ticks.drop_last()) == m);
        assert(spec_creates(m, ticks.drop_last()) == 0);
        assert(spec_destroys(m, ticks.drop_last()) == 0);
        lemma_stamp_step(m, first);
    } else {
        let front = ticks.drop_last();
        assert(front[0] == first);
        assert(all_stamp(front, selected, center)) by {
            assert forall|i: int| 0 <= i < front.len() implies {
                &&& (#[trigger] front[i]).selected == selected
                &&& front[i].center == center
                &&& front[i].pointer.left_down
                &&& !front[i].pointer.over_ui
            } by {
                assert(front[i] == ticks[i]);
            }
        }
        lemma_restamp_creates_once(m, front, selected, center);
        lemma_stamp_step(spec_run(m, front), last);
    }
}

/// Erase clears: a tick that places a tile, followed by a tick on the same
/// cell with only the right button held, leaves the cell empty.
pub proof fn lemma_place_then_erase(m: Map<CellKey, PlacedTile>, place: Tick, erase: Tick)
    requires
        place.pointer.left_down,
        !place.pointer.over_ui,
        erase.center == place.center,
        erase.pointer.right_down,
        !erase.pointer.left_down,
        !erase.pointer.over_ui,
    ensures
        spec_lookup(spec_step(m, place), place.key()).is_some(),
        spec_lookup(spec_step(spec_step(m, place), erase), place.key()).is_none(),
{
}

} // verus!
