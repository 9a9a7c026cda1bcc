//! The placement store: the sparse mapping from cell key to the tile that
//! occupies the cell.

use vstd::prelude::*;
use bevy::utils::HashMap;
use crate::key::CellKey;
use crate::tile::PlacedTile;

verus! {

/// The tiles of the layout, each under the key of its cell.
///
/// Trusted: the tiles are kept in bevy's `HashMap`, which is hashbrown's map
/// with a hasher of bevy's choice. The verifier does not look inside the
/// struct; what it knows of the content is `store_entries`, and what it
/// knows of `store_entries` is what the `map_` functions below state.
#[verifier::external_body]
pub struct PlacementStore {
    tiles: HashMap<i64, PlacedTile>,
}

/// Trusted: the entries that the hash map of a store holds, as a mapping
/// from key to tile.
pub uninterp spec fn store_entries(store: PlacementStore) -> Map<i64, PlacedTile>;

impl View for PlacementStore {
    type V = Map<CellKey, PlacedTile>;

    /// A store is seen as the mapping from key to tile that it holds.
    open spec fn view(&self) -> Map<CellKey, PlacedTile> {
        store_entries(*self)
    }
}

/// The mapping that holds no tile.
pub open spec fn no_entries() -> Map<CellKey, PlacedTile> {
    Map::empty()
}

/// Whether `m` holds finitely many tiles, `n` of them.
pub open spec fn holds_count(m: Map<CellKey, PlacedTile>, n: nat) -> bool {
    m.dom().finite() && m.dom().len() == n
}

/// The tile under `key` in a mapping, if there is one.
pub open spec fn spec_lookup(m: Map<CellKey, PlacedTile>, key: CellKey) -> Option<PlacedTile> {
    if m.contains_key(key) {
        Some(m[key])
    } else {
        None
    }
}

/// Whether `items` lists every entry of `m` exactly once, in some order.
pub open spec fn lists_entries(
    items: Seq<(CellKey, PlacedTile)>,
    m: Map<CellKey, PlacedTile>,
) -> bool {
    &&& forall|i: int| 0 <= i < items.len() ==> #[trigger] m.contains_pair(items[i].0, items[i].1)
    &&& forall|i: int, j: int|
        0 <= i < j < items.len() ==> (#[trigger] items[i]).0 != (#[trigger] items[j]).0
    &&& forall|k: CellKey| #[trigger]
        m.contains_key(k) ==> exists|i: int| 0 <= i < items.len() && (#[trigger] items[i]).0 == k
}

/// Trusted: `HashMap::new` of hashbrown, through bevy's alias. The new map
/// holds no entry.
#[verifier::external_body]
fn map_new() -> (store: PlacementStore)
    ensures
        store_entries(store) == no_entries(),
{
    PlacementStore { tiles: HashMap::new() }
}

/// Trusted: `HashMap::len` of hashbrown. A map holds finitely many entries,
/// and `len` is their number.
#[verifier::external_body]
fn map_len(store: &PlacementStore) -> (n: usize)
    ensures
        holds_count(store_entries(*store), n as nat),
{
    store.tiles.len()
}

/// Trusted: `HashMap::get` of hashbrown. It returns the value under the key,
/// or nothing where the map has no such key; the value is copied out.
#[verifier::external_body]
fn map_get(store: &PlacementStore, key: CellKey) -> (found: Option<PlacedTile>)
    ensures
        found == spec_lookup(store_entries(*store), key),
{
    store.tiles.get(&key).copied()
}

/// Trusted: `HashMap::insert` of hashbrown. Afterwards the key maps to the
/// new value and every other key is as before; the value that the key had
/// before is returned.
#[verifier::external_body]
fn map_insert(store: &mut PlacementStore, key: CellKey, tile: PlacedTile) -> (prior: Option<
    PlacedTile,
>)
    ensures
        store_entries(*final(store)) == store_entries(*old(store)).insert(key, tile),
        prior == spec_lookup(store_entries(*old(store)), key),
{
    store.tiles.insert(key, tile)
}

/// Trusted: `HashMap::remove` of hashbrown. Afterwards the key is absent and
/// every other key is as before; the value that the key had is returned.
#[verifier::external_body]
fn map_remove(store: &mut PlacementStore, key: CellKey) -> (prior: Option<PlacedTile>)
    ensures
        store_entries(*final(store)) == store_entries(*old(store)).remove(key),
        prior == spec_lookup(store_entries(*old(store)), key),
{
    store.tiles.remove(&key)
}

/// Trusted: `HashMap::iter` of hashbrown, with every entry copied out. The
/// iterator visits each entry of the map once, in an order of its own.
#[verifier::external_body]
fn map_entries(store: &PlacementStore) -> (items: Vec<(CellKey, PlacedTile)>)
    ensures
        lists_entries(items@, store_entries(*store)),
{
    store.tiles.iter().map(|(key, tile)| (*key, *tile)).collect()
}

impl PlacementStore {
    /// An empty store.
    pub fn new() -> (store: PlacementStore)
        ensures
            store@ == no_entries(),
    {
        map_new()
    }

    /// The number of occupied cells.
    pub fn len(&self) -> (n: usize)
        ensures
            self@.dom().finite(),
            n == self@.dom().len(),
    {
        map_len(self)
    }

    /// The tile that occupies the cell with this key, if any. The store is
    /// left as it is.
    pub fn get(&self, key: CellKey) -> (found: Option<PlacedTile>)
        ensures
            found == spec_lookup(self@, key),
            found.is_some() <==> self@.contains_key(key),
    {
        map_get(self, key)
    }

    /// Puts the tile under the key, over whatever was there. The caller
    /// destroys the handle of a tile that it overwrites.
    pub fn put(&mut self, key: CellKey, tile: PlacedTile)
        ensures
            final(self)@ == old(self)@.insert(key, tile),
    {
        let _ = map_insert(self, key, tile);
    }

    /// Takes the tile under the key out of the store and returns it; returns
    /// nothing, and changes nothing, where the cell is empty.
    pub fn remove(&mut self, key: CellKey) -> (prior: Option<PlacedTile>)
        ensures
            prior == spec_lookup(old(self)@, key),
            final(self)@ == old(self)@.remove(key),
            !final(self)@.contains_key(key),
    {
        map_remove(self, key)
    }

    /// Every entry of the store, once, in the store's own order.
    pub fn entries(&self) -> (items: Vec<(CellKey, PlacedTile)>)
        ensures
            lists_entries(items@, self@),
    {
        map_entries(self)
    }
}

} // verus!
