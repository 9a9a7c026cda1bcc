//! The export: a flat list of typed, coloured, positioned records taken from
//! the store.

use vstd::prelude::*;
use vstd::seq_lib::seq_to_set_is_finite;
use crate::geometry::Point;
use crate::key::CellKey;
use crate::store::{lists_entries, PlacementStore};
use crate::tile::{Color, PlacedTile};

verus! {

/// One exported tile: the code of its kind (0 for a brick, 1 for a wall),
/// its colour and the centre of its cell.
#[derive(Clone, Copy, Debug, PartialEq, Eq, Structural)]
pub struct Record {
    pub brick_type: u8,
    pub color: Color,
    pub pos: Point,
}

/// The exported document: the list of the layout's tiles.
pub struct ExportData {
    pub bricks: Vec<Record>,
}

/// The record of a placed tile.
pub open spec fn spec_record(tile: PlacedTile) -> Record {
    Record {
        brick_type: tile.kind.spec_kind_code(),
        color: tile.kind.spec_color(),
        pos: tile.position,
    }
}

/// The records of listed entries, in the order of the list.
pub open spec fn spec_records(items: Seq<(CellKey, PlacedTile)>) -> Seq<Record> {
    items.map_values(|item: (CellKey, PlacedTile)| spec_record(item.1))
}

/// Whether `records` holds one record for every tile of `m`, in the order of
/// some listing of the entries of `m`.
pub open spec fn is_snapshot(records: Seq<Record>, m: Map<CellKey, PlacedTile>) -> bool {
    exists|items: Seq<(CellKey, PlacedTile)>| #[trigger]
        lists_entries(items, m) && records == spec_records(items)
}

/// A listing of a mapping's entries is as long as the mapping has keys, and
/// such a mapping is finite.
pub proof fn lemma_listing_length(items: Seq<(CellKey, PlacedTile)>, m: Map<CellKey, PlacedTile>)
    requires
        lists_entries(items, m),
    ensures
        m.dom().finite(),
        items.len() == m.dom().len(),
{
    let keys = items.map_values(|item: (CellKey, PlacedTile)| item.0);
    assert(keys.no_duplicates()) by {
        assert forall|i: int, j: int|
            0 <= i < keys.len() && 0 <= j < keys.len() && i != j implies keys[i] != keys[j] by {
            if i < j {
                assert(items[i].0 != items[j].0);
            } else {
                assert(items[j].0 != items[i].0);
            }
        }
    }
    assert(keys.to_set() =~= m.dom()) by {
        assert forall|k: CellKey| keys.to_set().contains(k) implies m.dom().contains(k) by {
            let i = choose|i: int| 0 <= i < keys.len() && keys[i] == k;
            assert(m.contains_pair(items[i].0, items[i].1));
        }
        assert forall|k: CellKey| m.dom().contains(k) implies keys.to_set().contains(k) by {
            assert(m.contains_key(k));
            let i = choose|i: int| 0 <= i < items.len() && (#[trigger] items[i]).0 == k;
            assert(keys[i] == k);
        }
    }
    seq_to_set_is_finite(keys);
    keys.unique_seq_to_set();
}

/// The record of a placed tile.
pub fn record_of(tile: &PlacedTile) -> (record: Record)
    ensures
        record == spec_record(*tile),
{
    Record { brick_type: tile.kind.kind_code(), color: tile.kind.color(), pos: tile.position }
}

/// The records of listed entries, one for each entry and in the same order.
pub fn records_of(items: &Vec<(CellKey, PlacedTile)>) -> (records: Vec<Record>)
    ensures
        records@ == spec_records(items@),
{
    let mut records: Vec<Record> = Vec::new();
    let mut i: usize = 0;
    while i < items.len()
        invariant
            i <= items.len(),
            records@ == spec_records(items@.take(i as int)),
        decreases items.len() - i,
    {
        let tile = items[i].1;
        records.push(record_of(&tile));
        i += 1;
        assert(records@ =~= spec_records(items@.take(i as int)));
    }
    assert(items@.take(i as int) =~= items@);
    records
}

/// The snapshot of the store: one record for every placed tile, in the order
/// in which the store hands out its entries. That order is the store's own
/// and may differ from one run to the next.
pub fn snapshot(store: &PlacementStore) -> (records: Vec<Record>)
    ensures
        is_snapshot(records@, store@),
        store@.dom().finite(),
        records@.len() == store@.dom().len(),
{
    let items = store.entries();
    proof {
        lemma_listing_length(items@, store@);
    }
    records_of(&items)
}

/// The document that an export writes out: the snapshot of the store under
/// the name `bricks`.
pub fn export_data(store: &PlacementStore) -> (data: ExportData)
    ensures
        is_snapshot(data.bricks@, store@),
        store@.dom().finite(),
        data.bricks@.len() == store@.dom().len(),
{
    ExportData { bricks: snapshot(store) }
}

} // verus!
