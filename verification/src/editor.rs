//! The editor: the state of one editing session and the pass that one frame
//! makes over it.
//!
//! A frame tracks the cursor, then takes the palette buttons that were
//! pressed, then lets the pointer act on the cell under the preview tile,
//! then exports if asked to. The later steps see what the earlier steps of
//! the same frame have set.

use vstd::prelude::*;
use crate::controller::{
    place_tick, plan, spec_decision, spec_outcome, spec_step, Decision, PointerState, Tick,
    TickOutcome,
};
use crate::export::{export_data, is_snapshot, ExportData};
use crate::geometry::{FieldGeometry, Point};
use crate::history::{keyed_by_position, lemma_step_keeps_keys, on_cell_centers};
use crate::key::{is_key_safe, spec_key_safe, CellKey};
use crate::store::{no_entries, PlacementStore};
use crate::tile::{spec_default_brick_color, PaletteButton, SelectionState, TileKind};

verus! {

/// The floating tile that follows the cursor: it shows the selected kind on
/// the centre of the cell under the cursor.
#[derive(Clone, Copy, Debug, PartialEq, Eq, Structural)]
pub struct PreviewTile {
    pub kind: TileKind,
    pub position: Point,
}

/// The state of an editing session.
pub struct Editor {
    pub geometry: FieldGeometry,
    pub selection: SelectionState,
    pub cursor: Point,
    pub preview: PreviewTile,
    pub store: PlacementStore,
}

/// What one frame brings in: the cursor in field coordinates, if the
/// pointer is in the window; the palette buttons pressed since the last
/// frame, in order; the pointer's buttons; and whether the export button
/// went down in this frame.
pub struct FrameInput {
    pub cursor: Option<Point>,
    pub pressed: Vec<PaletteButton>,
    pub pointer: PointerState,
    pub export: bool,
}

/// What one frame hands back: the preview tile as it now is, whether its
/// kind changed, what the pointer did to the store, and the document to
/// write out if an export was asked for.
pub struct FrameOutput {
    pub preview: PreviewTile,
    pub restyled: bool,
    pub outcome: TickOutcome,
    pub export: Option<ExportData>,
}

/// The cursor after a frame: the new one, or the old one where the frame
/// brought none.
pub open spec fn spec_cursor_after(cursor: Point, seen: Option<Point>) -> Point {
    match seen {
        Some(p) => p,
        None => cursor,
    }
}

/// The position of the preview tile after a frame: the centre of the cell
/// under the new cursor, or the old position where the frame brought no
/// cursor.
pub open spec fn spec_preview_after(g: FieldGeometry, position: Point, seen: Option<Point>) -> Point {
    match seen {
        Some(p) => g.spec_snap(p),
        None => position,
    }
}

/// The selected kind after the buttons were pressed: that of the last
/// button, or the old one where none was pressed.
pub open spec fn spec_selected_after(kind: TileKind, pressed: Seq<PaletteButton>) -> TileKind {
    if pressed.len() == 0 {
        kind
    } else {
        pressed.last().spec_tile_kind()
    }
}

impl Editor {
    /// The state is well formed when the field is well formed and key-safe,
    /// the preview tile shows the selection on the cell under the cursor,
    /// and every placed tile sits on a cell centre under the key of that
    /// centre.
    pub open spec fn wf(&self) -> bool {
        &&& self.geometry.wf()
        &&& spec_key_safe(self.geometry)
        &&& self.preview.kind == self.selection.kind
        &&& self.preview.position == self.geometry.spec_snap(self.cursor)
        &&& keyed_by_position(self.store@)
        &&& on_cell_centers(self.store@, self.geometry)
    }

    /// The tick that the frame's pointer makes, after the cursor and the
    /// selection of the same frame have been taken.
    pub open spec fn spec_frame_tick(&self, input: FrameInput, handle: u64) -> Tick {
        Tick {
            selected: spec_selected_after(self.selection.kind, input.pressed@),
            center: spec_preview_after(self.geometry, self.preview.position, input.cursor),
            pointer: input.pointer,
            handle,
        }
    }

    /// A session on the given field, with the default selection, the cursor
    /// on the origin and no tile placed; `None` where the field is not
    /// key-safe.
    pub fn new(geometry: FieldGeometry) -> (r: Option<Editor>)
        requires
            geometry.wf(),
        ensures
            r.is_some() <==> spec_key_safe(geometry),
            r.is_some() ==> {
                let editor = r.unwrap();
                &&& editor.wf()
                &&& editor.geometry == geometry
                &&& editor.selection.kind == TileKind::Normal(spec_default_brick_color())
                &&& editor.cursor == (Point { x: 0, y: 0 })
                &&& editor.store@ == no_entries()
            },
    {
        if !is_key_safe(&geometry) {
            return None;
        }
        let selection = SelectionState::default();
        let cursor = Point { x: 0, y: 0 };
        let preview = PreviewTile { kind: selection.kind, position: geometry.snap(cursor) };
        Some(Editor { geometry, selection, cursor, preview, store: PlacementStore::new() })
    }

    /// Takes the cursor of this frame and moves the preview tile to the
    /// centre of the cell under it. Without a cursor the preview stays.
    pub fn track_cursor(&mut self, seen: Option<Point>)
        requires
            old(self).geometry.wf(),
        ensures
            old(self).wf() ==> final(self).wf(),
            final(self).cursor == spec_cursor_after(old(self).cursor, seen),
            final(self).preview.position == spec_preview_after(
                old(self).geometry,
                old(self).preview.position,
                seen,
            ),
            final(self).preview.kind == old(self).preview.kind,
            final(self).geometry == old(self).geometry,
            final(self).selection == old(self).selection,
            final(self).store@ == old(self).store@,
    {
        if let Some(p) = seen {
            self.cursor = p;
            self.preview.position = self.geometry.snap(p);
        }
    }

    /// Takes the pressed palette buttons, in order, as the selection.
    /// Returns whether the selected kind is another than before.
    pub fn press_all(&mut self, pressed: &Vec<PaletteButton>) -> (restyled: bool)
        ensures
            old(self).wf() ==> final(self).wf(),
            final(self).selection.kind == spec_selected_after(old(self).selection.kind, pressed@),
            final(self).preview.kind == final(self).selection.kind,
            restyled == (final(self).selection.kind != old(self).selection.kind),
            final(self).geometry == old(self).geometry,
            final(self).cursor == old(self).cursor,
            final(self).preview.position == old(self).preview.position,
            final(self).store@ == old(self).store@,
    {
        let before = self.selection.kind;
        let mut i: usize = 0;
        while i < pressed.len()
            invariant
                i <= pressed.len(),
                self.selection.kind == spec_selected_after(before, pressed@.take(i as int)),
                self.geometry == old(self).geometry,
                self.cursor == old(self).cursor,
                self.preview.position == old(self).preview.position,
                self.store@ == old(self).store@,
            decreases pressed.len() - i,
        {
            let _ = self.selection.press(pressed[i]);
            i += 1;
            assert(pressed@.take(i as int).last() == pressed@[i - 1]);
        }
        assert(pressed@.take(i as int) =~= pressed@);
        self.preview.kind = self.selection.kind;
        !(self.selection.kind == before)
    }

    /// Lets the pointer act on the cell under the preview tile.
    pub fn place(&mut self, pointer: PointerState, handle: u64) -> (outcome: TickOutcome)
        ensures
            old(self).wf() ==> final(self).wf(),
            final(self).store@ == spec_step(
                old(self).store@,
                (Tick {
                    selected: old(self).selection.kind,
                    center: old(self).preview.position,
                    pointer,
                    handle,
                }),
            ),
            outcome == spec_outcome(
                old(self).store@,
                (Tick {
                    selected: old(self).selection.kind,
                    center: old(self).preview.position,
                    pointer,
                    handle,
                }),
            ),
            final(self).geometry == old(self).geometry,
            final(self).selection == old(self).selection,
            final(self).cursor == old(self).cursor,
            final(self).preview == old(self).preview,
    {
        let selection = self.selection;
        let center = self.preview.position;
        let ghost tick = Tick { selected: selection.kind, center, pointer, handle };
        let ghost before = self.store@;
        let outcome = place_tick(&mut self.store, &selection, center, pointer, handle);
        proof {
            if old(self).wf() {
                self.geometry.lemma_snap_idempotent(self.cursor);
                lemma_step_keeps_keys(before, tick);
                assert forall|k: CellKey| #[trigger]
                    self.store@.contains_key(k) implies self.geometry.is_center(
                    self.store@[k].position,
                ) by {
                    if k != tick.key() {
                        assert(before.contains_key(k));
                    }
                }
            }
        }
        outcome
    }

    /// The decision that `frame` would take on this input, with the state
    /// left as it is. It tells whether the frame needs a handle for a new
    /// tile.
    pub fn plan_frame(&self, input: &FrameInput) -> (decision: Decision)
        requires
            self.geometry.wf(),
        ensures
            decision == spec_decision(self.store@, self.spec_frame_tick(*input, 0)),
            forall|handle: u64|
                decision == spec_decision(
                    self.store@,
                    #[trigger] self.spec_frame_tick(*input, handle),
                ),
    {
        let center = match input.cursor {
            Some(p) => self.geometry.snap(p),
            None => self.preview.position,
        };
        let n = input.pressed.len();
        let kind = if n == 0 {
            self.selection.kind
        } else {
            input.pressed[n - 1].tile_kind()
        };
        plan(&self.store, &SelectionState { kind }, center, input.pointer)
    }

    /// One frame: the cursor, then the palette, then the pointer on the
    /// field, then the export.
    pub fn frame(&mut self, input: &FrameInput, handle: u64) -> (out: FrameOutput)
        requires
            old(self).geometry.wf(),
        ensures
            old(self).wf() ==> final(self).wf(),
            final(self).geometry == old(self).geometry,
            final(self).cursor == spec_cursor_after(old(self).cursor, input.cursor),
            final(self).selection.kind == spec_selected_after(
                old(self).selection.kind,
                input.pressed@,
            ),
            final(self).store@ == spec_step(
                old(self).store@,
                old(self).spec_frame_tick(*input, handle),
            ),
            final(self).preview == (PreviewTile {
                kind: final(self).selection.kind,
                position: spec_preview_after(
                    old(self).geometry,
                    old(self).preview.position,
                    input.cursor,
                ),
            }),
            out.preview == final(self).preview,
            out.restyled == (final(self).selection.kind != old(self).selection.kind),
            out.outcome == spec_outcome(
                old(self).store@,
                old(self).spec_frame_tick(*input, handle),
            ),
            out.export.is_some() == input.export,
            out.export.is_some() ==> is_snapshot(out.export.unwrap().bricks@, final(self).store@),
    {
        self.track_cursor(input.cursor);
        let restyled = self.press_all(&input.pressed);
        let outcome = self.place(input.pointer, handle);
        let export = if input.export {
            Some(export_data(&self.store))
        } else {
            None
        };
        FrameOutput { preview: self.preview, restyled, outcome, export }
    }
}

} // verus!
