//! Tile kinds, colours and the operator's current selection.

use vstd::prelude::*;
use crate::geometry::Point;

verus! {

/// A colour as three channels, each from 0 to 255.
#[derive(Clone, Copy, Debug, PartialEq, Eq, Structural)]
pub struct Color {
    pub r: u8,
    pub g: u8,
    pub b: u8,
}

/// What a tile is: an ordinary brick or a wall, each with its colour.
///
/// Two kinds are equal when both the variant and the colour are equal.
#[derive(Clone, Copy, Debug, PartialEq, Eq, Structural)]
pub enum TileKind {
    Normal(Color),
    Wall(Color),
}

impl TileKind {
    /// The colour carried by either variant.
    pub open spec fn spec_color(self) -> Color {
        match self {
            TileKind::Normal(c) => c,
            TileKind::Wall(c) => c,
        }
    }

    /// The code under which the kind is exported: 0 for a brick, 1 for a wall.
    pub open spec fn spec_kind_code(self) -> u8 {
        match self {
            TileKind::Normal(_) => 0u8,
            TileKind::Wall(_) => 1u8,
        }
    }

    /// The colour of the tile.
    pub fn color(&self) -> (c: Color)
        ensures
            c == self.spec_color(),
    {
        match self {
            TileKind::Normal(color) => *color,
            TileKind::Wall(color) => *color,
        }
    }

    /// The export code of the kind.
    pub fn kind_code(&self) -> (code: u8)
        ensures
            code == self.spec_kind_code(),
    {
        match self {
            TileKind::Normal(_) => 0,
            TileKind::Wall(_) => 1,
        }
    }
}

/// An item of the palette: a brick of some colour, or the wall.
#[derive(Clone, Copy, Debug, PartialEq, Eq, Structural)]
pub enum PaletteButton {
    Brick(Color),
    Wall(Color),
}

impl PaletteButton {
    /// The kind of tile that the button stands for.
    pub open spec fn spec_tile_kind(self) -> TileKind {
        match self {
            PaletteButton::Brick(c) => TileKind::Normal(c),
            PaletteButton::Wall(c) => TileKind::Wall(c),
        }
    }

    /// The kind of tile that the button selects.
    pub fn tile_kind(&self) -> (kind: TileKind)
        ensures
            kind == self.spec_tile_kind(),
    {
        match self {
            PaletteButton::Brick(color) => TileKind::Normal(*color),
            PaletteButton::Wall(color) => TileKind::Wall(*color),
        }
    }
}

/// The colour of the brick that is selected when the editor starts.
pub open spec fn spec_default_brick_color() -> Color {
    Color { r: 52, g: 216, b: 0 }
}

/// The colour of the wall.
pub open spec fn spec_wall_color() -> Color {
    Color { r: 117, g: 117, b: 119 }
}

/// The colours of the palette's bricks, in the order of the palette.
pub open spec fn spec_brick_colors() -> Seq<Color> {
    seq![
        Color { r: 52, g: 216, b: 0 },
        Color { r: 64, g: 230, b: 255 },
        Color { r: 253, g: 240, b: 0 },
        Color { r: 250, g: 163, b: 1 },
        Color { r: 248, g: 38, b: 2 },
    ]
}

/// The buttons of the palette: one brick for each brick colour, then the wall.
pub open spec fn spec_palette() -> Seq<PaletteButton> {
    spec_brick_colors().map_values(|c: Color| PaletteButton::Brick(c)).push(
        PaletteButton::Wall(spec_wall_color()),
    )
}

/// The colour of the brick that is selected when the editor starts.
pub fn default_brick_color() -> (c: Color)
    ensures
        c == spec_default_brick_color(),
{
    Color { r: 52, g: 216, b: 0 }
}

/// The colour of the wall.
pub fn wall_color() -> (c: Color)
    ensures
        c == spec_wall_color(),
{
    Color { r: 117, g: 117, b: 119 }
}

/// The colours of the palette's bricks, in the order of the palette.
pub fn brick_colors() -> (colors: Vec<Color>)
    ensures
        colors@ == spec_brick_colors(),
{
    let colors = vec![
        Color { r: 52, g: 216, b: 0 },
        Color { r: 64, g: 230, b: 255 },
        Color { r: 253, g: 240, b: 0 },
        Color { r: 250, g: 163, b: 1 },
        Color { r: 248, g: 38, b: 2 },
    ];
    assert(colors@ =~= spec_brick_colors());
    colors
}

/// The buttons of the palette: one brick for each brick colour, then the wall.
pub fn palette() -> (buttons: Vec<PaletteButton>)
    ensures
        buttons@ == spec_palette(),
{
    let colors = brick_colors();
    let mut buttons: Vec<PaletteButton> = Vec::new();
    let mut i: usize = 0;
    while i < colors.len()
        invariant
            i <= colors.len(),
            buttons@ == colors@.take(i as int).map_values(|c: Color| PaletteButton::Brick(c)),
        decreases colors.len() - i,
    {
        buttons.push(PaletteButton::Brick(colors[i]));
        i += 1;
        assert(buttons@ =~= colors@.take(i as int).map_values(
            |c: Color| PaletteButton::Brick(c),
        ));
    }
    assert(colors@.take(i as int) =~= colors@);
    buttons.push(PaletteButton::Wall(wall_color()));
    buttons
}

/// The kind of tile that the operator has chosen.
#[derive(Clone, Copy, Debug, PartialEq, Eq, Structural)]
pub struct SelectionState {
    pub kind: TileKind,
}

impl Default for SelectionState {
    /// The selection at startup: a brick of the default colour.
    fn default() -> (s: Self)
        ensures
            s.kind == TileKind::Normal(spec_default_brick_color()),
    {
        SelectionState { kind: TileKind::Normal(default_brick_color()) }
    }
}

impl SelectionState {
    /// Takes a pressed palette button as the new selection. Returns whether
    /// the selection is now another kind than before, so that the preview
    /// tile has to be restyled.
    pub fn press(&mut self, button: PaletteButton) -> (changed: bool)
        ensures
            final(self).kind == button.spec_tile_kind(),
            changed == (old(self).kind != button.spec_tile_kind()),
    {
        let pressed = button.tile_kind();
        let changed = !(pressed == self.kind);
        self.kind = pressed;
        changed
    }
}

/// A tile that occupies a cell: its kind, the centre of its cell, and the
/// handle under which the rendering world knows it.
#[derive(Clone, Copy, Debug, PartialEq, Eq, Structural)]
pub struct PlacedTile {
    pub kind: TileKind,
    pub position: Point,
    pub handle: u64,
}

} // verus!
