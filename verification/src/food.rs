//! Food entities and the fixed attribute table of each food kind.

use crate::color::Rgb;
use crate::position::Position;
use vstd::prelude::*;

verus! {

/// The closed set of food kinds.
#[derive(Debug, Copy, Clone, PartialEq, Eq, Structural)]
pub enum FoodKind {
    Cherry,
    Mouse,
    Bomb,
}

/// Gameplay effect of a kind: how many meals eating it is worth
/// (negative for a bomb).
pub open spec fn kind_meals(kind: FoodKind) -> i16 {
    match kind {
        FoodKind::Cherry => 1,
        FoodKind::Mouse => 2,
        FoodKind::Bomb => -10i16,
    }
}

/// Display glyph of a kind: cherries, mouse, bomb.
pub open spec fn kind_symbol(kind: FoodKind) -> char {
    match kind {
        FoodKind::Cherry => '\u{1F352}',
        FoodKind::Mouse => '\u{1F401}',
        FoodKind::Bomb => '\u{1F4A3}',
    }
}

/// Display color of a kind.
pub open spec fn kind_color(kind: FoodKind) -> Rgb {
    match kind {
        FoodKind::Cherry => Rgb { r: 255, g: 0, b: 0 },
        FoodKind::Mouse => Rgb { r: 50, g: 60, b: 70 },
        FoodKind::Bomb => Rgb { r: 0, g: 0, b: 0 },
    }
}

/// A spawned entity. `meals`, `symbol` and `color` are derived from `kind`
/// at construction and never diverge from the kind table; `pos` is
/// caller-supplied.
#[derive(Debug, Copy, Clone, PartialEq, Eq, Structural)]
pub struct Food {
    pub kind: FoodKind,
    pub meals: i16,
    pub symbol: char,
    pub color: Rgb,
    pub pos: Position,
}

impl Food {
    /// Whether the derived attributes agree with the kind table.
    pub open spec fn wf(self) -> bool {
        &&& self.meals == kind_meals(self.kind)
        &&& self.symbol == kind_symbol(self.kind)
        &&& self.color == kind_color(self.kind)
    }

    /// Builds a food of the given kind at the given position, with the
    /// effect, glyph and color the kind table assigns.
    pub fn new(kind: FoodKind, pos: Position) -> (food: Food)
        ensures
            food.kind == kind,
            food.pos == pos,
            food.wf(),
    {
        let (meals, symbol, color): (i16, char, Rgb) = match kind {
            FoodKind::Cherry => (1, '\u{1F352}', Rgb { r: 255, g: 0, b: 0 }),
            FoodKind::Mouse => (2, '\u{1F401}', Rgb { r: 50, g: 60, b: 70 }),
            FoodKind::Bomb => (-10, '\u{1F4A3}', Rgb { r: 0, g: 0, b: 0 }),
        };
        Food { kind, meals, symbol, color, pos }
    }
}

} // verus!
