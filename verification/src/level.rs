//! The level: grid geometry, terrain rendering, and food spawning.

use crate::color::{gradient_color, shade, Rgb};
use crate::draw::DrawCmd;
use crate::food::{Food, FoodKind};
use crate::position::Position;
use crate::rng::random_in_range;
use vstd::prelude::*;

verus! {

/// Sampling inset of a spawn: the given offset, or 0 when none was given.
pub open spec fn spec_offset(offset: Option<u16>) -> int {
    match offset {
        Some(off) => off as int,
        None => 0,
    }
}

/// The four commands that draw cell `(x, y)` stand in `cmds` at their
/// row-major slot: a cursor move, the level's foreground color, the gradient
/// background color of row `y`, and the cell's glyph.
pub open spec fn cell_drawn_at(cmds: Seq<DrawCmd>, level: Level, x: int, y: int) -> bool {
    let base = 1 + 4 * (y * level.spec_total_width() + x);
    &&& cmds[base] == (DrawCmd::MoveTo { x: x as u16, y: y as u16 })
    &&& cmds[base + 1] == (DrawCmd::SetForeground { color: level.fg_color })
    &&& cmds[base + 2] == (DrawCmd::SetBackground { color: level.bg_color_range@[y] })
    &&& cmds[base + 3] == (DrawCmd::Print { glyph: level.cell_glyph(x, y) })
}

/// Extending the command buffer beyond the slot of the cell now being drawn
/// leaves every earlier cell's four commands in place.
proof fn lemma_cell_stays_drawn(
    before: Seq<DrawCmd>,
    after: Seq<DrawCmd>,
    level: Level,
    xx: int,
    yy: int,
    x: int,
    y: int,
)
    requires
        cell_drawn_at(before, level, xx, yy),
        0 <= xx < level.spec_total_width(),
        0 <= yy,
        0 <= x,
        yy < y || (yy == y && xx < x),
        before.len() == 1 + 4 * (y * level.spec_total_width() + x),
        after.len() >= before.len(),
        forall|i: int| 0 <= i < before.len() ==> after[i] == before[i],
    ensures
        cell_drawn_at(after, level, xx, yy),
{
    let tw = level.spec_total_width();
    assert(yy * tw + xx < y * tw + x) by (nonlinear_arith)
        requires
            0 <= xx < tw,
            0 <= yy,
            0 <= x,
            yy < y || (yy == y && xx < x),
    ;
    let base = 1 + 4 * (yy * tw + xx);
    assert(after[base] == before[base]);
    assert(after[base + 1] == before[base + 1]);
    assert(after[base + 2] == before[base + 2]);
    assert(after[base + 3] == before[base + 3]);
}

/// A game level: the playable grid's geometry and styling, the computed
/// background gradient, and the active food collection.
///
/// `width` and `height` are the interior dimensions and are always odd;
/// the drawn grid is `total_width()` by `total_height()` cells, interior
/// plus a border margin of `border_width` columns and `border_height` rows
/// on each side.
#[derive(Debug)]
pub struct Level {
    pub width: u16,
    pub height: u16,
    pub background: char,
    pub border: char,
    pub border_width: u16,
    pub border_height: u16,
    pub fg_color: Rgb,
    pub bg_color: Rgb,
    pub bg_color_range: Vec<Rgb>,
    pub food_vec: Vec<Food>,
    pub max_food: usize,
}

impl Level {
    /// Number of columns of the drawn grid, border included.
    pub open spec fn spec_total_width(self) -> int {
        self.width + 2 * self.border_width
    }

    /// Number of rows of the drawn grid, border included.
    pub open spec fn spec_total_height(self) -> int {
        self.height + 2 * self.border_height
    }

    /// The grid dimensions, border included, fit the coordinate type.
    pub open spec fn dims_fit(self) -> bool {
        &&& self.spec_total_width() <= u16::MAX
        &&& self.spec_total_height() <= u16::MAX
    }

    /// Whether cell `(x, y)` of the drawn grid lies on the border margin
    /// rather than in the interior.
    pub open spec fn is_border_cell(self, x: int, y: int) -> bool {
        ||| x < self.border_width
        ||| x > self.width + self.border_width - 1
        ||| y < self.border_height
        ||| y > self.height + self.border_height - 1
    }

    /// The glyph drawn at cell `(x, y)`: the border glyph on the border
    /// margin, the background glyph in the interior.
    pub open spec fn cell_glyph(self, x: int, y: int) -> char {
        if self.is_border_cell(x, y) {
            self.border
        } else {
            self.background
        }
    }

    /// All fields of `self` and `other` agree except the gradient table.
    pub open spec fn eq_except_gradient(self, other: Level) -> bool {
        &&& self.width == other.width
        &&& self.height == other.height
        &&& self.background == other.background
        &&& self.border == other.border
        &&& self.border_width == other.border_width
        &&& self.border_height == other.border_height
        &&& self.fg_color == other.fg_color
        &&& self.bg_color == other.bg_color
        &&& self.food_vec@ == other.food_vec@
        &&& self.max_food == other.max_food
    }

    /// Builds a level with the requested interior dimensions, each bumped to
    /// the next odd value when even, and every styling field at its fixed
    /// default: a 2-column, 1-row border drawn with a solid block glyph over
    /// a space background, an empty gradient table and an empty food
    /// collection.
    pub fn new(width: u16, height: u16) -> (level: Level)
        ensures
            level.width == crate::normalize_dim(width),
            level.height == crate::normalize_dim(height),
            level.width % 2 == 1,
            level.height % 2 == 1,
            level.background == ' ',
            level.border == '\u{2588}',
            level.border_width == 2,
            level.border_height == 1,
            level.fg_color == (Rgb { r: 10, g: 100, b: 120 }),
            level.bg_color == (Rgb { r: 230, g: 40, b: 130 }),
            level.bg_color_range@ =~= Seq::<Rgb>::empty(),
            level.food_vec@ =~= Seq::<Food>::empty(),
            level.max_food == 4,
    {
        let width: u16 = if width % 2 == 0 {
            width + 1
        } else {
            width
        };
        let height: u16 = if height % 2 == 0 {
            height + 1
        } else {
            height
        };
        Level {
            width,
            height,
            background: ' ',
            border: '\u{2588}',
            border_width: 2,
            border_height: 1,
            fg_color: Rgb { r: 10, g: 100, b: 120 },
            bg_color: Rgb { r: 230, g: 40, b: 130 },
            bg_color_range: Vec::new(),
            food_vec: Vec::new(),
            max_food: 4,
        }
    }

    /// Rows of the drawn grid: the interior height plus the border rows
    /// above and below.
    pub fn total_height(&self) -> (h: u16)
        requires
            self.spec_total_height() <= u16::MAX,
        ensures
            h == self.spec_total_height(),
    {
        self.height + self.border_height * 2
    }

    /// Columns of the drawn grid: the interior width plus the border columns
    /// left and right.
    pub fn total_width(&self) -> (w: u16)
        requires
            self.spec_total_width() <= u16::MAX,
        ensures
            w == self.spec_total_width(),
    {
        self.width + self.border_width * 2
    }

    /// Renders the static terrain as one ordered command buffer: a clear of
    /// the whole screen, then every cell of the drawn grid in row-major
    /// order, each cell as a cursor move, the level's foreground color, the
    /// row's gradient background color, and the cell's glyph. One gradient
    /// entry per drawn row is appended to the gradient table before drawing;
    /// the table is extended, not rebuilt, so the call is meant to run once
    /// per level. The caller commits the buffer to the canvas as one frame.
    pub fn generate(&mut self) -> (cmds: Vec<DrawCmd>)
        requires
            old(self).dims_fit(),
            old(self).width + old(self).border_width >= 1,
            old(self).height + old(self).border_height >= 1,
        ensures
            final(self).eq_except_gradient(*old(self)),
            final(self).bg_color_range@ =~= old(self).bg_color_range@ + Seq::new(
                old(self).spec_total_height() as nat,
                |i: int| gradient_color(old(self).bg_color, i),
            ),
            cmds@.len() == 1 + 4 * (old(self).spec_total_height()
                * old(self).spec_total_width()),
            cmds@[0] == DrawCmd::ClearAll,
            forall|x: int, y: int|
                0 <= x < old(self).spec_total_width() && 0 <= y
                    < old(self).spec_total_height() ==> #[trigger] cell_drawn_at(
                    cmds@,
                    *final(self),
                    x,
                    y,
                ),
    {
        let total_w = self.total_width();
        let total_h = self.total_height();
        let ghost prior: Seq<Rgb> = self.bg_color_range@;
        let base_color = self.bg_color;

        let mut i: u16 = 0;
        while i < total_h
            invariant
                i <= total_h,
                total_h == old(self).spec_total_height(),
                base_color == old(self).bg_color,
                self.eq_except_gradient(*old(self)),
                prior == old(self).bg_color_range@,
                self.bg_color_range@ =~= prior + Seq::new(
                    i as nat,
                    |k: int| gradient_color(base_color, k),
                ),
            decreases total_h - i,
        {
            let entry = shade(base_color, i);
            self.bg_color_range.push(entry);
            proof {
                assert(self.bg_color_range@ =~= prior + Seq::new(
                    (i + 1) as nat,
                    |k: int| gradient_color(base_color, k),
                ));
            }
            i = i + 1;
        }

        let mut cmds: Vec<DrawCmd> = Vec::new();
        cmds.push(DrawCmd::ClearAll);
        proof {
            assert((0 as int) * (total_w as int) == 0) by (nonlinear_arith);
        }

        let mut y: u16 = 0;
        while y < total_h
            invariant
                y <= total_h,
                total_h == self.spec_total_height(),
                total_w == self.spec_total_width(),
                self.dims_fit(),
                self.width + self.border_width >= 1,
                self.height + self.border_height >= 1,
                self.bg_color_range@.len() >= total_h,
                cmds@.len() == 1 + 4 * ((y as int) * (total_w as int)),
                cmds@[0] == DrawCmd::ClearAll,
                forall|xx: int, yy: int|
                    0 <= xx < total_w && 0 <= yy < y ==> #[trigger] cell_drawn_at(
                        cmds@,
                        *self,
                        xx,
                        yy,
                    ),
            decreases total_h - y,
        {
            let mut x: u16 = 0;
            while x < total_w
                invariant
                    x <= total_w,
                    y < total_h,
                    total_h == self.spec_total_height(),
                    total_w == self.spec_total_width(),
                    self.dims_fit(),
                    self.bg_color_range@.len() >= total_h,
                    cmds@.len() == 1 + 4 * ((y as int) * (total_w as int) + x as int),
                    cmds@[0] == DrawCmd::ClearAll,
                    forall|xx: int, yy: int|
                        0 <= xx < total_w && 0 <= yy < y ==> #[trigger] cell_drawn_at(
                            cmds@,
                            *self,
                            xx,
                            yy,
                        ),
                    forall|xx: int|
                        0 <= xx < x ==> #[trigger] cell_drawn_at(cmds@, *self, xx, y as int),
                decreases total_w - x,
            {
                let ghost before: Seq<DrawCmd> = cmds@;
                cmds.push(DrawCmd::MoveTo { x, y });
                cmds.push(DrawCmd::SetForeground { color: self.fg_color });
                let row_color = self.bg_color_range[y as usize];
                cmds.push(DrawCmd::SetBackground { color: row_color });
                let on_border = x < self.border_width || x > self.width + self.border_width - 1
                    || y < self.border_height || y > self.height + self.border_height - 1;
                let glyph = if on_border {
                    self.border
                } else {
                    self.background
                };
                cmds.push(DrawCmd::Print { glyph });
                proof {
                    assert forall|xx: int, yy: int|
                        0 <= xx < total_w && 0 <= yy < y implies #[trigger] cell_drawn_at(
                        cmds@,
                        *self,
                        xx,
                        yy,
                    ) by {
                        lemma_cell_stays_drawn(before, cmds@, *self, xx, yy, x as int, y as int);
                    }
                    assert forall|xx: int| 0 <= xx < x implies #[trigger] cell_drawn_at(
                        cmds@,
                        *self,
                        xx,
                        y as int,
                    ) by {
                        lemma_cell_stays_drawn(
                            before,
                            cmds@,
                            *self,
                            xx,
                            y as int,
                            x as int,
                            y as int,
                        );
                    }
                    assert(cell_drawn_at(cmds@, *self, x as int, y as int));
                }
                x = x + 1;
            }
            proof {
                assert((y as int + 1) * (total_w as int) == (y as int) * (total_w as int)
                    + total_w as int) by (nonlinear_arith);
            }
            y = y + 1;
        }
        cmds
    }

    /// Samples a position uniformly from the interior, inset on every side by
    /// `offset` cells (0 when `None`): `x` in
    /// `[border_width + offset, width + border_width - offset)` and `y` in
    /// `[border_height + offset, height + border_height - offset)`, both
    /// half-open. The inset ranges must be non-empty.
    pub fn rng_pos(&self, offset: Option<u16>) -> (pos: Position)
        requires
            self.dims_fit(),
            2 * spec_offset(offset) < self.width,
            2 * spec_offset(offset) < self.height,
        ensures
            self.border_width + spec_offset(offset) <= pos.x
                < self.width + self.border_width - spec_offset(offset),
            self.border_height + spec_offset(offset) <= pos.y
                < self.height + self.border_height - spec_offset(offset),
    {
        let off: u16 = match offset {
            Some(off) => off,
            None => 0,
        };
        let x = random_in_range(self.border_width + off, self.width + self.border_width - off);
        let y = random_in_range(self.border_height + off, self.height + self.border_height - off);
        Position { x, y }
    }

    /// Spawns one food: a uniformly random kind among the three variants,
    /// its attributes taken from the kind table, at a position sampled as by
    /// `rng_pos` with no inset. The level itself is left unchanged; inserting
    /// the food and enforcing `max_food` is the caller's business.
    pub fn rng_food(&mut self) -> (food: Food)
        requires
            old(self).dims_fit(),
            old(self).width > 0,
            old(self).height > 0,
        ensures
            *final(self) == *old(self),
            food.wf(),
            old(self).border_width <= food.pos.x < old(self).width + old(self).border_width,
            old(self).border_height <= food.pos.y < old(self).height + old(self).border_height,
    {
        let pos = self.rng_pos(None);
        let food = match random_in_range(0, 3) {
            0 => Food::new(FoodKind::Cherry, pos),
            1 => Food::new(FoodKind::Mouse, pos),
            _ => Food::new(FoodKind::Bomb, pos),
        };
        food
    }
}

/// With distinct border and background glyphs, a drawn cell carries the
/// border glyph exactly on the border margin and the background glyph
/// exactly in the interior.
pub proof fn lemma_cell_glyph_border_iff(level: Level, x: int, y: int)
    requires
        level.border != level.background,
    ensures
        level.cell_glyph(x, y) == level.border <==> level.is_border_cell(x, y),
        level.cell_glyph(x, y) == level.background <==> !level.is_border_cell(x, y),
{
}

} // verus!
