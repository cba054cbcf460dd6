//! Rendering: which marks a menu puts on the surface, and when. The menu
//! lays a frame out as a list of drawing operations; whoever owns the
//! surface carries them out and reports back how that went.

use vstd::prelude::*;
use crate::glyph::{
    bool_glyph, bool_glyph_text, byte_len, int_glyph, int_glyph_buffer, lemma_bool_glyph_len,
    lemma_int_glyph_fits,
};
use crate::menu::{EntryType, Menu};
use crate::model::{Entry, EntryValue, MenuState};

verus! {

/// The width of one character cell of the font, in pixels.
pub const FONT_WIDTH: u32 = 6;

/// The height of one character cell of the font, in pixels.
pub const FONT_HEIGHT: u32 = 8;

/// The space between the title and its frame, in pixels.
pub const TITLE_INSET: u32 = 2;

/// The width of the line that the title's frame is stroked with, in pixels.
pub const STROKE_WIDTH: u32 = 1;

/// The height of the bar under the highlighted label, in pixels.
pub const UNDERLINE_HEIGHT: u32 = 1;

/// `FONT_WIDTH` for arithmetic on text lengths.
const CELL: usize = 6;

/// The largest pixel coordinate.
const LAST_PIXEL: u32 = 0x7fff_ffff;

/// One drawing operation, for a surface that can clear itself, stroke and
/// fill rectangles, and set text in a fixed-width font.
#[derive(Clone, Debug, PartialEq)]
pub enum DrawOp<C> {
    /// Fill the whole surface with one colour.
    Clear { color: C },
    /// Stroke the outline of a rectangle with a line `stroke` pixels wide.
    Stroke { x: i32, y: i32, width: u32, height: u32, stroke: u32, color: C },
    /// Fill a rectangle.
    Fill { x: i32, y: i32, width: u32, height: u32, color: C },
    /// Set a text with its top left corner at (`x`, `y`).
    Text { text: String, x: i32, y: i32, color: C },
}

/// A drawing operation as a mathematical value.
pub ghost enum Mark<C> {
    Clear { color: C },
    Stroke { x: int, y: int, width: int, height: int, stroke: int, color: C },
    Fill { x: int, y: int, width: int, height: int, color: C },
    Text { text: Seq<char>, x: int, y: int, color: C },
}

impl<C> View for DrawOp<C> {
    type V = Mark<C>;

    open spec fn view(&self) -> Mark<C> {
        match *self {
            DrawOp::Clear { color } => Mark::Clear { color },
            DrawOp::Stroke { x, y, width, height, stroke, color } => Mark::Stroke {
                x: x as int,
                y: y as int,
                width: width as int,
                height: height as int,
                stroke: stroke as int,
                color,
            },
            DrawOp::Fill { x, y, width, height, color } => Mark::Fill {
                x: x as int,
                y: y as int,
                width: width as int,
                height: height as int,
                color,
            },
            DrawOp::Text { text, x, y, color } => Mark::Text {
                text: text@,
                x: x as int,
                y: y as int,
                color,
            },
        }
    }
}

/// The marks that a list of operations makes, in order.
pub open spec fn marks<C>(ops: Seq<DrawOp<C>>) -> Seq<Mark<C>> {
    Seq::new(ops.len(), |i: int| ops[i]@)
}

impl<C, F> MenuState<C, F> {
    /// A text in the menu's text colour.
    pub open spec fn text_mark(self, text: Seq<char>, x: int, y: int) -> Mark<C> {
        Mark::Text { text, x, y, color: self.options.text }
    }

    /// The frame around the title, stroked one pixel wide: inside the
    /// border on the left, the top and the right, and as high as the font
    /// plus the inset above and below.
    pub open spec fn title_frame(self) -> Mark<C> {
        Mark::Stroke {
            x: self.options.border as int,
            y: self.options.border as int,
            width: self.size.width - 2 * self.options.border,
            height: FONT_HEIGHT + 2 * TITLE_INSET,
            stroke: STROKE_WIDTH as int,
            color: self.options.highlight,
        }
    }

    /// The title, centred on the middle of the surface.
    pub open spec fn title_mark(self) -> Mark<C> {
        self.text_mark(
            self.title,
            self.size.width / 2 - (byte_len(self.title) * FONT_WIDTH) / 2,
            self.options.border + TITLE_INSET,
        )
    }

    /// The top of the first row.
    pub open spec fn rows_top(self) -> int {
        self.options.border + TITLE_INSET + FONT_HEIGHT / 2 + self.options.spacing
    }

    /// The top of row `i`.
    pub open spec fn row_y(self, i: int) -> int {
        self.rows_top() + i * self.options.spacing
    }

    /// A glyph in row `i`, ending at the right border.
    pub open spec fn glyph_mark(self, glyph: Seq<char>, i: int) -> Mark<C> {
        self.text_mark(
            glyph,
            self.size.width - self.options.border - byte_len(glyph) * FONT_WIDTH,
            self.row_y(i),
        )
    }

    /// Row `i`: the label at the left border, then the glyph of a toggle or
    /// of an integer at the right border. Other entries have no glyph.
    pub open spec fn row(self, i: int) -> Seq<Mark<C>> {
        let label = self.text_mark(self.entries[i].label, self.options.border as int, self.row_y(i));
        match self.entries[i].value {
            EntryValue::Toggle(on) => seq![label, self.glyph_mark(bool_glyph(on), i)],
            EntryValue::BoundedInt { value, min, max } => seq![
                label,
                self.glyph_mark(int_glyph(value as int), i),
            ],
            _ => seq![label],
        }
    }

    /// The first `n` rows, top to bottom.
    pub open spec fn rows(self, n: int) -> Seq<Mark<C>>
        decreases n,
    {
        if n <= 0 {
            Seq::empty()
        } else {
            self.rows(n - 1) + self.row(n - 1)
        }
    }

    /// The bar under the highlighted label, as wide as the label.
    pub open spec fn underline(self) -> Mark<C> {
        Mark::Fill {
            x: self.options.border as int,
            y: self.rows_top() + FONT_HEIGHT + self.highlighted_index * self.options.spacing,
            width: byte_len(self.entries[self.highlighted_index as int].label) * FONT_WIDTH,
            height: UNDERLINE_HEIGHT as int,
            color: self.options.text,
        }
    }

    /// A full render of this menu: the background, the title in its frame,
    /// every row, and the underline.
    pub open spec fn scene(self) -> Seq<Mark<C>> {
        seq![Mark::Clear { color: self.options.background }, self.title_frame(), self.title_mark()]
            + self.rows(self.entries.len() as int) + seq![self.underline()]
    }

    /// What a draw has to put on the surface. An active submenu draws in
    /// place of this menu. A menu that draws itself renders in full when it
    /// is dirty and does nothing when it is not.
    pub open spec fn draw(self) -> Seq<Mark<C>>
        decreases self,
    {
        match self.active_submenu_index {
            Some(i) => {
                if i < self.entries.len() && self.entries[i as int].value is SubMenu {
                    self.entries[i as int].value->SubMenu_0.draw()
                } else {
                    Seq::empty()
                }
            },
            None => {
                if self.dirty {
                    self.scene()
                } else {
                    Seq::empty()
                }
            },
        }
    }

    /// The menu after a draw that succeeded: the menu that drew is clean.
    pub open spec fn drawn(self) -> MenuState<C, F>
        decreases self,
    {
        match self.active_submenu_index {
            Some(i) => {
                if i < self.entries.len() && self.entries[i as int].value is SubMenu {
                    MenuState {
                        entries: self.entries.update(
                            i as int,
                            Entry {
                                label: self.entries[i as int].label,
                                value: EntryValue::SubMenu(
                                    self.entries[i as int].value->SubMenu_0.drawn(),
                                ),
                            },
                        ),
                        ..self
                    }
                } else {
                    self
                }
            },
            None => MenuState { dirty: false, ..self },
        }
    }

    /// Whether every coordinate of every render of this menu, wherever its
    /// cursor stands, is a pixel position that the operations can hold: the
    /// surface is no wider than `i32::MAX`, the two borders fit into it, the
    /// title's width fits an `i32`, the underline of the last row lies at no
    /// more than `i32::MAX`, and every label's width fits a `u32`.
    pub open spec fn layout_fits(self) -> bool {
        &&& self.size.width <= i32::MAX
        &&& 2 * self.options.border <= self.size.width
        &&& byte_len(self.title) * FONT_WIDTH <= i32::MAX
        &&& self.options.border + TITLE_INSET + FONT_HEIGHT / 2 + FONT_HEIGHT
            + self.options.spacing * self.entries.len() <= i32::MAX
        &&& forall|i: int|
            0 <= i < self.entries.len() ==> byte_len(#[trigger] self.entries[i].label) * FONT_WIDTH
                <= u32::MAX
    }
}

impl<'a, C: Copy, F> Menu<'a, C, F> {
    /// The operation that sets `text` at (`x`, `y`) in the menu's text
    /// colour.
    pub fn draw_text(&self, text: &str, x: i32, y: i32) -> (op: DrawOp<C>)
        ensures
            op@ == self@.text_mark(text@, x as int, y as int),
    {
        DrawOp::Text { text: text.to_owned(), x, y, color: self.options.text }
    }

    /// The operations of this tick's draw, in the order in which the
    /// surface is to carry them out: none while the menu that draws is
    /// clean, its full render when it is dirty. Report the outcome to
    /// `finish_draw`.
    pub fn draw(&self) -> (ops: Vec<DrawOp<C>>)
        requires
            self@.wf(),
            self@.focused().layout_fits(),
        ensures
            marks(ops@) == self@.draw(),
        decreases *self,
    {
        if let Some(active) = self.submenu {
            match &self.structure[active].t {
                EntryType::Menu(sub) => {
                    return sub.draw();
                },
                _ => {
                    return Vec::new();
                },
            }
        }
        let mut ops: Vec<DrawOp<C>> = Vec::new();
        if !self.redraw {
            assert(marks(ops@) =~= self@.draw());
            return ops;
        }
        let border: i32 = self.options.border as i32;
        let spacing: u32 = self.options.spacing;
        let width: u32 = self.size.width;
        let count: usize = self.structure.len();

        ops.push(DrawOp::Clear { color: self.options.background });
        ops.push(
            DrawOp::Stroke {
                x: border,
                y: border,
                width: width - self.options.border * 2,
                height: FONT_HEIGHT + TITLE_INSET * 2,
                stroke: STROKE_WIDTH,
                color: self.options.highlight,
            },
        );
        let title_x: i32 = (width / 2) as i32 - (text_cells(self.title) * CELL / 2) as i32;
        ops.push(self.draw_text(self.title, title_x, border + TITLE_INSET as i32));

        assert(spacing * 1 <= spacing * count) by (nonlinear_arith)
            requires
                1 <= count,
                0 <= spacing,
        ;
        let rows_top: i32 = border + (TITLE_INSET + FONT_HEIGHT / 2) as i32 + spacing as i32;
        let ghost head = seq![
            Mark::Clear { color: self@.options.background },
            self@.title_frame(),
            self@.title_mark(),
        ];
        assert(marks(ops@) =~= head + self@.rows(0));
        let mut i: usize = 0;
        while i < count
            invariant
                self@.wf(),
                self@.layout_fits(),
                self.submenu is None,
                count == self.structure@.len(),
                i <= count,
                border == self.options.border,
                spacing == self.options.spacing,
                width == self.size.width,
                rows_top == self@.rows_top(),
                marks(ops@) == head + self@.rows(i as int),
            decreases count - i,
        {
            assert(i * spacing + spacing <= spacing * count) by (nonlinear_arith)
                requires
                    0 <= i < count,
                    0 <= spacing,
            ;
            let y: i32 = rows_top + (i as u64 * spacing as u64) as i32;
            let ghost before = marks(ops@);
            ops.push(self.draw_text(self.structure[i].l, border, y));
            match &self.structure[i].t {
                EntryType::Bool(on) => {
                    let glyph = bool_glyph_text(*on);
                    proof {
                        lemma_bool_glyph_len(*on);
                    }
                    let x: i32 = (width - self.options.border) as i32 - (text_cells(glyph)
                        * CELL) as i32;
                    ops.push(self.draw_text(glyph, x, y));
                },
                EntryType::I32(bounded) => {
                    let buffer = int_glyph_buffer(bounded.0);
                    let glyph = buffer.as_str();
                    proof {
                        lemma_int_glyph_fits(bounded.0);
                    }
                    let x: i32 = (width - self.options.border) as i32 - (text_cells(glyph)
                        * CELL) as i32;
                    ops.push(self.draw_text(glyph, x, y));
                },
                _ => {},
            }
            assert(marks(ops@) =~= before + self@.row(i as int));
            i += 1;
        }
        let at: usize = self.highlighted_option;
        assert(at * spacing + spacing <= spacing * count) by (nonlinear_arith)
            requires
                0 <= at < count,
                0 <= spacing,
        ;
        assert(self@.entries[at as int].label == self.structure@[at as int].l@);
        ops.push(
            DrawOp::Fill {
                x: border,
                y: rows_top + FONT_HEIGHT as i32 + (at as u64 * spacing as u64) as i32,
                width: (text_cells(self.structure[at].l) * CELL) as u32,
                height: UNDERLINE_HEIGHT,
                color: self.options.text,
            },
        );
        assert(marks(ops@) =~= self@.scene());
        ops
    }

    /// Whether the menu that would draw can be laid out in pixel
    /// coordinates. `draw` asks for this.
    pub fn layout_fits(&self) -> (fits: bool)
        requires
            self@.wf(),
        ensures
            fits == self@.focused().layout_fits(),
        decreases *self,
    {
        if let Some(active) = self.submenu {
            match &self.structure[active].t {
                EntryType::Menu(sub) => {
                    return sub.layout_fits();
                },
                _ => {
                    return false;
                },
            }
        }
        let width = self.size.width;
        let border = self.options.border;
        let spacing = self.options.spacing;
        let count = self.structure.len();
        if width > LAST_PIXEL || border > width / 2 {
            return false;
        }
        if text_cells(self.title) > LAST_PIXEL as usize / CELL {
            return false;
        }
        assert(spacing * count <= 0xffff_ffff * 0xffff_ffff_ffff_ffff) by (nonlinear_arith)
            requires
                0 <= spacing <= 0xffff_ffff,
                0 <= count <= 0xffff_ffff_ffff_ffff,
        ;
        let underline: u128 = border as u128 + (TITLE_INSET + FONT_HEIGHT / 2 + FONT_HEIGHT) as u128
            + spacing as u128 * count as u128;
        if underline > LAST_PIXEL as u128 {
            return false;
        }
        let mut i: usize = 0;
        while i < count
            invariant
                count == self.structure@.len(),
                i <= count,
                self.submenu is None,
                forall|k: int|
                    0 <= k < i ==> byte_len(#[trigger] self@.entries[k].label) * FONT_WIDTH
                        <= u32::MAX,
            decreases count - i,
        {
            if text_cells(self.structure[i].l) > 0xffff_ffff / CELL {
                assert(byte_len(self@.entries[i as int].label) * FONT_WIDTH > u32::MAX);
                return false;
            }
            i += 1;
        }
        true
    }
}

impl<'a, C, F> Menu<'a, C, F> {
    /// Takes the outcome of carrying out the operations of `draw` and hands
    /// it back unchanged. After a success the menu that drew is clean;
    /// after a failure nothing has changed, so the next draw renders again.
    pub fn finish_draw<E>(&mut self, outcome: Result<(), E>) -> (result: Result<(), E>)
        ensures
            result == outcome,
            outcome is Ok ==> final(self)@ == old(self)@.drawn(),
            outcome is Err ==> final(self)@ == old(self)@,
    {
        match outcome {
            Ok(done) => {
                self.settle();
                Ok(done)
            },
            Err(error) => Err(error),
        }
    }

    /// Clears the dirty flag of the menu that drew.
    fn settle(&mut self)
        ensures
            final(self)@ == old(self)@.drawn(),
        decreases *old(self),
    {
        match self.submenu {
            Some(active) => {
                if active < self.structure.len() {
                    match &mut self.structure[active].t {
                        EntryType::Menu(sub) => {
                            sub.settle();
                        },
                        _ => {},
                    }
                }
            },
            None => {
                self.redraw = false;
            },
        }
        proof {
            assert(self@.entries =~= old(self)@.drawn().entries);
        }
    }
}

/// The number of character cells that the layout counts for a text: its
/// length in bytes.
pub fn text_cells(text: &str) -> (cells: usize)
    ensures
        cells == byte_len(text@),
{
    text.as_bytes().len()
}

} // verus!
