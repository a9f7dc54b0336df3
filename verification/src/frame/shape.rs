//! Shapes that are drawn on a terminal surface as cells with a coloured
//! background.
//!
//! A shape is drawn by handing changes to the surface, one after the
//! other: moves of the cursor, changes of the background colour, and
//! blanks. What a shape draws is stated as the sequence of these changes.

use termwiz::color::ColorAttribute;
use termwiz::surface::Surface;
use vstd::prelude::*;

verus! {

#[verifier::external_type_specification]
#[verifier::external_body]
pub struct ExSurface(Surface);

#[verifier::external_type_specification]
#[verifier::external_body]
pub struct ExColorAttribute(ColorAttribute);

/// One change that a shape hands to the surface.
pub enum Stroke {
    /// The cursor goes to column `x` of row `y`.
    MoveTo { x: usize, y: usize },
    /// What is printed from now on has this background.
    Background(ColorAttribute),
    /// A blank is printed at the cursor.
    Blank,
}

/// Why a shape was not drawn.
#[derive(Clone, Copy, Debug, PartialEq, Eq, Structural)]
pub enum ShapeError {
    /// A custom shape needs three points or more.
    NotEnoughVertices,
}

/// The changes of the kinds that shapes make that a surface has taken
/// since it was made, oldest first.
pub uninterp spec fn surface_strokes(surface: Surface) -> Seq<Stroke>;

/// The width and the height of a surface.
pub uninterp spec fn surface_size(surface: Surface) -> (usize, usize);

/// `Surface::dimensions` of termwiz.
#[verifier::external_body]
pub(crate) fn dimensions(surface: &Surface) -> (out: (usize, usize))
    ensures
        out == surface_size(*surface),
{
    surface.dimensions()
}

/// `Surface::add_change` of termwiz with an absolute cursor position: the
/// surface takes the change, and keeps its size.
#[verifier::external_body]
pub(crate) fn move_to(surface: &mut Surface, x: usize, y: usize)
    ensures
        surface_strokes(*final(surface)) == surface_strokes(*old(surface)).push(
            Stroke::MoveTo { x, y },
        ),
        surface_size(*final(surface)) == surface_size(*old(surface)),
{
    surface.add_change(
        termwiz::surface::Change::CursorPosition {
            x: termwiz::surface::Position::Absolute(x),
            y: termwiz::surface::Position::Absolute(y),
        },
    );
}

/// `Surface::add_change` of termwiz with a change of the background
/// colour: the surface takes the change, and keeps its size.
#[verifier::external_body]
pub(crate) fn set_background(surface: &mut Surface, color: ColorAttribute)
    ensures
        surface_strokes(*final(surface)) == surface_strokes(*old(surface)).push(
            Stroke::Background(color),
        ),
        surface_size(*final(surface)) == surface_size(*old(surface)),
{
    surface.add_change(
        termwiz::surface::Change::Attribute(termwiz::cell::AttributeChange::Background(color)),
    );
}

/// `Surface::add_change` of termwiz with the text of one blank: the
/// surface takes the change, and keeps its size. A surface without rows
/// cannot print.
#[verifier::external_body]
pub(crate) fn put_blank(surface: &mut Surface)
    requires
        surface_size(*old(surface)).1 > 0,
    ensures
        surface_strokes(*final(surface)) == surface_strokes(*old(surface)).push(Stroke::Blank),
        surface_size(*final(surface)) == surface_size(*old(surface)),
{
    surface.add_change(termwiz::surface::Change::Text(" ".to_string()));
}

/// A blank at (`x`, `y`), in the colour that was set last.
pub open spec fn blank_at(x: int, y: int) -> Seq<Stroke> {
    seq![Stroke::MoveTo { x: x as usize, y: y as usize }, Stroke::Blank]
}

/// A blank at (`x`, `y`) in the colour `color`.
pub open spec fn cell_at(x: int, y: int, color: ColorAttribute) -> Seq<Stroke> {
    seq![
        Stroke::MoveTo { x: x as usize, y: y as usize },
        Stroke::Background(color),
        Stroke::Blank,
    ]
}

/// Blanks at the first `n` cells of column `x`.
pub open spec fn column(x: int, n: int) -> Seq<Stroke>
    decreases n,
{
    if n <= 0 {
        Seq::empty()
    } else {
        column(x, n - 1) + blank_at(x, n - 1)
    }
}

/// Blanks at the first `rows` cells of each of the first `n` columns.
pub open spec fn columns(n: int, rows: int) -> Seq<Stroke>
    decreases n,
{
    if n <= 0 {
        Seq::empty()
    } else {
        columns(n - 1, rows) + column(n - 1, rows)
    }
}

/// Blanks at `n` cells that start at (`x`, `y`) and go on by (`dx`, 1)
/// from one to the next.
pub open spec fn slanted(x: int, y: int, dx: int, n: int) -> Seq<Stroke>
    decreases n,
{
    if n <= 0 {
        Seq::empty()
    } else {
        slanted(x, y, dx, n - 1) + blank_at(x + dx * (n - 1), y + n - 1)
    }
}

/// Blanks at `n` cells of row `y` from column `x` on.
pub open spec fn level(x: int, y: int, n: int) -> Seq<Stroke>
    decreases n,
{
    if n <= 0 {
        Seq::empty()
    } else {
        level(x, y, n - 1) + blank_at(x + n - 1, y)
    }
}

/// `dx / dy` rounded towards zero, for a positive `dy`.
pub open spec fn slope(dx: int, dy: int) -> int
    recommends
        dy > 0,
{
    if dx >= 0 {
        dx / dy
    } else {
        -((-dx) / dy)
    }
}

/// Something that can be drawn on a surface.
pub trait Drawable {
    /// What the shape hands to a surface of `size`, stroke colour first.
    spec fn strokes(
        &self,
        size: (usize, usize),
        stroke_color: ColorAttribute,
        fill_color: ColorAttribute,
    ) -> Seq<Stroke>;

    /// Whether the shape can be drawn at all.
    spec fn fault(&self) -> Option<ShapeError>;

    /// Whether the shape can be handed to a surface of `size`: the
    /// coordinates that drawing computes stay within what their sixteen
    /// bits hold, and the surface has a row where the shape prints.
    spec fn in_range(&self, size: (usize, usize)) -> bool;

    /// Whether the shape can be handed to a surface of `size`.
    fn fits(&self, size: (usize, usize)) -> (out: bool)
        ensures
            out == self.in_range(size),
    ;

    /// Draws the shape. The surface takes the shape's changes behind what
    /// it has taken before; a shape that cannot be drawn leaves it alone.
    fn draw(&self, surface: &mut Surface, stroke_color: ColorAttribute, fill_color: ColorAttribute)
        -> (out: Result<(), ShapeError>)
        requires
            self.in_range(surface_size(*old(surface))),
        ensures
            surface_size(*final(surface)) == surface_size(*old(surface)),
            match self.fault() {
                Some(e) => out == Err::<(), ShapeError>(e) && surface_strokes(*final(surface))
                    == surface_strokes(*old(surface)),
                None => out.is_ok() && surface_strokes(*final(surface)) == surface_strokes(
                    *old(surface),
                ) + self.strokes(surface_size(*old(surface)), stroke_color, fill_color),
            },
    ;
}

/// The background: every cell but the last column and the last row.
pub struct Background;

impl Drawable for Background {
    open spec fn strokes(
        &self,
        size: (usize, usize),
        stroke_color: ColorAttribute,
        fill_color: ColorAttribute,
    ) -> Seq<Stroke> {
        seq![Stroke::Background(stroke_color)] + columns(size.0 - 1, size.1 - 1)
    }

    open spec fn fault(&self) -> Option<ShapeError> {
        None
    }

    open spec fn in_range(&self, size: (usize, usize)) -> bool {
        size.0 > 0 && size.1 > 0
    }

    fn fits(&self, size: (usize, usize)) -> (out: bool) {
        size.0 > 0 && size.1 > 0
    }

    fn draw(&self, surface: &mut Surface, stroke_color: ColorAttribute, fill_color: ColorAttribute)
        -> (out: Result<(), ShapeError>) {
        let (w, h) = dimensions(surface);
        set_background(surface, stroke_color);
        let ghost start = surface_strokes(*surface);
        let mut x: usize = 0;
        while x < w - 1
            invariant
                w > 0,
                h > 0,
                x <= w - 1,
                surface_size(*surface) == (w, h),
                surface_strokes(*surface) == start + columns(x as int, h - 1),
            decreases w - 1 - x,
        {
            let mut y: usize = 0;
            while y < h - 1
                invariant
                    w > 0,
                    h > 0,
                    x < w - 1,
                    y <= h - 1,
                    surface_size(*surface) == (w, h),
                    surface_strokes(*surface) == start + columns(x as int, h - 1) + column(
                        x as int,
                        y as int,
                    ),
                decreases h - 1 - y,
            {
                move_to(surface, x, y);
                put_blank(surface);
                assert(surface_strokes(*surface) =~= start + columns(x as int, h - 1) + column(
                    x as int,
                    y + 1,
                ));
                y += 1;
            }
            assert(surface_strokes(*surface) =~= start + columns(x + 1, h - 1));
            x += 1;
        }
        assert(surface_strokes(*surface) =~= surface_strokes(*old(surface)) + self.strokes(
            (w, h),
            stroke_color,
            fill_color,
        ));
        Ok(())
    }
}

/// A single cell at column `.0` of row `.1`.
pub struct Point(pub u16, pub u16);

impl Drawable for Point {
    open spec fn strokes(
        &self,
        size: (usize, usize),
        stroke_color: ColorAttribute,
        fill_color: ColorAttribute,
    ) -> Seq<Stroke> {
        cell_at(self.0 as int, self.1 as int, stroke_color)
    }

    open spec fn fault(&self) -> Option<ShapeError> {
        None
    }

    open spec fn in_range(&self, size: (usize, usize)) -> bool {
        size.1 > 0
    }

    fn fits(&self, size: (usize, usize)) -> (out: bool) {
        size.1 > 0
    }

    fn draw(&self, surface: &mut Surface, stroke_color: ColorAttribute, fill_color: ColorAttribute)
        -> (out: Result<(), ShapeError>) {
        move_to(surface, self.0 as usize, self.1 as usize);
        set_background(surface, stroke_color);
        put_blank(surface);
        assert(surface_strokes(*surface) =~= surface_strokes(*old(surface)) + self.strokes(
            surface_size(*old(surface)),
            stroke_color,
            fill_color,
        ));
        Ok(())
    }
}

/// A line from (`.0`, `.1`) towards (`.2`, `.3`).
///
/// An upright line starts at its first point and is as many cells long as
/// the number of its end row says, and a level line likewise with the
/// number of its end column. Any other line is drawn only downwards: one
/// cell in each row from the first point to the row of the second, each a
/// fixed number of columns on from the one above.
pub struct Line(pub u16, pub u16, pub u16, pub u16);

/// The blanks of a line.
pub open spec fn line_cells(l: Line) -> Seq<Stroke> {
    if l.0 == l.2 {
        slanted(l.0 as int, l.1 as int, 0, l.3 as int)
    } else if l.1 == l.3 {
        level(l.0 as int, l.1 as int, l.2 as int)
    } else if l.3 > l.1 {
        slanted(l.0 as int, l.1 as int, slope(l.2 - l.0, l.3 - l.1), l.3 - l.1 + 1)
    } else {
        Seq::empty()
    }
}

/// Whether every cell of the line has coordinates of sixteen bits.
pub open spec fn line_in_range(l: Line) -> bool {
    if l.0 == l.2 {
        l.3 == 0 || l.1 + l.3 - 1 <= 0xFFFF
    } else if l.1 == l.3 {
        l.2 == 0 || l.0 + l.2 - 1 <= 0xFFFF
    } else {
        true
    }
}

/// Whether the line has a cell.
pub open spec fn line_prints(l: Line) -> bool {
    if l.0 == l.2 {
        l.3 > 0
    } else if l.1 == l.3 {
        l.2 > 0
    } else {
        l.3 > l.1
    }
}

/// Whether the line can be handed to a surface of `size`: its cells have
/// coordinates of sixteen bits, and the surface has a row if the line has
/// a cell.
pub open spec fn line_can_draw(l: Line, size: (usize, usize)) -> bool {
    line_in_range(l) && (line_prints(l) ==> size.1 > 0)
}

/// Whether the line can be handed to a surface of `size`.
pub fn line_fits(l: &Line, size: (usize, usize)) -> (out: bool)
    ensures
        out == line_can_draw(*l, size),
{
    if l.0 == l.2 {
        l.3 == 0 || (size.1 > 0 && l.1 as u32 + l.3 as u32 - 1 <= 0xFFFF)
    } else if l.1 == l.3 {
        l.2 == 0 || (size.1 > 0 && l.0 as u32 + l.2 as u32 - 1 <= 0xFFFF)
    } else {
        l.3 <= l.1 || size.1 > 0
    }
}

/// What a line hands to a surface.
pub open spec fn line_strokes(l: Line, color: ColorAttribute) -> Seq<Stroke> {
    seq![Stroke::Background(color)] + line_cells(l)
}

/// The cells of a slanted line lie between its two ends.
pub proof fn lemma_slope_bounds(dx: int, dy: int, k: int)
    requires
        dy > 0,
        0 <= k <= dy,
    ensures
        dx >= 0 ==> 0 <= slope(dx, dy) * k <= dx,
        dx < 0 ==> dx <= slope(dx, dy) * k <= 0,
{
    let a = if dx >= 0 { dx } else { -dx };
    let q = a / dy;
    assert(0 <= q * k <= a) by (nonlinear_arith)
        requires
            q == a / dy,
            a >= 0,
            dy > 0,
            0 <= k <= dy,
    ;
    if dx < 0 {
        assert((-q) * k == -(q * k)) by (nonlinear_arith);
    }
}

/// Draws the line `l` in the colour `color`.
pub fn draw_line(surface: &mut Surface, l: &Line, color: ColorAttribute)
    requires
        line_can_draw(*l, surface_size(*old(surface))),
    ensures
        surface_size(*final(surface)) == surface_size(*old(surface)),
        surface_strokes(*final(surface)) == surface_strokes(*old(surface)) + line_strokes(
            *l,
            color,
        ),
{
    set_background(surface, color);
    let ghost start = surface_strokes(*surface);
    let x0: u16 = l.0;
    let y0: u16 = l.1;
    if l.0 == l.2 {
        let mut k: u16 = 0;
        while k < l.3
            invariant
                k <= l.3,
                l.3 == 0 || y0 + l.3 - 1 <= 0xFFFF,
                surface_size(*surface) == surface_size(*old(surface)),
                l.3 > 0 ==> surface_size(*surface).1 > 0,
                surface_strokes(*surface) == start + slanted(x0 as int, y0 as int, 0, k as int),
            decreases l.3 - k,
        {
            move_to(surface, x0 as usize, (y0 + k) as usize);
            put_blank(surface);
            assert(surface_strokes(*surface) =~= start + slanted(x0 as int, y0 as int, 0, k + 1));
            k += 1;
        }
    } else if l.1 == l.3 {
        let mut k: u16 = 0;
        while k < l.2
            invariant
                k <= l.2,
                l.2 == 0 || x0 + l.2 - 1 <= 0xFFFF,
                surface_size(*surface) == surface_size(*old(surface)),
                l.2 > 0 ==> surface_size(*surface).1 > 0,
                surface_strokes(*surface) == start + level(x0 as int, y0 as int, k as int),
            decreases l.2 - k,
        {
            move_to(surface, (x0 + k) as usize, y0 as usize);
            put_blank(surface);
            assert(surface_strokes(*surface) =~= start + level(x0 as int, y0 as int, k + 1));
            k += 1;
        }
    } else if l.3 > l.1 {
        let dy: u32 = (l.3 - l.1) as u32;
        let right: bool = l.2 >= l.0;
        let step: u32 = if right { (l.2 - l.0) as u32 / dy } else { (l.0 - l.2) as u32 / dy };
        let ghost dx: int = l.2 - l.0;
        let ghost signed: int = slope(dx, dy as int);
        assert(signed == if right { step as int } else { -(step as int) });
        let mut k: u32 = 0;
        let mut offset: u32 = 0;
        while k <= dy
            invariant
                k <= dy + 1,
                dy == l.3 - l.1,
                dy > 0,
                dx == l.2 - l.0,
                right == (l.2 >= l.0),
                x0 == l.0,
                y0 == l.1,
                signed == slope(dx, dy as int),
                signed == if right { step as int } else { -(step as int) },
                offset == step * k,
                k <= dy ==> offset <= 0xFFFF,
                surface_size(*surface) == surface_size(*old(surface)),
                surface_size(*surface).1 > 0,
                surface_strokes(*surface) == start + slanted(
                    x0 as int,
                    y0 as int,
                    signed,
                    k as int,
                ),
            decreases dy + 1 - k,
        {
            proof {
                lemma_slope_bounds(dx, dy as int, k as int);
                assert(signed * k == if right { offset as int } else { -(offset as int) })
                    by (nonlinear_arith)
                    requires
                        signed == if right { step as int } else { -(step as int) },
                        offset == step * k,
                ;
            }
            let x: u32 = if right { x0 as u32 + offset } else { x0 as u32 - offset };
            move_to(surface, x as usize, (y0 as u32 + k) as usize);
            put_blank(surface);
            assert(surface_strokes(*surface) =~= start + slanted(
                x0 as int,
                y0 as int,
                signed,
                k + 1,
            ));
            proof {
                assert(step * (k + 1) == step * k + step) by (nonlinear_arith);
                assert(step <= 0xFFFF);
                if k < dy {
                    lemma_slope_bounds(dx, dy as int, k + 1);
                    assert(signed * (k + 1) == if right {
                        step * (k + 1)
                    } else {
                        -(step * (k + 1))
                    }) by (nonlinear_arith)
                        requires
                            signed == if right { step as int } else { -(step as int) },
                    ;
                }
            }
            offset = offset + step;
            k += 1;
        }
    } else {
        assert(surface_strokes(*surface) =~= start + Seq::<Stroke>::empty());
    }
    assert(surface_strokes(*surface) =~= surface_strokes(*old(surface)) + line_strokes(*l, color));
}

impl Drawable for Line {
    open spec fn strokes(
        &self,
        size: (usize, usize),
        stroke_color: ColorAttribute,
        fill_color: ColorAttribute,
    ) -> Seq<Stroke> {
        line_strokes(*self, stroke_color)
    }

    open spec fn fault(&self) -> Option<ShapeError> {
        None
    }

    open spec fn in_range(&self, size: (usize, usize)) -> bool {
        line_can_draw(*self, size)
    }

    fn fits(&self, size: (usize, usize)) -> (out: bool) {
        line_fits(self, size)
    }

    fn draw(&self, surface: &mut Surface, stroke_color: ColorAttribute, fill_color: ColorAttribute)
        -> (out: Result<(), ShapeError>) {
        draw_line(surface, self, stroke_color);
        Ok(())
    }
}

/// The line from point `a` to point `b`.
pub open spec fn line_between(a: Point, b: Point) -> Line {
    Line(a.0, a.1, b.0, b.1)
}

/// The lines from each of the first `n + 1` points to the next.
pub open spec fn outline(points: Seq<Point>, n: int, color: ColorAttribute) -> Seq<Stroke>
    decreases n,
{
    if n <= 0 {
        Seq::empty()
    } else {
        outline(points, n - 1, color) + line_strokes(
            line_between(points[n - 1], points[n]),
            color,
        )
    }
}

/// A shape of straight lines through the points `.0`, one after the
/// other; with `.1` set, a last line joins the first point to the last.
pub struct CustomShape(pub Vec<Point>, pub bool);

impl Drawable for CustomShape {
    open spec fn strokes(
        &self,
        size: (usize, usize),
        stroke_color: ColorAttribute,
        fill_color: ColorAttribute,
    ) -> Seq<Stroke> {
        outline(self.0@, self.0@.len() - 1, stroke_color) + if self.1 {
            line_strokes(line_between(self.0@.first(), self.0@.last()), stroke_color)
        } else {
            Seq::empty()
        }
    }

    open spec fn fault(&self) -> Option<ShapeError> {
        if self.0@.len() < 3 {
            Some(ShapeError::NotEnoughVertices)
        } else {
            None
        }
    }

    open spec fn in_range(&self, size: (usize, usize)) -> bool {
        self.0@.len() >= 3 ==> {
            &&& forall|i: int|
                0 <= i < self.0@.len() - 1 ==> line_can_draw(
                    #[trigger] line_between(self.0@[i], self.0@[i + 1]),
                    size,
                )
            &&& self.1 ==> line_can_draw(line_between(self.0@.first(), self.0@.last()), size)
        }
    }

    fn fits(&self, size: (usize, usize)) -> (out: bool) {
        let n: usize = self.0.len();
        if n < 3 {
            return true;
        }
        let mut i: usize = 0;
        while i < n - 1
            invariant
                n == self.0@.len(),
                n >= 3,
                i <= n,
                forall|k: int|
                    0 <= k < i ==> line_can_draw(
                        #[trigger] line_between(self.0@[k], self.0@[k + 1]),
                        size,
                    ),
            decreases n - i,
        {
            let line = Line(self.0[i].0, self.0[i].1, self.0[i + 1].0, self.0[i + 1].1);
            assert(line == line_between(self.0@[i as int], self.0@[i + 1]));
            if !line_fits(&line, size) {
                return false;
            }
            i += 1;
        }
        if self.1 {
            let line = Line(self.0[0].0, self.0[0].1, self.0[n - 1].0, self.0[n - 1].1);
            assert(line == line_between(self.0@.first(), self.0@.last()));
            line_fits(&line, size)
        } else {
            true
        }
    }

    fn draw(&self, surface: &mut Surface, stroke_color: ColorAttribute, fill_color: ColorAttribute)
        -> (out: Result<(), ShapeError>) {
        let n: usize = self.0.len();
        if n < 3 {
            return Err(ShapeError::NotEnoughVertices);
        }
        let ghost start = surface_strokes(*surface);
        let mut i: usize = 0;
        while i < n - 1
            invariant
                n == self.0@.len(),
                n >= 3,
                i <= n - 1,
                self.in_range(surface_size(*old(surface))),
                surface_size(*surface) == surface_size(*old(surface)),
                surface_strokes(*surface) == start + outline(self.0@, i as int, stroke_color),
            decreases n - 1 - i,
        {
            let line = Line(self.0[i].0, self.0[i].1, self.0[i + 1].0, self.0[i + 1].1);
            assert(line == line_between(self.0@[i as int], self.0@[i + 1]));
            draw_line(surface, &line, stroke_color);
            assert(surface_strokes(*surface) =~= start + outline(self.0@, i + 1, stroke_color));
            i += 1;
        }
        if self.1 {
            let line = Line(self.0[0].0, self.0[0].1, self.0[n - 1].0, self.0[n - 1].1);
            assert(line == line_between(self.0@.first(), self.0@.last()));
            draw_line(surface, &line, stroke_color);
        }
        assert(surface_strokes(*surface) =~= start + self.strokes(
            surface_size(*old(surface)),
            stroke_color,
            fill_color,
        ));
        Ok(())
    }
}

/// A rectangle of `.2` by `.3` cells with its top left corner at
/// (`.0`, `.1`): its edge in the stroke colour, its inside in the fill
/// colour.
pub struct Rect(pub u16, pub u16, pub u16, pub u16);

/// The colour of the cell (`i`, `j`) of a rectangle of `w` by `h` cells.
pub open spec fn rect_color(
    w: int,
    h: int,
    i: int,
    j: int,
    stroke_color: ColorAttribute,
    fill_color: ColorAttribute,
) -> ColorAttribute {
    if i == 0 || i == w - 1 || j == 0 || j == h - 1 {
        stroke_color
    } else {
        fill_color
    }
}

/// The first `n` cells of column `i` of a rectangle.
pub open spec fn rect_column(
    r: Rect,
    i: int,
    n: int,
    stroke_color: ColorAttribute,
    fill_color: ColorAttribute,
) -> Seq<Stroke>
    decreases n,
{
    if n <= 0 {
        Seq::empty()
    } else {
        rect_column(r, i, n - 1, stroke_color, fill_color) + cell_at(
            r.0 + i,
            r.1 + n - 1,
            rect_color(r.2 as int, r.3 as int, i, n - 1, stroke_color, fill_color),
        )
    }
}

/// The first `n` columns of a rectangle.
pub open spec fn rect_columns(
    r: Rect,
    n: int,
    stroke_color: ColorAttribute,
    fill_color: ColorAttribute,
) -> Seq<Stroke>
    decreases n,
{
    if n <= 0 {
        Seq::empty()
    } else {
        rect_columns(r, n - 1, stroke_color, fill_color) + rect_column(
            r,
            n - 1,
            r.3 as int,
            stroke_color,
            fill_color,
        )
    }
}

impl Drawable for Rect {
    open spec fn strokes(
        &self,
        size: (usize, usize),
        stroke_color: ColorAttribute,
        fill_color: ColorAttribute,
    ) -> Seq<Stroke> {
        rect_columns(*self, self.2 as int, stroke_color, fill_color)
    }

    open spec fn fault(&self) -> Option<ShapeError> {
        None
    }

    open spec fn in_range(&self, size: (usize, usize)) -> bool {
        self.2 == 0 || self.3 == 0 || (size.1 > 0 && self.0 + self.2 - 1 <= 0xFFFF && self.1
            + self.3 - 1 <= 0xFFFF)
    }

    fn fits(&self, size: (usize, usize)) -> (out: bool) {
        self.2 == 0 || self.3 == 0 || (size.1 > 0 && self.0 as u32 + self.2 as u32 - 1 <= 0xFFFF
            && self.1 as u32 + self.3 as u32 - 1 <= 0xFFFF)
    }

    fn draw(&self, surface: &mut Surface, stroke_color: ColorAttribute, fill_color: ColorAttribute)
        -> (out: Result<(), ShapeError>) {
        let ghost start = surface_strokes(*surface);
        let mut i: u16 = 0;
        while i < self.2
            invariant
                i <= self.2,
                self.in_range(surface_size(*old(surface))),
                surface_size(*surface) == surface_size(*old(surface)),
                (self.2 > 0 && self.3 > 0) ==> surface_size(*surface).1 > 0,
                surface_strokes(*surface) == start + rect_columns(
                    *self,
                    i as int,
                    stroke_color,
                    fill_color,
                ),
            decreases self.2 - i,
        {
            let mut j: u16 = 0;
            while j < self.3
                invariant
                    i < self.2,
                    j <= self.3,
                    self.in_range(surface_size(*old(surface))),
                    surface_size(*surface) == surface_size(*old(surface)),
                    (self.2 > 0 && self.3 > 0) ==> surface_size(*surface).1 > 0,
                    surface_strokes(*surface) == start + rect_columns(
                        *self,
                        i as int,
                        stroke_color,
                        fill_color,
                    ) + rect_column(*self, i as int, j as int, stroke_color, fill_color),
                decreases self.3 - j,
            {
                let x: u16 = self.0 + i;
                let y: u16 = self.1 + j;
                move_to(surface, x as usize, y as usize);
                if i == 0 || i == self.2 - 1 || j == 0 || j == self.3 - 1 {
                    set_background(surface, stroke_color);
                } else {
                    set_background(surface, fill_color);
                }
                put_blank(surface);
                assert(surface_strokes(*surface) =~= start + rect_columns(
                    *self,
                    i as int,
                    stroke_color,
                    fill_color,
                ) + rect_column(*self, i as int, j + 1, stroke_color, fill_color));
                j += 1;
            }
            assert(surface_strokes(*surface) =~= start + rect_columns(
                *self,
                i + 1,
                stroke_color,
                fill_color,
            ));
            i += 1;
        }
        Ok(())
    }
}

/// A diamond around (`.0`, `.1`): the cells that are at most `.2` steps
/// away, a step going to a neighbour in the row or the column. The cells
/// exactly `.2` steps away are in the stroke colour, the others in the
/// fill colour. Cells that are not on the surface are passed over.
pub struct Circle(pub u16, pub u16, pub u16);

/// The cell of a circle that lies `i` columns and `j` rows from the
/// centre, where it is on a surface of `size`.
pub open spec fn circle_cell(
    c: Circle,
    size: (usize, usize),
    i: int,
    j: int,
    stroke_color: ColorAttribute,
    fill_color: ColorAttribute,
) -> Seq<Stroke> {
    let x = c.0 + i;
    let y = c.1 + j;
    if 0 <= x < size.0 && 0 <= y < size.1 {
        cell_at(
            x,
            y,
            if i + j == c.2 || i + j == -c.2 || i - j == c.2 || i - j == -c.2 {
                stroke_color
            } else {
                fill_color
            },
        )
    } else {
        Seq::empty()
    }
}

/// The distance of `i` from 0.
pub open spec fn abs(i: int) -> int {
    if i < 0 {
        -i
    } else {
        i
    }
}

/// The first `n` cells of the column of a circle that lies `i` columns
/// from the centre, from the top.
pub open spec fn circle_column(
    c: Circle,
    size: (usize, usize),
    i: int,
    n: int,
    stroke_color: ColorAttribute,
    fill_color: ColorAttribute,
) -> Seq<Stroke>
    decreases n,
{
    if n <= 0 {
        Seq::empty()
    } else {
        circle_column(c, size, i, n - 1, stroke_color, fill_color) + circle_cell(
            c,
            size,
            i,
            n - 1 - (c.2 - abs(i)),
            stroke_color,
            fill_color,
        )
    }
}

/// The first `n` columns of a circle, from the left.
pub open spec fn circle_columns(
    c: Circle,
    size: (usize, usize),
    n: int,
    stroke_color: ColorAttribute,
    fill_color: ColorAttribute,
) -> Seq<Stroke>
    decreases n,
{
    if n <= 0 {
        Seq::empty()
    } else {
        let i = n - 1 - c.2;
        circle_columns(c, size, n - 1, stroke_color, fill_color) + circle_column(
            c,
            size,
            i,
            2 * (c.2 - abs(i)) + 1,
            stroke_color,
            fill_color,
        )
    }
}

impl Drawable for Circle {
    open spec fn strokes(
        &self,
        size: (usize, usize),
        stroke_color: ColorAttribute,
        fill_color: ColorAttribute,
    ) -> Seq<Stroke> {
        circle_columns(*self, size, 2 * self.2 + 1, stroke_color, fill_color)
    }

    open spec fn fault(&self) -> Option<ShapeError> {
        None
    }

    open spec fn in_range(&self, size: (usize, usize)) -> bool {
        true
    }

    fn fits(&self, size: (usize, usize)) -> (out: bool) {
        true
    }

    fn draw(&self, surface: &mut Surface, stroke_color: ColorAttribute, fill_color: ColorAttribute)
        -> (out: Result<(), ShapeError>) {
        let r: i64 = self.2 as i64;
        let (w, h) = dimensions(surface);
        let ghost size = (w, h);
        let ghost start = surface_strokes(*surface);
        let mut n: i64 = 0;
        while n < 2 * r + 1
            invariant
                r == self.2,
                0 <= n <= 2 * r + 1,
                size == (w, h),
                surface_size(*surface) == size,
                surface_strokes(*surface) == start + circle_columns(
                    *self,
                    size,
                    n as int,
                    stroke_color,
                    fill_color,
                ),
            decreases 2 * r + 1 - n,
        {
            let i: i64 = n - r;
            let reach: i64 = if i < 0 { r + i } else { r - i };
            let mut m: i64 = 0;
            while m < 2 * reach + 1
                invariant
                    r == self.2,
                    0 <= n < 2 * r + 1,
                    i == n - r,
                    reach == r - abs(i as int),
                    0 <= reach <= r,
                    0 <= m <= 2 * reach + 1,
                    size == (w, h),
                    surface_size(*surface) == size,
                    surface_strokes(*surface) == start + circle_columns(
                        *self,
                        size,
                        n as int,
                        stroke_color,
                        fill_color,
                    ) + circle_column(*self, size, i as int, m as int, stroke_color, fill_color),
                decreases 2 * reach + 1 - m,
            {
                let j: i64 = m - reach;
                let x: i64 = self.0 as i64 + i;
                let y: i64 = self.1 as i64 + j;
                if x >= 0 && y >= 0 && (x as u64) < w as u64 && (y as u64) < h as u64 {
                    move_to(surface, x as usize, y as usize);
                    if i + j == r || i + j == -r || i - j == r || i - j == -r {
                        set_background(surface, stroke_color);
                    } else {
                        set_background(surface, fill_color);
                    }
                    put_blank(surface);
                }
                assert(surface_strokes(*surface) =~= start + circle_columns(
                    *self,
                    size,
                    n as int,
                    stroke_color,
                    fill_color,
                ) + circle_column(*self, size, i as int, m + 1, stroke_color, fill_color));
                m += 1;
            }
            assert(surface_strokes(*surface) =~= start + circle_columns(
                *self,
                size,
                n + 1,
                stroke_color,
                fill_color,
            ));
            n += 1;
        }
        Ok(())
    }
}

/// Any of the shapes.
pub enum Shape {
    Background,
    Point(Point),
    Line(Line),
    Rect(Rect),
    Circle(Circle),
    Custom(CustomShape),
}

impl Drawable for Shape {
    open spec fn strokes(
        &self,
        size: (usize, usize),
        stroke_color: ColorAttribute,
        fill_color: ColorAttribute,
    ) -> Seq<Stroke> {
        match self {
            Shape::Background => Background.strokes(size, stroke_color, fill_color),
            Shape::Point(s) => s.strokes(size, stroke_color, fill_color),
            Shape::Line(s) => s.strokes(size, stroke_color, fill_color),
            Shape::Rect(s) => s.strokes(size, stroke_color, fill_color),
            Shape::Circle(s) => s.strokes(size, stroke_color, fill_color),
            Shape::Custom(s) => s.strokes(size, stroke_color, fill_color),
        }
    }

    open spec fn fault(&self) -> Option<ShapeError> {
        match self {
            Shape::Custom(s) => s.fault(),
            _ => None,
        }
    }

    open spec fn in_range(&self, size: (usize, usize)) -> bool {
        match self {
            Shape::Background => Background.in_range(size),
            Shape::Point(s) => s.in_range(size),
            Shape::Line(s) => s.in_range(size),
            Shape::Rect(s) => s.in_range(size),
            Shape::Circle(s) => s.in_range(size),
            Shape::Custom(s) => s.in_range(size),
        }
    }

    fn fits(&self, size: (usize, usize)) -> (out: bool) {
        match self {
            Shape::Background => Background.fits(size),
            Shape::Point(s) => s.fits(size),
            Shape::Line(s) => s.fits(size),
            Shape::Rect(s) => s.fits(size),
            Shape::Circle(s) => s.fits(size),
            Shape::Custom(s) => s.fits(size),
        }
    }

    fn draw(&self, surface: &mut Surface, stroke_color: ColorAttribute, fill_color: ColorAttribute)
        -> (out: Result<(), ShapeError>) {
        match self {
            Shape::Background => Background.draw(surface, stroke_color, fill_color),
            Shape::Point(s) => s.draw(surface, stroke_color, fill_color),
            Shape::Line(s) => s.draw(surface, stroke_color, fill_color),
            Shape::Rect(s) => s.draw(surface, stroke_color, fill_color),
            Shape::Circle(s) => s.draw(surface, stroke_color, fill_color),
            Shape::Custom(s) => s.draw(surface, stroke_color, fill_color),
        }
    }
}

/// Draws `shape` where it can be handed to the surface, and says with
/// `None` where not; the surface then stays as it is.
pub fn try_draw<D: Drawable>(
    shape: &D,
    surface: &mut Surface,
    stroke_color: ColorAttribute,
    fill_color: ColorAttribute,
) -> (out: Option<Result<(), ShapeError>>)
    ensures
        surface_size(*final(surface)) == surface_size(*old(surface)),
        out.is_some() == shape.in_range(surface_size(*old(surface))),
        match out {
            None => surface_strokes(*final(surface)) == surface_strokes(*old(surface)),
            Some(done) => match shape.fault() {
                Some(e) => done == Err::<(), ShapeError>(e) && surface_strokes(*final(surface))
                    == surface_strokes(*old(surface)),
                None => done.is_ok() && surface_strokes(*final(surface)) == surface_strokes(
                    *old(surface),
                ) + shape.strokes(surface_size(*old(surface)), stroke_color, fill_color),
            },
        },
{
    let size = dimensions(surface);
    if shape.fits(size) {
        Some(shape.draw(surface, stroke_color, fill_color))
    } else {
        None
    }
}

} // verus!
