use vstd::prelude::*;
use crate::geometry::Rect;
use crate::style::{Color, Modifier, Style};

verus! {

/// One cell of the character grid: a display glyph together with the
/// colours and attributes applied to it.
#[derive(Clone, Copy, Debug, PartialEq, Eq, Structural, Hash)]
pub struct Cell {
    pub symbol: char,
    pub fg: Color,
    pub bg: Color,
    pub modifier: Modifier,
}

impl Cell {
    /// A blank cell with the terminal's default colours.
    pub open spec fn spec_default() -> Cell {
        Cell { symbol: ' ', fg: Color::Reset, bg: Color::Reset, modifier: Modifier::spec_none() }
    }

    pub fn empty() -> (r: Cell)
        ensures
            r == Cell::spec_default(),
    {
        Cell { symbol: ' ', fg: Color::Reset, bg: Color::Reset, modifier: Modifier::none() }
    }

    /// The cell with `style` merged onto it: set colours replace the
    /// cell's, added attributes are switched on, then removed attributes
    /// are switched off. The glyph is kept.
    pub open spec fn spec_with_style(self, style: Style) -> Cell {
        Cell {
            symbol: self.symbol,
            fg: match style.fg {
                Some(c) => c,
                None => self.fg,
            },
            bg: match style.bg {
                Some(c) => c,
                None => self.bg,
            },
            modifier: self.modifier.spec_union(style.add_modifier).spec_difference(
                style.sub_modifier,
            ),
        }
    }

    pub fn set_style(self, style: Style) -> (r: Cell)
        ensures
            r == self.spec_with_style(style),
    {
        Cell {
            symbol: self.symbol,
            fg: match style.fg {
                Some(c) => c,
                None => self.fg,
            },
            bg: match style.bg {
                Some(c) => c,
                None => self.bg,
            },
            modifier: self.modifier.union(style.add_modifier).difference(style.sub_modifier),
        }
    }

    /// The cell with its glyph replaced and everything else kept.
    pub open spec fn spec_with_symbol(self, symbol: char) -> Cell {
        Cell { symbol, ..self }
    }

    pub fn set_symbol(self, symbol: char) -> (r: Cell)
        ensures
            r == self.spec_with_symbol(symbol),
    {
        Cell { symbol, ..self }
    }
}

/// The row-major position of the cell at column `x`, row `y` of a grid
/// covering `barea`.
pub open spec fn grid_index(barea: Rect, x: int, y: int) -> int {
    (y - barea.y) * barea.width + (x - barea.x)
}

/// Inside the grid's rectangle, the row-major position is a valid index.
pub proof fn lemma_grid_index_in_range(barea: Rect, x: int, y: int)
    requires
        barea.spec_contains(x, y),
    ensures
        0 <= grid_index(barea, x, y) < barea.width as int * barea.height as int,
{
    assert(0 <= grid_index(barea, x, y) < barea.width as int * barea.height as int)
        by (nonlinear_arith)
        requires
            barea.spec_contains(x, y),
            grid_index(barea, x, y) == (y - barea.y) * barea.width + (x - barea.x),
    ;
}

/// Distinct cells of the grid have distinct row-major positions.
pub proof fn lemma_grid_index_injective(barea: Rect, x1: int, y1: int, x2: int, y2: int)
    requires
        barea.spec_contains(x1, y1),
        barea.spec_contains(x2, y2),
        !(x1 == x2 && y1 == y2),
    ensures
        grid_index(barea, x1, y1) != grid_index(barea, x2, y2),
{
    assert(grid_index(barea, x1, y1) != grid_index(barea, x2, y2))
        by (nonlinear_arith)
        requires
            barea.spec_contains(x1, y1),
            barea.spec_contains(x2, y2),
            !(x1 == x2 && y1 == y2),
            grid_index(barea, x1, y1) == (y1 - barea.y) * barea.width + (x1 - barea.x),
            grid_index(barea, x2, y2) == (y2 - barea.y) * barea.width + (x2 - barea.x),
    ;
}

/// The cell at `(x, y)` of a grid covering `barea`, or a blank cell when
/// the position lies outside the grid.
pub open spec fn grid_get(s: Seq<Cell>, barea: Rect, x: int, y: int) -> Cell {
    let i = grid_index(barea, x, y);
    if barea.spec_contains(x, y) && 0 <= i < s.len() {
        s[i]
    } else {
        Cell::spec_default()
    }
}

/// The grid contents with the glyph at `(x, y)` replaced and `style`
/// merged onto that cell; unchanged when the cell lies outside the grid.
pub open spec fn grid_put(
    s: Seq<Cell>,
    barea: Rect,
    x: int,
    y: int,
    symbol: char,
    style: Style,
) -> Seq<Cell> {
    let i = grid_index(barea, x, y);
    if barea.spec_contains(x, y) && 0 <= i < s.len() {
        s.update(i, s[i].spec_with_symbol(symbol).spec_with_style(style))
    } else {
        s
    }
}

/// The grid contents with the whole cell at `(x, y)` replaced; unchanged
/// when the cell lies outside the grid.
pub open spec fn grid_set_cell(s: Seq<Cell>, barea: Rect, x: int, y: int, cell: Cell) -> Seq<Cell> {
    let i = grid_index(barea, x, y);
    if barea.spec_contains(x, y) && 0 <= i < s.len() {
        s.update(i, cell)
    } else {
        s
    }
}

/// The grid contents with `style` merged onto the cell at `(x, y)`;
/// unchanged when the cell lies outside the grid.
pub open spec fn grid_style_cell(s: Seq<Cell>, barea: Rect, x: int, y: int, style: Style) -> Seq<
    Cell,
> {
    let i = grid_index(barea, x, y);
    if barea.spec_contains(x, y) && 0 <= i < s.len() {
        s.update(i, s[i].spec_with_style(style))
    } else {
        s
    }
}

/// A horizontal run of `grid_put` over columns `x0` (inclusive) up to `x1`
/// (exclusive) of row `y`.
pub open spec fn grid_hline(
    s: Seq<Cell>,
    barea: Rect,
    y: int,
    x0: int,
    x1: int,
    symbol: char,
    style: Style,
) -> Seq<Cell>
    decreases x1 - x0,
{
    if x1 <= x0 {
        s
    } else {
        grid_hline(grid_put(s, barea, x0, y, symbol, style), barea, y, x0 + 1, x1, symbol, style)
    }
}

/// A vertical run of `grid_put` over rows `y0` (inclusive) up to `y1`
/// (exclusive) of column `x`.
pub open spec fn grid_vline(
    s: Seq<Cell>,
    barea: Rect,
    x: int,
    y0: int,
    y1: int,
    symbol: char,
    style: Style,
) -> Seq<Cell>
    decreases y1 - y0,
{
    if y1 <= y0 {
        s
    } else {
        grid_vline(grid_put(s, barea, x, y0, symbol, style), barea, x, y0 + 1, y1, symbol, style)
    }
}

/// `style` merged onto the cells of row `y`, columns `x0` up to `x1`.
pub open spec fn grid_style_row(
    s: Seq<Cell>,
    barea: Rect,
    y: int,
    x0: int,
    x1: int,
    style: Style,
) -> Seq<Cell>
    decreases x1 - x0,
{
    if x1 <= x0 {
        s
    } else {
        grid_style_row(grid_style_cell(s, barea, x0, y, style), barea, y, x0 + 1, x1, style)
    }
}

/// `style` merged row by row onto rows `y0` up to `y1`, columns `x0` up to
/// `x1`.
pub open spec fn grid_style_rows(
    s: Seq<Cell>,
    barea: Rect,
    x0: int,
    x1: int,
    y0: int,
    y1: int,
    style: Style,
) -> Seq<Cell>
    decreases y1 - y0,
{
    if y1 <= y0 {
        s
    } else {
        grid_style_rows(grid_style_row(s, barea, y0, x0, x1, style), barea, x0, x1, y0 + 1, y1, style)
    }
}

/// `style` merged onto every cell of `r` clipped to the grid's rectangle.
pub open spec fn grid_style_rect(s: Seq<Cell>, barea: Rect, r: Rect, style: Style) -> Seq<Cell> {
    let clip = r.spec_intersection(barea);
    grid_style_rows(
        s,
        barea,
        clip.x as int,
        clip.x + clip.width,
        clip.y as int,
        clip.y + clip.height,
        style,
    )
}

/// The first `n` characters of `chars` written rightward from `(x, y)`
/// with `style` merged onto each written cell; the characters before
/// index `k` are already written. Columns stop at the coordinate space's
/// end.
pub open spec fn grid_text(
    s: Seq<Cell>,
    barea: Rect,
    chars: Seq<char>,
    style: Style,
    x: int,
    y: int,
    k: int,
    n: int,
) -> Seq<Cell>
    decreases n - k,
{
    if n <= k {
        s
    } else {
        grid_text(grid_put(s, barea, x + k, y, chars[k], style), barea, chars, style, x, y, k + 1, n)
    }
}

/// A single write leaves every other cell untouched.
pub proof fn lemma_grid_put_preserves(
    s: Seq<Cell>,
    barea: Rect,
    x: int,
    y: int,
    symbol: char,
    style: Style,
    qx: int,
    qy: int,
)
    requires
        !(qx == x && qy == y),
    ensures
        grid_put(s, barea, x, y, symbol, style).len() == s.len(),
        grid_get(grid_put(s, barea, x, y, symbol, style), barea, qx, qy) == grid_get(
            s,
            barea,
            qx,
            qy,
        ),
{
    if barea.spec_contains(x, y) && barea.spec_contains(qx, qy) {
        lemma_grid_index_injective(barea, x, y, qx, qy);
    }
}

/// A single cell replacement leaves every other cell untouched.
pub proof fn lemma_grid_set_cell_preserves(
    s: Seq<Cell>,
    barea: Rect,
    x: int,
    y: int,
    cell: Cell,
    qx: int,
    qy: int,
)
    requires
        !(qx == x && qy == y),
    ensures
        grid_set_cell(s, barea, x, y, cell).len() == s.len(),
        grid_get(grid_set_cell(s, barea, x, y, cell), barea, qx, qy) == grid_get(s, barea, qx, qy),
{
    if barea.spec_contains(x, y) && barea.spec_contains(qx, qy) {
        lemma_grid_index_injective(barea, x, y, qx, qy);
    }
}

/// A single style merge keeps every glyph, and leaves every other cell
/// entirely untouched.
pub proof fn lemma_grid_style_cell_preserves(
    s: Seq<Cell>,
    barea: Rect,
    x: int,
    y: int,
    style: Style,
    qx: int,
    qy: int,
)
    ensures
        grid_style_cell(s, barea, x, y, style).len() == s.len(),
        grid_get(grid_style_cell(s, barea, x, y, style), barea, qx, qy).symbol == grid_get(
            s,
            barea,
            qx,
            qy,
        ).symbol,
        !(qx == x && qy == y) ==> grid_get(grid_style_cell(s, barea, x, y, style), barea, qx, qy)
            == grid_get(s, barea, qx, qy),
{
    if barea.spec_contains(x, y) && barea.spec_contains(qx, qy) && !(qx == x && qy == y) {
        lemma_grid_index_injective(barea, x, y, qx, qy);
    }
}

/// A vertical glyph run leaves every cell off its column segment
/// untouched.
pub proof fn lemma_grid_vline_preserves(
    s: Seq<Cell>,
    barea: Rect,
    x: int,
    y0: int,
    y1: int,
    symbol: char,
    style: Style,
    qx: int,
    qy: int,
)
    requires
        !(qx == x && y0 <= qy < y1),
    ensures
        grid_vline(s, barea, x, y0, y1, symbol, style).len() == s.len(),
        grid_get(grid_vline(s, barea, x, y0, y1, symbol, style), barea, qx, qy) == grid_get(
            s,
            barea,
            qx,
            qy,
        ),
    decreases y1 - y0,
{
    if y1 <= y0 {
    } else {
        lemma_grid_put_preserves(s, barea, x, y0, symbol, style, qx, qy);
        lemma_grid_vline_preserves(
            grid_put(s, barea, x, y0, symbol, style),
            barea,
            x,
            y0 + 1,
            y1,
            symbol,
            style,
            qx,
            qy,
        );
    }
}

/// A horizontal glyph run leaves every cell off its row segment
/// untouched.
pub proof fn lemma_grid_hline_preserves(
    s: Seq<Cell>,
    barea: Rect,
    y: int,
    x0: int,
    x1: int,
    symbol: char,
    style: Style,
    qx: int,
    qy: int,
)
    requires
        !(qy == y && x0 <= qx < x1),
    ensures
        grid_hline(s, barea, y, x0, x1, symbol, style).len() == s.len(),
        grid_get(grid_hline(s, barea, y, x0, x1, symbol, style), barea, qx, qy) == grid_get(
            s,
            barea,
            qx,
            qy,
        ),
    decreases x1 - x0,
{
    if x1 <= x0 {
    } else {
        lemma_grid_put_preserves(s, barea, x0, y, symbol, style, qx, qy);
        lemma_grid_hline_preserves(
            grid_put(s, barea, x0, y, symbol, style),
            barea,
            y,
            x0 + 1,
            x1,
            symbol,
            style,
            qx,
            qy,
        );
    }
}

/// A written text run leaves every cell off its row segment untouched.
pub proof fn lemma_grid_text_preserves(
    s: Seq<Cell>,
    barea: Rect,
    chars: Seq<char>,
    style: Style,
    x: int,
    y: int,
    k: int,
    n: int,
    qx: int,
    qy: int,
)
    requires
        !(qy == y && x + k <= qx < x + n),
    ensures
        grid_text(s, barea, chars, style, x, y, k, n).len() == s.len(),
        grid_get(grid_text(s, barea, chars, style, x, y, k, n), barea, qx, qy) == grid_get(
            s,
            barea,
            qx,
            qy,
        ),
    decreases n - k,
{
    if n <= k {
    } else {
        lemma_grid_put_preserves(s, barea, x + k, y, chars[k], style, qx, qy);
        lemma_grid_text_preserves(
            grid_put(s, barea, x + k, y, chars[k], style),
            barea,
            chars,
            style,
            x,
            y,
            k + 1,
            n,
            qx,
            qy,
        );
    }
}

/// A styled row keeps every glyph, and leaves cells off its segment
/// entirely untouched.
pub proof fn lemma_grid_style_row_preserves(
    s: Seq<Cell>,
    barea: Rect,
    y: int,
    x0: int,
    x1: int,
    style: Style,
    qx: int,
    qy: int,
)
    ensures
        grid_style_row(s, barea, y, x0, x1, style).len() == s.len(),
        grid_get(grid_style_row(s, barea, y, x0, x1, style), barea, qx, qy).symbol == grid_get(
            s,
            barea,
            qx,
            qy,
        ).symbol,
        !(qy == y && x0 <= qx < x1) ==> grid_get(
            grid_style_row(s, barea, y, x0, x1, style),
            barea,
            qx,
            qy,
        ) == grid_get(s, barea, qx, qy),
    decreases x1 - x0,
{
    if x1 <= x0 {
    } else {
        lemma_grid_style_cell_preserves(s, barea, x0, y, style, qx, qy);
        lemma_grid_style_row_preserves(
            grid_style_cell(s, barea, x0, y, style),
            barea,
            y,
            x0 + 1,
            x1,
            style,
            qx,
            qy,
        );
    }
}

/// A styled row block keeps every glyph, and leaves cells outside it
/// entirely untouched.
pub proof fn lemma_grid_style_rows_preserves(
    s: Seq<Cell>,
    barea: Rect,
    x0: int,
    x1: int,
    y0: int,
    y1: int,
    style: Style,
    qx: int,
    qy: int,
)
    ensures
        grid_style_rows(s, barea, x0, x1, y0, y1, style).len() == s.len(),
        grid_get(grid_style_rows(s, barea, x0, x1, y0, y1, style), barea, qx, qy).symbol
            == grid_get(s, barea, qx, qy).symbol,
        !(y0 <= qy < y1 && x0 <= qx < x1) ==> grid_get(
            grid_style_rows(s, barea, x0, x1, y0, y1, style),
            barea,
            qx,
            qy,
        ) == grid_get(s, barea, qx, qy),
    decreases y1 - y0,
{
    if y1 <= y0 {
    } else {
        lemma_grid_style_row_preserves(s, barea, y0, x0, x1, style, qx, qy);
        lemma_grid_style_rows_preserves(
            grid_style_row(s, barea, y0, x0, x1, style),
            barea,
            x0,
            x1,
            y0 + 1,
            y1,
            style,
            qx,
            qy,
        );
    }
}

/// A styled rectangle keeps every glyph, and leaves cells outside its
/// clipped rectangle entirely untouched.
pub proof fn lemma_grid_style_rect_preserves(
    s: Seq<Cell>,
    barea: Rect,
    r: Rect,
    style: Style,
    qx: int,
    qy: int,
)
    ensures
        grid_style_rect(s, barea, r, style).len() == s.len(),
        grid_get(grid_style_rect(s, barea, r, style), barea, qx, qy).symbol == grid_get(
            s,
            barea,
            qx,
            qy,
        ).symbol,
        !r.spec_intersection(barea).spec_contains(qx, qy) ==> grid_get(
            grid_style_rect(s, barea, r, style),
            barea,
            qx,
            qy,
        ) == grid_get(s, barea, qx, qy),
{
    let clip = r.spec_intersection(barea);
    lemma_grid_style_rows_preserves(
        s,
        barea,
        clip.x as int,
        clip.x + clip.width,
        clip.y as int,
        clip.y + clip.height,
        style,
        qx,
        qy,
    );
}

/// The character grid: a rectangle of styled cells stored in row-major
/// order. The content length always matches the rectangle's cell count.
#[derive(Debug, PartialEq, Eq)]
pub struct Buffer {
    pub area: Rect,
    pub content: Vec<Cell>,
}

impl Clone for Buffer {
    /// A cloned grid covers the same rectangle with the same cells.
    fn clone(&self) -> (r: Buffer)
        ensures
            r.area == self.area,
            r.content@ == self.content@,
    {
        let content = self.content.clone();
        proof {
            assert(content@ =~= self.content@);
        }
        Buffer { area: self.area, content }
    }
}

impl Buffer {
    /// Well-formedness: one stored cell for every cell of the rectangle.
    pub open spec fn wf(self) -> bool {
        self.content@.len() == self.area.width as int * self.area.height as int
    }

    /// The cell at column `x`, row `y`.
    pub open spec fn spec_cell(self, x: int, y: int) -> Cell {
        self.content@[grid_index(self.area, x, y)]
    }

    /// A grid of blank cells covering `area`.
    pub fn empty(area: Rect) -> (r: Buffer)
        ensures
            r.area == area,
            r.wf(),
            r.content@ == Seq::new(
                (area.width as nat) * (area.height as nat),
                |i: int| Cell::spec_default(),
            ),
    {
        proof {
            assert((area.width as int) * (area.height as int) < 0x1_0000_0000) by (nonlinear_arith)
                requires
                    0 <= (area.width as int) < 0x1_0000,
                    0 <= (area.height as int) < 0x1_0000,
            ;
        }
        let n: usize = (area.width as usize) * (area.height as usize);
        let mut content: Vec<Cell> = Vec::new();
        let mut i: usize = 0;
        while i < n
            invariant
                i <= n,
                content@.len() == i,
                forall|j: int| 0 <= j < i ==> content@[j] == Cell::spec_default(),
            decreases n - i,
        {
            content.push(Cell::empty());
            i = i + 1;
        }
        proof {
            assert(content@ =~= Seq::new(
                (area.width as nat) * (area.height as nat),
                |i: int| Cell::spec_default(),
            ));
        }
        Buffer { area, content }
    }

    fn cell_index(&self, x: u16, y: u16) -> (i: usize)
        requires
            self.wf(),
            self.area.spec_contains(x as int, y as int),
        ensures
            i == grid_index(self.area, x as int, y as int),
            i < self.content.len(),
    {
        proof {
            lemma_grid_index_in_range(self.area, x as int, y as int);
            assert((y as int - self.area.y as int) * (self.area.width as int) + (x as int
                - self.area.x as int) < 0x1_0000_0000) by (nonlinear_arith)
                requires
                    0 <= (y as int - self.area.y as int) < 0x1_0000,
                    0 <= (self.area.width as int) < 0x1_0000,
                    0 <= (x as int - self.area.x as int) < 0x1_0000,
            ;
        }
        ((y - self.area.y) as usize) * (self.area.width as usize) + ((x - self.area.x) as usize)
    }

    /// Reads the cell at column `x`, row `y`.
    pub fn get(&self, x: u16, y: u16) -> (c: Cell)
        requires
            self.wf(),
            self.area.spec_contains(x as int, y as int),
        ensures
            c == self.spec_cell(x as int, y as int),
    {
        let i = self.cell_index(x, y);
        self.content[i]
    }

    /// Writes `symbol` and merges `style` at `(x, y)`; a position outside
    /// the grid is ignored.
    pub fn put(&mut self, x: u16, y: u16, symbol: char, style: Style)
        requires
            old(self).wf(),
        ensures
            final(self).area == old(self).area,
            final(self).wf(),
            final(self).content@ == grid_put(
                old(self).content@,
                old(self).area,
                x as int,
                y as int,
                symbol,
                style,
            ),
    {
        if x >= self.area.x && x - self.area.x < self.area.width && y >= self.area.y && y
            - self.area.y < self.area.height {
            let i = self.cell_index(x, y);
            let cell = self.content[i];
            self.content.set(i, cell.set_symbol(symbol).set_style(style));
        }
    }

    /// Replaces the whole cell at `(x, y)`; a position outside the grid is
    /// ignored.
    pub fn set_cell(&mut self, x: u16, y: u16, cell: Cell)
        requires
            old(self).wf(),
        ensures
            final(self).area == old(self).area,
            final(self).wf(),
            final(self).content@ == grid_set_cell(
                old(self).content@,
                old(self).area,
                x as int,
                y as int,
                cell,
            ),
    {
        if x >= self.area.x && x - self.area.x < self.area.width && y >= self.area.y && y
            - self.area.y < self.area.height {
            let i = self.cell_index(x, y);
            self.content.set(i, cell);
        }
    }

    fn style_cell(&mut self, x: u16, y: u16, style: Style)
        requires
            old(self).wf(),
        ensures
            final(self).area == old(self).area,
            final(self).wf(),
            final(self).content@ == grid_style_cell(
                old(self).content@,
                old(self).area,
                x as int,
                y as int,
                style,
            ),
    {
        if x >= self.area.x && x - self.area.x < self.area.width && y >= self.area.y && y
            - self.area.y < self.area.height {
            let i = self.cell_index(x, y);
            let cell = self.content[i];
            self.content.set(i, cell.set_style(style));
        }
    }

    /// Writes the first `n` characters of `chars` rightward from `(x, y)`,
    /// merging `style` onto each written cell. Writing stops at the end of
    /// the coordinate space.
    pub fn put_text(&mut self, chars: &Vec<char>, style: Style, x: u16, y: u16, n: usize)
        requires
            old(self).wf(),
            n <= chars@.len(),
        ensures
            final(self).area == old(self).area,
            final(self).wf(),
            final(self).content@ == grid_text(
                old(self).content@,
                old(self).area,
                chars@,
                style,
                x as int,
                y as int,
                0,
                crate::geometry::min_i(n as int, 0x10000 - x as int),
            ),
    {
        let cap: usize = (u16::MAX - x) as usize + 1;
        let m: usize = if n < cap {
            n
        } else {
            cap
        };
        let mut i: usize = 0;
        while i < m
            invariant
                self.wf(),
                self.area == old(self).area,
                i <= m,
                m <= n <= chars@.len(),
                m as int == crate::geometry::min_i(n as int, 0x10000 - x as int),
                grid_text(
                    self.content@,
                    self.area,
                    chars@,
                    style,
                    x as int,
                    y as int,
                    i as int,
                    m as int,
                ) == grid_text(
                    old(self).content@,
                    self.area,
                    chars@,
                    style,
                    x as int,
                    y as int,
                    0,
                    m as int,
                ),
            decreases m - i,
        {
            self.put(x + (i as u16), y, chars[i], style);
            i = i + 1;
        }
    }

    /// Merges `style` onto every cell of `area` clipped to the grid.
    pub fn set_style(&mut self, area: Rect, style: Style)
        requires
            old(self).wf(),
        ensures
            final(self).area == old(self).area,
            final(self).wf(),
            final(self).content@ == grid_style_rect(
                old(self).content@,
                old(self).area,
                area,
                style,
            ),
    {
        let clip = area.intersection(self.area);
        let x0 = clip.x;
        let x1 = clip.x + clip.width;
        let y1 = clip.y + clip.height;
        let mut y: u16 = clip.y;
        while y < y1
            invariant
                self.wf(),
                self.area == old(self).area,
                clip.y <= y <= y1,
                x0 == clip.x,
                x0 <= x1,
                x1 == clip.x + clip.width,
                y1 == clip.y + clip.height,
                grid_style_rows(
                    self.content@,
                    self.area,
                    x0 as int,
                    x1 as int,
                    y as int,
                    y1 as int,
                    style,
                ) == grid_style_rows(
                    old(self).content@,
                    self.area,
                    x0 as int,
                    x1 as int,
                    clip.y as int,
                    y1 as int,
                    style,
                ),
            decreases y1 - y,
        {
            let ghost row_start = self.content@;
            let mut x: u16 = x0;
            while x < x1
                invariant
                    self.wf(),
                    self.area == old(self).area,
                    x0 <= x <= x1,
                    grid_style_row(
                        self.content@,
                        self.area,
                        y as int,
                        x as int,
                        x1 as int,
                        style,
                    ) == grid_style_row(
                        row_start,
                        self.area,
                        y as int,
                        x0 as int,
                        x1 as int,
                        style,
                    ),
                decreases x1 - x,
            {
                self.style_cell(x, y, style);
                x = x + 1;
            }
            proof {
                assert(self.content@ == grid_style_row(
                    row_start,
                    self.area,
                    y as int,
                    x0 as int,
                    x1 as int,
                    style,
                ));
            }
            y = y + 1;
        }
    }
}

} // verus!
