//! The character grid: a fixed-size rectangle of characters that every layer
//! of the stage is drawn into.
use vstd::prelude::*;

verus! {

/// The character that overlay operations treat as "see-through": where the
/// source holds it, the destination keeps its own character.
pub const TRANSPARENT_CHAR: char = ' ';

/// `height` rows of `width` copies of `c`.
pub open spec fn filled(width: nat, height: nat, c: char) -> Seq<Seq<char>> {
    Seq::new(height, |y: int| Seq::new(width, |x: int| c))
}

/// Every row of `cells` holds exactly `width` characters.
pub open spec fn is_rect(cells: Seq<Seq<char>>, width: nat) -> bool {
    forall|y: int| 0 <= y < cells.len() ==> #[trigger] cells[y].len() == width
}

/// The rows of a `Vec` of rows, as sequences.
pub open spec fn rows_view(rows: Seq<Vec<char>>) -> Seq<Seq<char>> {
    Seq::new(rows.len(), |y: int| rows[y]@)
}

/// Cell (x, y) of `dst` after `src` has been laid over it with its top-left
/// corner at (px, py): a source cell that lands there wins, unless it is the
/// transparent character.
pub open spec fn overlay_cell(
    dst: Seq<Seq<char>>,
    src: Seq<Seq<char>>,
    px: int,
    py: int,
    transparent: Option<char>,
    x: int,
    y: int,
) -> char {
    let sy = y - py;
    let sx = x - px;
    if 0 <= sy < src.len() && 0 <= sx < src[sy].len() && transparent != Some(src[sy][sx]) {
        src[sy][sx]
    } else {
        dst[y][x]
    }
}

/// `dst` with `src` laid over it at (px, py); what falls outside `dst` is dropped.
pub open spec fn overlay(
    dst: Seq<Seq<char>>,
    src: Seq<Seq<char>>,
    px: int,
    py: int,
    transparent: Option<char>,
) -> Seq<Seq<char>> {
    Seq::new(
        dst.len(),
        |y: int| Seq::new(dst[y].len(), |x: int| overlay_cell(dst, src, px, py, transparent, x, y)),
    )
}

/// Where a source of extent `src_extent` starts along one axis when it is
/// centred in a destination of extent `dst_extent` and then moved by `p`.
pub open spec fn centered_origin(dst_extent: nat, src_extent: nat, p: int) -> int {
    p + (dst_extent / 2) as int - (src_extent / 2) as int
}

/// `cells` with the rows `lo <= y < hi` replaced by copies of `c`.
pub open spec fn masked_rows(cells: Seq<Seq<char>>, lo: int, hi: int, c: char) -> Seq<Seq<char>> {
    Seq::new(
        cells.len(),
        |y: int| Seq::new(cells[y].len(), |x: int| if lo <= y < hi { c } else { cells[y][x] }),
    )
}

/// `cells` with the columns `lo <= x < hi` replaced by copies of `c`.
pub open spec fn masked_columns(cells: Seq<Seq<char>>, lo: int, hi: int, c: char) -> Seq<Seq<char>> {
    Seq::new(
        cells.len(),
        |y: int| Seq::new(cells[y].len(), |x: int| if lo <= x < hi { c } else { cells[y][x] }),
    )
}

/// A position on a grid, in cells; either coordinate may lie outside it.
#[derive(Clone, Copy, Debug, PartialEq, Eq, Structural)]
pub struct CharPosition {
    pub x: i32,
    pub y: i32,
}

/// A rectangle of characters, stored row by row.
pub struct CharGrid {
    rows: Vec<Vec<char>>,
    width: usize,
}

impl View for CharGrid {
    type V = Seq<Seq<char>>;

    closed spec fn view(&self) -> Seq<Seq<char>> {
        rows_view(self.rows@)
    }
}

/// Bounds under which the position arithmetic of an overlay cannot overflow.
spec fn small_offset(p: i128) -> bool {
    -0x1_0000_0000_0000_0000_0000 < p < 0x1_0000_0000_0000_0000_0000
}

impl CharGrid {
    /// Number of characters in each row.
    pub closed spec fn spec_width(&self) -> nat {
        self.width as nat
    }

    /// Number of rows.
    pub open spec fn spec_height(&self) -> nat {
        self@.len()
    }

    /// All rows have the grid's width; every grid keeps to this.
    #[verifier::type_invariant]
    pub open spec fn wf(&self) -> bool {
        is_rect(self@, self.spec_width())
    }

    /// A `width` × `height` grid of blanks.
    pub fn new(width: usize, height: usize) -> (r: CharGrid)
        ensures
            r.wf(),
            r.spec_width() == width,
            r@ == filled(width as nat, height as nat, TRANSPARENT_CHAR),
    {
        let mut rows: Vec<Vec<char>> = Vec::new();
        let mut y: usize = 0;
        while y < height
            invariant
                y <= height,
                rows@.len() == y,
                forall|j: int| 0 <= j < y ==> #[trigger] rows@[j]@ == Seq::new(width as nat, |x: int| TRANSPARENT_CHAR),
            decreases height - y,
        {
            let mut row: Vec<char> = Vec::new();
            let mut x: usize = 0;
            while x < width
                invariant
                    x <= width,
                    row@ == Seq::new(x as nat, |i: int| TRANSPARENT_CHAR),
                decreases width - x,
            {
                row.push(TRANSPARENT_CHAR);
                x = x + 1;
                assert(row@ =~= Seq::new(x as nat, |i: int| TRANSPARENT_CHAR));
            }
            rows.push(row);
            y = y + 1;
        }
        let r = CharGrid { rows, width };
        assert(r@ =~= filled(width as nat, height as nat, TRANSPARENT_CHAR));
        r
    }

    /// A grid holding `rows`, or `None` where the rows differ in length.
    /// With no rows at all the grid is empty and has width zero.
    pub fn from_rows(rows: Vec<Vec<char>>) -> (r: Option<CharGrid>)
        ensures
            r is Some <==> (rows@.len() == 0 || is_rect(rows_view(rows@), rows@[0]@.len())),
            r matches Some(g) ==> g.wf() && g@ == rows_view(rows@) && g.spec_width() == (
            if rows@.len() == 0 {
                0
            } else {
                rows@[0]@.len()
            }),
    {
        if rows.len() == 0 {
            return Some(CharGrid { rows, width: 0 });
        }
        let width = rows[0].len();
        let mut y: usize = 0;
        while y < rows.len()
            invariant
                y <= rows@.len(),
                width == rows@[0]@.len(),
                forall|j: int| 0 <= j < y ==> #[trigger] rows@[j]@.len() == width,
            decreases rows@.len() - y,
        {
            if rows[y].len() != width {
                assert(rows_view(rows@)[y as int].len() != width);
                return None;
            }
            y = y + 1;
        }
        let g = CharGrid { rows, width };
        assert(is_rect(rows_view(g.rows@), width as nat));
        Some(g)
    }

    /// A grid of `width` columns holding `rows`, or `None` where a row has
    /// another length.
    pub fn with_width(width: usize, rows: Vec<Vec<char>>) -> (r: Option<CharGrid>)
        ensures
            r is Some <==> is_rect(rows_view(rows@), width as nat),
            r matches Some(g) ==> g@ == rows_view(rows@) && g.spec_width() == width,
    {
        let mut y: usize = 0;
        while y < rows.len()
            invariant
                y <= rows@.len(),
                forall|j: int| 0 <= j < y ==> #[trigger] rows@[j]@.len() == width,
            decreases rows@.len() - y,
        {
            if rows[y].len() != width {
                assert(rows_view(rows@)[y as int].len() != width);
                return None;
            }
            y = y + 1;
        }
        assert(is_rect(rows_view(rows@), width as nat));
        Some(CharGrid { rows, width })
    }

    /// Number of characters in each row.
    pub fn width(&self) -> (r: usize)
        ensures
            r == self.spec_width(),
    {
        self.width
    }

    /// Number of rows.
    pub fn height(&self) -> (r: usize)
        ensures
            r == self.spec_height(),
    {
        self.rows.len()
    }

    /// The rows, top to bottom.
    pub fn rows(&self) -> (r: &Vec<Vec<char>>)
        ensures
            rows_view(r@) == self@,
    {
        &self.rows
    }

    /// The character at column `x` of row `y`.
    pub fn get(&self, x: usize, y: usize) -> (c: char)
        requires
            y < self.spec_height(),
            x < self.spec_width(),
        ensures
            c == self@[y as int][x as int],
    {
        proof {
            use_type_invariant(self);
        }
        assert(self@[y as int].len() == self.spec_width());
        self.rows[y][x]
    }

    /// Sets every cell to `c`.
    pub fn overwrite_char_all(&mut self, c: char)
        ensures
            final(self).wf(),
            final(self).spec_width() == old(self).spec_width(),
            final(self)@ == filled(old(self).spec_width(), old(self).spec_height(), c),
    {
        proof {
            use_type_invariant(&*self);
        }
        let width = self.width;
        let height = self.rows.len();
        let mut rows: Vec<Vec<char>> = Vec::new();
        let mut y: usize = 0;
        while y < height
            invariant
                y <= height,
                rows@.len() == y,
                forall|j: int| 0 <= j < y ==> #[trigger] rows@[j]@ == Seq::new(width as nat, |x: int| c),
            decreases height - y,
        {
            let mut row: Vec<char> = Vec::new();
            let mut x: usize = 0;
            while x < width
                invariant
                    x <= width,
                    row@ == Seq::new(x as nat, |i: int| c),
                decreases width - x,
            {
                row.push(c);
                x = x + 1;
                assert(row@ =~= Seq::new(x as nat, |i: int| c));
            }
            rows.push(row);
            y = y + 1;
        }
        assert(rows_view(rows@) =~= filled(width as nat, height as nat, c));
        *self = CharGrid { rows, width };
    }

    /// The character that cell (x, y) holds once `src` is laid over the grid at (px, py).
    fn overlay_char(&self, src: &CharGrid, px: i128, py: i128, transparent: Option<char>, x: usize, y: usize) -> (c: char)
        requires
            y < self.spec_height(),
            x < self.spec_width(),
            small_offset(px),
            small_offset(py),
        ensures
            c == overlay_cell(self@, src@, px as int, py as int, transparent, x as int, y as int),
    {
        proof {
            use_type_invariant(self);
            use_type_invariant(src);
        }
        let sy: i128 = y as i128 - py;
        let sx: i128 = x as i128 - px;
        assert(self@[y as int].len() == self.spec_width());
        if 0 <= sy && sy < src.rows.len() as i128 && 0 <= sx && sx < src.width as i128 {
            assert(src@[sy as int].len() == src.spec_width());
            let s = src.rows[sy as usize][sx as usize];
            match transparent {
                Some(t) => {
                    if s == t {
                        self.rows[y][x]
                    } else {
                        s
                    }
                },
                None => s,
            }
        } else {
            self.rows[y][x]
        }
    }

    /// Lays `src` over the grid with its top-left corner at (px, py).
    fn overlay_at(&mut self, src: &CharGrid, px: i128, py: i128, transparent: Option<char>)
        requires
            small_offset(px),
            small_offset(py),
        ensures
            final(self).wf(),
            final(self).spec_width() == old(self).spec_width(),
            final(self)@ == overlay(old(self)@, src@, px as int, py as int, transparent),
    {
        proof {
            use_type_invariant(&*self);
            use_type_invariant(src);
        }
        let width = self.width;
        let height = self.rows.len();
        let ghost before = self@;
        let ghost target = overlay(before, src@, px as int, py as int, transparent);
        let mut rows: Vec<Vec<char>> = Vec::new();
        let mut y: usize = 0;
        while y < height
            invariant
                y <= height,
                height == self.spec_height(),
                width == self.spec_width(),
                self.wf(),
                self@ == before,
                src.wf(),
                small_offset(px),
                small_offset(py),
                target == overlay(before, src@, px as int, py as int, transparent),
                rows@.len() == y,
                forall|j: int| 0 <= j < y ==> #[trigger] rows@[j]@ == target[j],
            decreases height - y,
        {
            let mut row: Vec<char> = Vec::new();
            let mut x: usize = 0;
            while x < width
                invariant
                    x <= width,
                    y < height,
                    height == self.spec_height(),
                    width == self.spec_width(),
                    self.wf(),
                    self@ == before,
                    src.wf(),
                    small_offset(px),
                    small_offset(py),
                    target == overlay(before, src@, px as int, py as int, transparent),
                    row@.len() == x,
                    forall|i: int| 0 <= i < x ==> #[trigger] row@[i] == target[y as int][i],
                decreases width - x,
            {
                let c = self.overlay_char(src, px, py, transparent, x, y);
                row.push(c);
                x = x + 1;
            }
            assert(row@ =~= target[y as int]);
            rows.push(row);
            y = y + 1;
        }
        assert(rows_view(rows@) =~= target);
        assert(is_rect(target, width as nat));
        *self = CharGrid { rows, width };
    }

    /// Lays `src` over the grid with its top-left corner at `position`. Source
    /// cells equal to `transparent` leave the grid as it was, and source cells
    /// that fall outside the grid are dropped.
    pub fn overwrite_rect(&mut self, src: &CharGrid, position: CharPosition, transparent: Option<char>)
        ensures
            final(self).wf(),
            final(self).spec_width() == old(self).spec_width(),
            final(self)@ == overlay(old(self)@, src@, position.x as int, position.y as int, transparent),
    {
        self.overlay_at(src, position.x as i128, position.y as i128, transparent);
    }

    /// Lays `src` over the grid so that its centre sits `position` away from
    /// the grid's centre, with the same transparency and clipping rules as
    /// `overwrite_rect`.
    pub fn overwrite_rect_center(&mut self, src: &CharGrid, position: CharPosition, transparent: Option<char>)
        ensures
            final(self).wf(),
            final(self).spec_width() == old(self).spec_width(),
            final(self)@ == overlay(
                old(self)@,
                src@,
                centered_origin(old(self).spec_width(), src.spec_width(), position.x as int),
                centered_origin(old(self).spec_height(), src.spec_height(), position.y as int),
                transparent,
            ),
    {
        let px: i128 = position.x as i128 + (self.width / 2) as i128 - (src.width / 2) as i128;
        let py: i128 = position.y as i128 + (self.rows.len() / 2) as i128 - (src.rows.len() / 2) as i128;
        self.overlay_at(src, px, py, transparent);
    }

    /// Copies `src` into the grid from the top-left corner, transparency aside.
    pub fn copy_from(&mut self, src: &CharGrid)
        ensures
            final(self).wf(),
            final(self).spec_width() == old(self).spec_width(),
            final(self)@ == overlay(old(self)@, src@, 0, 0, None),
    {
        self.overlay_at(src, 0, 0, None);
    }

    /// Sets every cell of the rows `lo <= y < hi` to `c`.
    pub fn mask_rows(&mut self, c: char, lo: usize, hi: usize)
        ensures
            final(self).wf(),
            final(self).spec_width() == old(self).spec_width(),
            final(self)@ == masked_rows(old(self)@, lo as int, hi as int, c),
    {
        self.mask(c, lo, hi, true);
    }

    /// Sets every cell of the columns `lo <= x < hi` to `c`.
    pub fn mask_columns(&mut self, c: char, lo: usize, hi: usize)
        ensures
            final(self).wf(),
            final(self).spec_width() == old(self).spec_width(),
            final(self)@ == masked_columns(old(self)@, lo as int, hi as int, c),
    {
        self.mask(c, lo, hi, false);
    }

    /// Sets to `c` the band `lo..hi` of rows (`by_rows`) or of columns.
    fn mask(&mut self, c: char, lo: usize, hi: usize, by_rows: bool)
        ensures
            final(self).wf(),
            final(self).spec_width() == old(self).spec_width(),
            by_rows ==> final(self)@ == masked_rows(old(self)@, lo as int, hi as int, c),
            !by_rows ==> final(self)@ == masked_columns(old(self)@, lo as int, hi as int, c),
    {
        proof {
            use_type_invariant(&*self);
        }
        let width = self.width;
        let height = self.rows.len();
        let ghost before = self@;
        let ghost target = if by_rows {
            masked_rows(before, lo as int, hi as int, c)
        } else {
            masked_columns(before, lo as int, hi as int, c)
        };
        let mut rows: Vec<Vec<char>> = Vec::new();
        let mut y: usize = 0;
        while y < height
            invariant
                y <= height,
                height == self.spec_height(),
                width == self.spec_width(),
                self.wf(),
                self@ == before,
                target == (if by_rows {
                    masked_rows(before, lo as int, hi as int, c)
                } else {
                    masked_columns(before, lo as int, hi as int, c)
                }),
                rows@.len() == y,
                forall|j: int| 0 <= j < y ==> #[trigger] rows@[j]@ == target[j],
            decreases height - y,
        {
            let mut row: Vec<char> = Vec::new();
            let mut x: usize = 0;
            while x < width
                invariant
                    x <= width,
                    y < height,
                    height == self.spec_height(),
                    width == self.spec_width(),
                    self.wf(),
                    self@ == before,
                    target == (if by_rows {
                        masked_rows(before, lo as int, hi as int, c)
                    } else {
                        masked_columns(before, lo as int, hi as int, c)
                    }),
                    row@.len() == x,
                    forall|i: int| 0 <= i < x ==> #[trigger] row@[i] == target[y as int][i],
                decreases width - x,
            {
                let inside = if by_rows {
                    lo <= y && y < hi
                } else {
                    lo <= x && x < hi
                };
                assert(self@[y as int].len() == width);
                let ch = if inside {
                    c
                } else {
                    self.rows[y][x]
                };
                row.push(ch);
                x = x + 1;
            }
            assert(row@ =~= target[y as int]);
            rows.push(row);
            y = y + 1;
        }
        assert(rows_view(rows@) =~= target);
        assert(is_rect(target, width as nat));
        *self = CharGrid { rows, width };
    }
}


/// Copying a grid of the same size from the top-left corner, with nothing
/// transparent, reproduces the source.
pub proof fn lemma_copy_same_size(dst: Seq<Seq<char>>, src: Seq<Seq<char>>, width: nat)
    requires
        dst.len() == src.len(),
        is_rect(dst, width),
        is_rect(src, width),
    ensures
        overlay(dst, src, 0, 0, None) == src,
{
    let o = overlay(dst, src, 0, 0, None);
    assert forall|y: int| 0 <= y < src.len() implies #[trigger] o[y] == src[y] by {
        assert(dst[y].len() == width);
        assert(src[y].len() == width);
        assert(o[y] =~= src[y]);
    }
    assert(o =~= src);
}

/// Laying one grid over another, at any offset however far outside, keeps the
/// destination's size, changes no cell that the source does not cover, and
/// leaves the destination as it was when the source lies wholly outside it.
pub proof fn lemma_overlay_stays_inside(
    dst: Seq<Seq<char>>,
    src: Seq<Seq<char>>,
    px: int,
    py: int,
    transparent: Option<char>,
    width: nat,
    src_width: nat,
)
    requires
        is_rect(dst, width),
        is_rect(src, src_width),
    ensures
        overlay(dst, src, px, py, transparent).len() == dst.len(),
        is_rect(overlay(dst, src, px, py, transparent), width),
        forall|y: int, x: int|
            0 <= y < dst.len() && 0 <= x < width && !(py <= y < py + src.len() && px <= x < px
                + src_width) ==> #[trigger] overlay(dst, src, px, py, transparent)[y][x] == dst[y][x],
        px >= width || py >= dst.len() || px + src_width <= 0 || py + src.len() <= 0 ==> overlay(
            dst,
            src,
            px,
            py,
            transparent,
        ) == dst,
{
    let o = overlay(dst, src, px, py, transparent);
    assert forall|y: int| 0 <= y < o.len() implies #[trigger] o[y].len() == width by {
        assert(dst[y].len() == width);
    }
    assert forall|y: int, x: int|
        0 <= y < dst.len() && 0 <= x < width && !(py <= y < py + src.len() && px <= x < px + src_width) implies #[trigger] o[y][x]
        == dst[y][x] by {
        assert(dst[y].len() == width);
        if 0 <= y - py < src.len() {
            assert(src[y - py].len() == src_width);
        }
    }
    if px >= width || py >= dst.len() || px + src_width <= 0 || py + src.len() <= 0 {
        assert forall|y: int| 0 <= y < dst.len() implies #[trigger] o[y] == dst[y] by {
            assert(dst[y].len() == width);
            assert forall|x: int| 0 <= x < width implies o[y][x] == dst[y][x] by {
                if 0 <= y - py < src.len() {
                    assert(src[y - py].len() == src_width);
                }
            }
            assert(o[y] =~= dst[y]);
        }
        assert(o =~= dst);
    }
}

} // verus!
