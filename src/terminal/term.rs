use vstd::prelude::*;

use crate::linalg::point2::Point2;
use crate::linalg::vec2::Vec2;
use crate::renderer::{clear_seq, move_seq, show_cursor_seq, Renderer};
use crate::terminal::block::{block_bytes, Block};
use crate::terminal::cell::Cell;

verus! {

/// Terminal column of the first screen column of block `i`.
pub open spec fn screen_col(i: int, width: int, ratio: int) -> int {
    (i % width) * ratio
}

/// Terminal row of block `i`.
pub open spec fn screen_row(i: int, width: int) -> int {
    i / width
}

/// The output for the dirty blocks among the first `k`, in index order.
pub open spec fn frame_upto(
    cells: Seq<Cell>,
    dirty: Seq<bool>,
    width: int,
    ratio: int,
    k: int,
) -> Seq<u8>
    decreases k,
{
    if k <= 0 {
        Seq::empty()
    } else {
        frame_upto(cells, dirty, width, ratio, k - 1) + if dirty[k - 1] {
            block_bytes(
                cells[k - 1],
                screen_row(k - 1, width) as nat,
                screen_col(k - 1, width, ratio) as nat,
                ratio as nat,
            )
        } else {
            Seq::empty()
        }
    }
}

/// The output of one render pass: every dirty block, then the cursor back
/// at the grid's origin.
pub open spec fn frame_bytes(cells: Seq<Cell>, dirty: Seq<bool>, width: int, ratio: int) -> Seq<
    u8,
> {
    frame_upto(cells, dirty, width, ratio, cells.len() as int) + move_seq(0, 0)
}

/// The cells after writing `c` everywhere.
pub open spec fn filled_cells(cells: Seq<Cell>, c: Cell) -> Seq<Cell> {
    Seq::new(cells.len(), |i: int| c)
}

/// The dirty flags after writing `c` everywhere: a block becomes dirty only
/// where its cell changes.
pub open spec fn filled_dirty(cells: Seq<Cell>, dirty: Seq<bool>, c: Cell) -> Seq<bool> {
    Seq::new(cells.len(), |i: int| dirty[i] || cells[i] != c)
}

/// Whether one of the first `k` points falls on block `i` of a grid `width`
/// blocks wide.
pub open spec fn hit(points: Seq<Point2>, k: int, width: int, i: int) -> bool {
    exists|j: int| 0 <= j < k && #[trigger] points[j].x + points[j].y * width == i
}

/// Whether every point lies on a grid of `width` by `height` blocks.
pub open spec fn all_on_grid(points: Seq<Point2>, width: int, height: int) -> bool {
    forall|j: int| 0 <= j < points.len() ==> (#[trigger] points[j]).x < width && points[j].y < height
}

/// All flags clear.
pub open spec fn all_clean(n: nat) -> Seq<bool> {
    Seq::new(n, |i: int| false)
}

/// Column and row of cell `index` in a row-major grid `width` cells wide.
pub fn cell_index_to_cell_position(index: usize, width: usize) -> (r: Point2)
    requires
        width > 0,
    ensures
        r.x == index % width,
        r.y == index / width,
{
    Point2 { x: index % width, y: index / width }
}

/// Index of the cell at `pos` in a row-major grid `width` cells wide.
pub fn cell_position_to_cell_index(pos: Point2, width: usize) -> (r: usize)
    requires
        pos.x + pos.y * width <= usize::MAX,
    ensures
        r == pos.x + pos.y * width,
{
    proof {
        assert(pos.y * width >= 0) by (nonlinear_arith)
            requires
                pos.y >= 0,
                width >= 0,
        ;
    }
    pos.x + pos.y * width
}

/// The grid of blocks, row-major, with the terminal's working area starting
/// at the top-left corner of the screen.
pub struct Terminal {
    width: usize,
    height: usize,
    blocks: Vec<Block>,
    cursor_ratio: usize,
}

impl Terminal {
    /// Every block covers `cursor_ratio` columns, there are `width * height`
    /// of them, and every screen position fits.
    pub closed spec fn wf(&self) -> bool {
        &&& self.blocks@.len() == self.width * self.height
        &&& forall|i: int| 0 <= i < self.blocks@.len() ==> (#[trigger] self.blocks@[i]).ratio() == self.cursor_ratio
        &&& self.width * self.cursor_ratio < usize::MAX
        &&& self.height < usize::MAX
        &&& self.width > 0
        &&& self.width <= isize::MAX
        &&& self.height <= isize::MAX
    }

    /// Blocks per row.
    pub closed spec fn width(&self) -> nat {
        self.width as nat
    }

    /// Rows.
    pub closed spec fn height(&self) -> nat {
        self.height as nat
    }

    /// Terminal columns per block.
    pub closed spec fn ratio(&self) -> nat {
        self.cursor_ratio as nat
    }

    /// The cells of the blocks, row-major.
    pub closed spec fn cells(&self) -> Seq<Cell> {
        Seq::new(self.blocks@.len(), |i: int| self.blocks@[i].cell())
    }

    /// The dirty flags of the blocks, row-major.
    pub closed spec fn dirty(&self) -> Seq<bool> {
        Seq::new(self.blocks@.len(), |i: int| self.blocks@[i].dirty())
    }

    /// A grid of `size.x` by `size.y` blank blocks, each `cursor_ratio`
    /// columns wide, all dirty so that the first frame draws everything.
    pub fn new(size: Vec2, cursor_ratio: usize) -> (r: Terminal)
        requires
            size.x > 0,
            size.y >= 0,
            size.x * size.y <= usize::MAX,
            size.x * cursor_ratio < usize::MAX,
            size.y < usize::MAX,
        ensures
            r.wf(),
            r.width() == size.x,
            r.height() == size.y,
            r.ratio() == cursor_ratio,
            r.cells() == Seq::new((size.x * size.y) as nat, |i: int| Cell::empty_spec()),
            r.dirty() == Seq::new((size.x * size.y) as nat, |i: int| true),
    {
        let width = size.x as usize;
        let height = size.y as usize;
        let n = width * height;
        let mut blocks: Vec<Block> = Vec::new();
        let mut i: usize = 0;
        while i < n
            invariant
                0 <= i <= n,
                blocks@.len() == i,
                forall|j: int|
                    0 <= j < i ==> (#[trigger] blocks@[j]).ratio() == cursor_ratio
                        && blocks@[j].cell() == Cell::empty_spec() && blocks@[j].dirty(),
            decreases n - i,
        {
            blocks.push(Block::new(Cell::empty(), cursor_ratio));
            i = i + 1;
        }
        let r = Terminal { width, height, blocks, cursor_ratio };
        assert(r.cells() =~= Seq::new((size.x * size.y) as nat, |i: int| Cell::empty_spec()));
        assert(r.dirty() =~= Seq::new((size.x * size.y) as nat, |i: int| true));
        r
    }

    /// Blocks per row and rows.
    pub fn size(&self) -> (r: Vec2)
        requires
            self.wf(),
        ensures
            r.x == self.width(),
            r.y == self.height(),
    {
        Vec2 { x: self.width as isize, y: self.height as isize }
    }

    /// Number of blocks.
    pub fn area(&self) -> (r: usize)
        requires
            self.wf(),
        ensures
            r == self.width() * self.height(),
    {
        self.blocks.len()
    }

    /// Terminal columns per block.
    pub fn cursor_ratio(&self) -> (r: usize)
        requires
            self.wf(),
        ensures
            r == self.ratio(),
    {
        self.cursor_ratio
    }

    /// Index in the block buffer of the block at `position`.
    pub fn block_position_to_buffer_index(&self, position: Point2) -> (r: usize)
        requires
            self.wf(),
            position.x < self.width(),
            position.y < self.height(),
        ensures
            r == position.x + position.y * self.width(),
            r < self.cells().len(),
    {
        proof {
            assert(position.y * self.width + position.x < self.width * self.height) by (nonlinear_arith)
                requires
                    position.x < self.width,
                    position.y < self.height,
            ;
        }
        let n = self.blocks.len();
        proof {
            assert(position.y * self.width <= position.y * self.width + position.x);
        }
        let row_start = position.y * self.width;
        position.x + row_start
    }

    /// Screen position of the first column of block `index`.
    pub fn block_index_to_screen_position(&self, index: usize) -> (r: Point2)
        requires
            self.wf(),
            index < self.cells().len(),
        ensures
            r.x == screen_col(index as int, self.width() as int, self.ratio() as int),
            r.y == screen_row(index as int, self.width() as int),
            r.x + self.ratio() < usize::MAX,
            r.y < usize::MAX,
    {
        let col = index % self.width;
        let row = index / self.width;
        proof {
            assert(col * self.cursor_ratio + self.cursor_ratio <= self.width * self.cursor_ratio) by (nonlinear_arith)
                requires
                    col < self.width,
            ;
            assert(row < self.height) by (nonlinear_arith)
                requires
                    row == index / self.width,
                    index < self.width * self.height,
                    self.width > 0,
            ;
        }
        Point2 { x: col * self.cursor_ratio, y: row }
    }

    /// The block at `position`.
    pub fn at(&self, position: Point2) -> (r: Block)
        requires
            self.wf(),
            position.x < self.width(),
            position.y < self.height(),
        ensures
            r.cell() == self.cells()[position.x + position.y * self.width()],
            r.dirty() == self.dirty()[position.x + position.y * self.width()],
    {
        let index = self.block_position_to_buffer_index(position);
        self.blocks[index]
    }

    /// Writes `cell` at `position`.
    pub fn draw(&mut self, position: Point2, cell: Cell)
        requires
            old(self).wf(),
            position.x < old(self).width(),
            position.y < old(self).height(),
        ensures
            ({
                let i = position.x + position.y * old(self).width();
                &&& 0 <= i < old(self).cells().len()
                &&& final(self).cells() == old(self).cells().update(i, cell)
                &&& final(self).dirty() == old(self).dirty().update(
                    i,
                    old(self).dirty()[i] || old(self).cells()[i] != cell,
                )
            }),
            final(self).wf(),
            final(self).width() == old(self).width(),
            final(self).height() == old(self).height(),
            final(self).ratio() == old(self).ratio(),
    {
        let index = self.block_position_to_buffer_index(position);
        self.blocks[index].change_cell(cell);
        assert(self.cells() =~= old(self).cells().update(index as int, cell));
        assert(self.dirty() =~= old(self).dirty().update(
            index as int,
            old(self).dirty()[index as int] || old(self).cells()[index as int] != cell,
        ));
    }

    /// Writes `cell` at each of `points`.
    pub fn draw_points(&mut self, points: &Vec<Point2>, cell: Cell)
        requires
            old(self).wf(),
            all_on_grid(points@, old(self).width() as int, old(self).height() as int),
        ensures
            final(self).wf(),
            final(self).width() == old(self).width(),
            final(self).height() == old(self).height(),
            final(self).ratio() == old(self).ratio(),
            final(self).cells().len() == old(self).cells().len(),
            forall|i: int|
                0 <= i < old(self).cells().len() ==> if hit(
                    points@,
                    points@.len() as int,
                    old(self).width() as int,
                    i,
                ) {
                    final(self).cells()[i] == cell && final(self).dirty()[i] == (
                    old(self).dirty()[i] || old(self).cells()[i] != cell)
                } else {
                    final(self).cells()[i] == old(self).cells()[i] && final(self).dirty()[i]
                        == old(self).dirty()[i]
                },
    {
        let ghost w = self.width as int;
        let mut k: usize = 0;
        while k < points.len()
            invariant
                0 <= k <= points@.len(),
                self.wf(),
                self.width == old(self).width,
                self.height == old(self).height,
                self.cursor_ratio == old(self).cursor_ratio,
                w == self.width,
                all_on_grid(points@, self.width as int, self.height as int),
                self.cells().len() == old(self).cells().len(),
                forall|i: int|
                    0 <= i < old(self).cells().len() ==> if hit(points@, k as int, w, i) {
                        self.cells()[i] == cell && self.dirty()[i] == (old(self).dirty()[i]
                            || old(self).cells()[i] != cell)
                    } else {
                        self.cells()[i] == old(self).cells()[i] && self.dirty()[i] == old(
                            self,
                        ).dirty()[i]
                    },
            decreases points@.len() - k,
        {
            let point = points[k];
            let ghost before = *self;
            let ghost idx = point.x + point.y * before.width();
            self.draw(point, cell);
            proof {
                assert(idx == point.x + point.y * w);
                assert(self.cells() == before.cells().update(idx, cell));
                assert forall|i: int| 0 <= i < old(self).cells().len() implies if hit(
                    points@,
                    k + 1,
                    w,
                    i,
                ) {
                    self.cells()[i] == cell && self.dirty()[i] == (old(self).dirty()[i]
                        || old(self).cells()[i] != cell)
                } else {
                    self.cells()[i] == old(self).cells()[i] && self.dirty()[i] == old(
                        self,
                    ).dirty()[i]
                } by {
                    if i == idx {
                        assert(points@[k as int].x + points@[k as int].y * w == i);
                        assert(hit(points@, k + 1, w, i));
                        assert(self.cells()[i] == cell);
                        assert(self.dirty()[i] == (before.dirty()[i] || before.cells()[i] != cell));
                        if hit(points@, k as int, w, i) {
                            assert(before.cells()[i] == cell);
                        } else {
                            assert(before.cells()[i] == old(self).cells()[i]);
                        }
                    } else {
                        assert(self.cells()[i] == before.cells()[i]);
                        assert(self.dirty()[i] == before.dirty()[i]);
                        if hit(points@, k + 1, w, i) {
                            let j = choose|j: int|
                                0 <= j < k + 1 && #[trigger] points@[j].x + points@[j].y * w == i;
                            assert(j != k);
                            assert(hit(points@, k as int, w, i));
                        }
                        if hit(points@, k as int, w, i) {
                            let j = choose|j: int|
                                0 <= j < k && #[trigger] points@[j].x + points@[j].y * w == i;
                            assert(hit(points@, k + 1, w, i));
                        }
                    }
                }
            }
            k = k + 1;
        }
    }

    /// Writes `cell` at every block.
    pub fn fill(&mut self, cell: Cell)
        requires
            old(self).wf(),
        ensures
            final(self).wf(),
            final(self).cells() == filled_cells(old(self).cells(), cell),
            final(self).dirty() == filled_dirty(old(self).cells(), old(self).dirty(), cell),
            final(self).width() == old(self).width(),
            final(self).height() == old(self).height(),
            final(self).ratio() == old(self).ratio(),
    {
        let n = self.blocks.len();
        let mut i: usize = 0;
        while i < n
            invariant
                0 <= i <= n,
                n == old(self).cells().len(),
                self.blocks@.len() == n,
                self.width == old(self).width,
                self.height == old(self).height,
                self.cursor_ratio == old(self).cursor_ratio,
                forall|j: int|
                    0 <= j < i ==> (#[trigger] self.blocks@[j]).cell() == cell && self.blocks@[j].dirty()
                        == (old(self).dirty()[j] || old(self).cells()[j] != cell),
                forall|j: int| i <= j < n ==> #[trigger] self.blocks@[j] == old(self).blocks@[j],
                forall|j: int| 0 <= j < n ==> (#[trigger] self.blocks@[j]).ratio() == self.cursor_ratio,
            decreases n - i,
        {
            self.blocks[i].change_cell(cell);
            i = i + 1;
        }
        assert(self.cells() =~= filled_cells(old(self).cells(), cell));
        assert(self.dirty() =~= filled_dirty(old(self).cells(), old(self).dirty(), cell));
    }

    /// Writes a blank at every block.
    pub fn erase(&mut self)
        requires
            old(self).wf(),
        ensures
            final(self).wf(),
            final(self).cells() == filled_cells(old(self).cells(), Cell::empty_spec()),
            final(self).dirty() == filled_dirty(old(self).cells(), old(self).dirty(), Cell::empty_spec()),
            final(self).width() == old(self).width(),
            final(self).height() == old(self).height(),
            final(self).ratio() == old(self).ratio(),
    {
        self.fill(Cell::empty());
    }

    /// One frame: draws every dirty block, marking it clean, then moves the
    /// cursor back to the origin. Clean blocks produce no output.
    pub fn render_frame(&mut self, renderer: &mut Renderer)
        requires
            old(self).wf(),
        ensures
            final(self).wf(),
            final(renderer).pending() == old(renderer).pending() + frame_bytes(
                old(self).cells(),
                old(self).dirty(),
                old(self).width() as int,
                old(self).ratio() as int,
            ),
            final(self).cells() == old(self).cells(),
            final(self).dirty() == all_clean(old(self).cells().len()),
            final(self).width() == old(self).width(),
            final(self).height() == old(self).height(),
            final(self).ratio() == old(self).ratio(),
    {
        let ghost cells = old(self).cells();
        let ghost dirty = old(self).dirty();
        let n = self.blocks.len();
        let mut i: usize = 0;
        while i < n
            invariant
                0 <= i <= n,
                n == cells.len(),
                cells == old(self).cells(),
                dirty == old(self).dirty(),
                self.blocks@.len() == n,
                self.width == old(self).width,
                self.height == old(self).height,
                self.cursor_ratio == old(self).cursor_ratio,
                n == self.width * self.height,
                self.width * self.cursor_ratio < usize::MAX,
                self.height < usize::MAX,
                self.width > 0,
                self.width <= isize::MAX,
                self.height <= isize::MAX,
                forall|j: int| 0 <= j < n ==> (#[trigger] self.blocks@[j]).cell() == cells[j],
                forall|j: int| 0 <= j < i ==> !(#[trigger] self.blocks@[j]).dirty(),
                forall|j: int| i <= j < n ==> (#[trigger] self.blocks@[j]).dirty() == dirty[j],
                forall|j: int| 0 <= j < n ==> (#[trigger] self.blocks@[j]).ratio() == self.cursor_ratio,
                renderer.pending() == old(renderer).pending() + frame_upto(
                    cells,
                    dirty,
                    self.width as int,
                    self.cursor_ratio as int,
                    i as int,
                ),
            decreases n - i,
        {
            let ghost before = renderer.pending();
            if self.blocks[i].is_dirty() {
                let position = self.block_index_to_screen_position(i);
                self.blocks[i].render_cells(position, renderer);
            }
            assert(renderer.pending() =~= old(renderer).pending() + frame_upto(
                cells,
                dirty,
                self.width as int,
                self.cursor_ratio as int,
                i + 1,
            ));
            i = i + 1;
        }
        renderer.move_cursor(Point2 { x: 0, y: 0 });
        assert(renderer.pending() =~= old(renderer).pending() + frame_bytes(
            cells,
            dirty,
            self.width as int,
            self.cursor_ratio as int,
        ));
        assert(self.cells() =~= cells);
        assert(self.dirty() =~= all_clean(cells.len()));
    }

    /// Leaves the terminal as it was before drawing: shows the cursor and
    /// clears the screen. Safe to repeat.
    pub fn restore(renderer: &mut Renderer)
        ensures
            final(renderer).pending() == old(renderer).pending() + show_cursor_seq() + clear_seq(),
    {
        renderer.show_cursor();
        renderer.clear();
    }
}

} // verus!

verus! {

/// With every flag clear, a render pass draws no block.
proof fn lemma_clean_frame_empty(cells: Seq<Cell>, dirty: Seq<bool>, width: int, ratio: int, k: int)
    requires
        0 <= k <= cells.len(),
        dirty.len() == cells.len(),
        forall|i: int| 0 <= i < dirty.len() ==> !#[trigger] dirty[i],
    ensures
        frame_upto(cells, dirty, width, ratio, k) == Seq::<u8>::empty(),
    decreases k,
{
    if k > 0 {
        lemma_clean_frame_empty(cells, dirty, width, ratio, k - 1);
        assert(frame_upto(cells, dirty, width, ratio, k) =~= Seq::<u8>::empty());
    }
}

/// Filling the grid with a cell, rendering, and filling it again with the
/// same cell leaves nothing to draw: the next render only moves the cursor
/// back to the origin.
pub proof fn lemma_refill_draws_nothing(
    cells: Seq<Cell>,
    dirty: Seq<bool>,
    c: Cell,
    width: int,
    ratio: int,
)
    requires
        dirty.len() == cells.len(),
    ensures
        ({
            let cells1 = filled_cells(cells, c);
            let cells2 = filled_cells(cells1, c);
            let dirty2 = filled_dirty(cells1, all_clean(cells1.len()), c);
            frame_bytes(cells2, dirty2, width, ratio) == move_seq(0, 0)
        }),
{
    let cells1 = filled_cells(cells, c);
    let cells2 = filled_cells(cells1, c);
    let dirty2 = filled_dirty(cells1, all_clean(cells1.len()), c);
    assert forall|i: int| 0 <= i < dirty2.len() implies !#[trigger] dirty2[i] by {}
    lemma_clean_frame_empty(cells2, dirty2, width, ratio, cells2.len() as int);
    assert(frame_bytes(cells2, dirty2, width, ratio) =~= move_seq(0, 0));
}

} // verus!
