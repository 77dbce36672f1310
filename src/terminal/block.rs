use vstd::prelude::*;

use crate::linalg::point2::Point2;
use crate::renderer::{bg_seq, fg_seq, move_seq, reset_bg_seq, reset_fg_seq, utf8, Renderer};
use crate::style::color::Color;
use crate::terminal::cell::Cell;

verus! {

/// The output that draws `cell` at a 0-based row and column: move there,
/// set the background, set the foreground, write the character.
pub open spec fn cell_bytes(cell: Cell, row: nat, col: nat) -> Seq<u8> {
    move_seq(row, col) + match cell.bg {
        Color::Rgb(c) => bg_seq(c),
        Color::Default => reset_bg_seq(),
    } + match cell.fg {
        Color::Rgb(c) => fg_seq(c),
        Color::Default => reset_fg_seq(),
    } + utf8(cell.char)
}

/// The output that draws `cell` in the first `k` columns from `col`.
pub open spec fn block_bytes(cell: Cell, row: nat, col: nat, k: nat) -> Seq<u8>
    decreases k,
{
    if k == 0 {
        Seq::empty()
    } else {
        block_bytes(cell, row, col, (k - 1) as nat) + cell_bytes(cell, row, (col + k - 1) as nat)
    }
}

/// One logical cell of the grid, drawn over `cursor_ratio` terminal columns,
/// with a flag telling whether it changed since it was last drawn.
#[derive(Clone, Copy, Debug, PartialEq, Eq, Structural)]
pub struct Block {
    cell: Cell,
    cursor_ratio: usize,
    dirty: bool,
}

impl Block {
    /// The block's cell.
    pub closed spec fn cell(&self) -> Cell {
        self.cell
    }

    /// How many terminal columns the block covers.
    pub closed spec fn ratio(&self) -> usize {
        self.cursor_ratio
    }

    /// Whether the block changed since it was last drawn.
    pub closed spec fn dirty(&self) -> bool {
        self.dirty
    }

    /// A block not yet drawn.
    pub fn new(cell: Cell, cursor_ratio: usize) -> (r: Block)
        ensures
            r.cell() == cell,
            r.ratio() == cursor_ratio,
            r.dirty(),
    {
        Block { cell, cursor_ratio, dirty: true }
    }

    /// The block's cell.
    pub fn get_cell(&self) -> (r: Cell)
        ensures
            r == self.cell(),
    {
        self.cell
    }

    /// Puts `new_cell` in the block. The block becomes dirty only if the
    /// cell differs from the one it holds, so writing what is already there
    /// costs no output.
    pub fn change_cell(&mut self, new_cell: Cell)
        ensures
            final(self).cell() == new_cell,
            final(self).ratio() == old(self).ratio(),
            final(self).dirty() == (old(self).dirty() || old(self).cell() != new_cell),
    {
        if self.cell != new_cell {
            self.cell = new_cell;
            self.dirty = true;
        }
    }

    /// Whether the block changed since it was last drawn.
    pub fn is_dirty(&self) -> (r: bool)
        ensures
            r == self.dirty(),
    {
        self.dirty
    }

    /// Draws the block with its first column at `position`, and marks it
    /// clean.
    pub fn render_cells(&mut self, position: Point2, renderer: &mut Renderer)
        requires
            position.x + old(self).ratio() < usize::MAX,
            position.y < usize::MAX,
        ensures
            final(renderer).pending() == old(renderer).pending() + block_bytes(
                old(self).cell(),
                position.y as nat,
                position.x as nat,
                old(self).ratio() as nat,
            ),
            final(self).cell() == old(self).cell(),
            final(self).ratio() == old(self).ratio(),
            !final(self).dirty(),
    {
        self.dirty = false;
        let mut k: usize = 0;
        while k < self.cursor_ratio
            invariant
                0 <= k <= self.cursor_ratio,
                self.cell == old(self).cell,
                self.cursor_ratio == old(self).cursor_ratio,
                !self.dirty,
                position.x + self.cursor_ratio < usize::MAX,
                position.y < usize::MAX,
                renderer.pending() == old(renderer).pending() + block_bytes(
                    self.cell,
                    position.y as nat,
                    position.x as nat,
                    k as nat,
                ),
            decreases self.cursor_ratio - k,
        {
            let ghost before = renderer.pending();
            renderer.move_cursor(Point2 { x: position.x + k, y: position.y });
            match self.cell.bg {
                Color::Rgb(c) => renderer.change_bg(&c),
                Color::Default => renderer.reset_bg(),
            }
            match self.cell.fg {
                Color::Rgb(c) => renderer.change_fg(&c),
                Color::Default => renderer.reset_fg(),
            }
            renderer.write(self.cell.char);
            assert(renderer.pending() =~= before + cell_bytes(
                self.cell,
                position.y as nat,
                (position.x + k) as nat,
            ));
            k = k + 1;
            assert(renderer.pending() =~= old(renderer).pending() + block_bytes(
                self.cell,
                position.y as nat,
                position.x as nat,
                k as nat,
            ));
        }
    }
}

} // verus!
