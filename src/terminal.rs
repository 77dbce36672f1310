//! The double-buffered terminal grid: cells, blocks with dirty flags, and the
//! diffing render pass.
pub mod block;
pub mod cell;
pub mod term;

pub use block::Block;
pub use cell::Cell;
pub use term::{cell_index_to_cell_position, cell_position_to_cell_index, Terminal};
