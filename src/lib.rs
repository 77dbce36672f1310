//! A terminal rendering engine: integer geometry and rasterisation, a
//! double-buffered grid of styled cells with change diffing, an ANSI
//! control-sequence encoder, a frame pacer, and a small entity store.
pub mod app_loop;
pub mod ecs;
pub mod linalg;
pub mod renderer;
pub mod shapes;
pub mod style;
pub mod terminal;
pub mod timer;

