//! A terminal image viewer core: a normalized viewport into a source raster,
//! an aspect-correcting resample onto a cell grid, a run-merging cell renderer
//! and the input state machine that drives them.

pub mod color;
pub mod image_view;
pub mod raster;
pub mod render;
pub mod resample;
pub mod viewport;
