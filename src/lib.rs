//! Escape-time fractal evaluation: the integer side of the engine and of the
//! interactive view, with its contracts proved.
//!
//! The floating-point sampling, the escape iteration itself and the window
//! front end live in the application around this library; here stand the
//! parts that decide: grid validation, row partitioning, the row arena that
//! assembles a matrix, colour schemes, image bytes and the input reducer.

use vstd::prelude::*;

pub mod color;
pub mod config;
pub mod interaction;
pub mod partition;
pub mod render;
pub mod rows;

pub use color::{ColorScheme, ColorSchemes, MandelRGB};
pub use config::{check_axis_count, check_grid, ConfigError, Resolution};
pub use interaction::{Controls, Gesture, InputEvent, Key, ScreenPoint, ViewAction, ViewState};
pub use partition::{default_worker_budget, partition_rows, worker_budget, RowRange};
pub use render::{get_image_buf, render_rgb, RgbPicture};
pub use rows::{fill_row, fill_unit, EvaluationFailure, RowSlot, RowSlots, SlotError, WorkUnit};

verus! {

} // verus!
