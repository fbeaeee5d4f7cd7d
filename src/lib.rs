//! A grid-stepping sprite animation core for a terminal game loop.
//!
//! Every length is an integer count of thousandths of a canvas unit, and the
//! frame time-scale is an integer count of thousandths, so the whole core is
//! exact integer arithmetic.
pub mod character;
pub mod frame_data;
pub mod inputs;
pub mod position;
pub mod progress;
