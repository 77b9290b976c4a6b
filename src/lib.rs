//! Tetromino geometry: the seven canonical pieces, their four orientation
//! views over a small grid of named offsets, and the rotation steps.
pub mod pieces;
