//! A shop scene's story generator and sprite rules: a fixed table of sentence
//! fragments tagged with jam effects, the story assembled from one fragment per
//! slot, the frame advance of a looping sprite sheet, and the decisions that
//! move a sprite back and forth between two points.

pub mod animation;
pub mod effect;
pub mod motion;
pub mod phrases;
pub mod story;
