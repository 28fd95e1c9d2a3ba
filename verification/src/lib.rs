//! Bread recipes in baker's percentages: scaling a recipe to a weight of flour,
//! and adjusting the scaled recipe for baking at high altitude.
//!
//! Every amount is an exact fraction, so the rules hold to the letter: nothing
//! is rounded.

pub mod flour;
pub mod highaltitude;
pub mod quantity;
pub mod recipe;
pub mod yeast;
