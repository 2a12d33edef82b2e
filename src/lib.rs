//! The motion and growth rules of a wraparound snake game: a head that steps
//! across a bounded area, a single food slot, and a body that grows by one
//! segment per food eaten and trails the head one tick behind.

pub mod components;
pub mod constants;
pub mod motion;
pub mod game;
pub mod laws;
