//! The simulation itself: action, moves, Metropolis driver and the
//! triangulation wrapper.

pub mod action;
pub mod ergodic_moves;
pub mod metropolis;
pub mod triangulation;
