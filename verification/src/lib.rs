//! A one-dimensional cellular automaton engine in the style of Wolfram's
//! elementary automata: a row of boolean cells evolves generation by
//! generation, each cell's successor determined by a local rule applied to a
//! toroidal (wrap-around) neighborhood.

pub mod control_state;
pub mod count_state_handler;
pub mod indexing;
pub mod pattern_state_handler;
pub mod wolframs_universe;
