pub mod automaton;
pub mod capture;
pub mod fill;
pub mod grid;
pub mod random;
pub mod rule;
pub mod stroke;
pub mod walk;
