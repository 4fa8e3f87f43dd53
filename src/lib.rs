//! The slice-rotation engine of a 3x3x3 twisty puzzle: the 27 pieces and
//! their lattice positions, the queue of pending slice moves, the
//! single-flight animator that turns one slice at a time and settles it back
//! on the lattice, and the recognizer that turns a drag on a piece into a
//! slice move.
//!
//! Nothing here holds a floating-point value. Lattice positions are small
//! integers, angles are whole millidegrees, and points in world space are
//! whole ten-thousandths of a world unit.
pub mod geometry;
pub mod moves;
pub mod cube;
pub mod animator;
pub mod gesture;
pub mod scramble;
pub mod laws;
