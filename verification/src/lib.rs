//! Course graphs for ear-training material.
//!
//! A course is declared as an ordered list of lessons, each with an
//! identifier that is unique within the course and a list of prerequisite
//! lessons named by those identifiers. [`builder::build`] turns such a
//! declaration into a graph of lesson nodes with course-qualified
//! identifiers, or reports the first fault of the declaration.
//!
//! The modules [`interval_comparison`] and [`melody_singback`] declare two
//! courses and build their graphs. Their lessons are numbered by unit and
//! index, which [`numbering`] turns into a proof that the declarations are
//! accepted.

pub mod builder;
pub mod catalog;
pub mod course;
mod cycle;
pub mod error;
pub mod graph;
pub mod interval_comparison;
pub mod melody_singback;
pub mod metadata;
pub mod namespace;
pub mod numbering;
pub mod outcome;
pub mod text;
