//! A kanban board held in memory: columns in insertion order, items with
//! identifiers that are handed out once and never again, and the operations
//! that create, edit, move and remove them. Every operation is specified
//! over a mathematical model of the board and proved against it.

pub mod board;
pub mod column;
pub mod command;
pub mod input;
pub mod item;
pub mod laws;
pub mod model;
pub mod render;
