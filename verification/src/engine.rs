//! The narrative engine: scenes, the surface they are shown on, and the
//! widgets through which the reader answers.

pub mod choice;
pub mod input;
pub mod scenes;
pub mod session;
pub mod sources;
pub mod state;
pub mod surface;
