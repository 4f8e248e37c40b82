//! Activity model, reducer and presentation rules of a top-of-screen
//! activity island.
pub mod model;
pub mod text;
pub mod table;
pub mod clock;
pub mod reducer;
pub mod laws;
pub mod demo;
pub mod presentation;
pub mod control;
