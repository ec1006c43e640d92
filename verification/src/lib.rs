//! Menu screens of a small game: their widgets, the feedback that buttons give
//! to the pointer, and the changes of game state that clicks ask of the host.

pub mod menu;
