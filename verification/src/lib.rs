//! A three-pane terminal front end for direct messages: where the panes go
//! on the screen, how the draw-and-wait loop reacts to input, and in what
//! order the terminal is taken over and handed back.

pub mod event;
pub mod layout;
pub mod region;
pub mod render_loop;
pub mod session;
