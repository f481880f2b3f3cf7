//! Editing core of a terminal text editor: rope-backed text storage, line
//! buffers with cursor tracking, windows over buffers, a retained widget tree
//! with dirty flags, and a queue of events dispatched on idle ticks.
//!
//! Nothing here touches the terminal. Rendering produces a list of
//! [`renderer::widgets::Command`] values that the caller replays on a device.

pub mod app;
pub mod text;
pub mod experiments;
pub mod modes;
pub mod renderer;
