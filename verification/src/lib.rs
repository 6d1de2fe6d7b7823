//! Decision logic of a desktop command bar: the table of global shortcut
//! presets, the registry of the active preset, and the controller of the
//! popup window.
//!
//! Nothing here touches the operating system. Each operation takes what the
//! host observed (the window's phase, the outcome of a registration, the
//! frontmost process) and answers with the next state and the calls the host
//! is to make, in order.

pub mod chord;
pub mod error;
pub mod platform;
pub mod preset;
pub mod registry;
pub mod state;
pub mod text;
pub mod theorems;
pub mod window;
