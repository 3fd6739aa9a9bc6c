//! Keyboard-driven pointer control: key translation and modifier tracking,
//! chord parsing and configuration, the modal state machine, a fixed-point
//! movement integrator, hint-grid planning, the binary records of a virtual
//! pointer device, and the decisions of the control loop.

pub mod config;
pub mod hints;
pub mod input;
pub mod output;
pub mod physics;
pub mod session;
pub mod state;
pub mod text;
