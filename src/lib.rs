//! Live state of a DUALSHOCK3/SIXAXIS controller read from a joystick
//! event stream: the record decoder, the state store that decoded events
//! are applied to, and the decisions of the reader loop and the handle's
//! open/close lifecycle.

pub mod controls;
pub mod event;
pub mod state;
pub mod session;
pub mod laws;

pub use controls::{Axis, Button, Shoulder};
pub use event::{Error, Event};
pub use session::Lifecycle;
pub use state::{ReaderPhase, State};
