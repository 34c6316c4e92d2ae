//! Control core of a touchscreen camera viewer: which camera is shown, when
//! the viewer moves on to the next one, how a decode session is started and
//! retired, and how frames and overlay pixels land on a raw display surface.

pub mod activation;
pub mod camera;
pub mod display;
pub mod input;
pub mod scheduler;
pub mod session;
