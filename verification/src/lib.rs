//! Authorization state and keyboard input planning for typing text through the
//! XDG RemoteDesktop portal on Wayland.

pub mod keysym;
pub mod digits;
pub mod keystrokes;
pub mod messages;
pub mod normalize;
pub mod authorization;
pub mod laws;
