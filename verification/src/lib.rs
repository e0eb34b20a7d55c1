//! A minimal real-time rendering host: it owns the model of a window-bound
//! presentable surface, a single fixed-function render pipeline, and the
//! per-frame state machine that clears the surface and issues one draw call,
//! tolerating transient surface failures (resize, loss, timeout).
//!
//! The window system and the graphics backend are external collaborators:
//! they deliver resize notifications, a close signal and acquire outcomes,
//! and they perform the GPU work that the decisions here call for.

pub mod driver;
pub mod frame;
pub mod pipeline;
pub mod surface;
