//! The logic of a window to a music player daemon.
//!
//! A widget's signal becomes a message ([`message`]), a message an action ([`dispatch`]). What
//! the daemon reports ([`status`], [`song`]) is taken into the [`model`], and the model is shown
//! in the window ([`win`]), with times as text ([`text`]) of spans ([`span`]). The [`settings`]
//! tell where the daemon listens. What relates these to each other stands in [`laws`].

pub mod dispatch;
pub mod laws;
pub mod message;
pub mod model;
pub mod settings;
pub mod song;
pub mod span;
pub mod status;
pub mod text;
pub mod win;
