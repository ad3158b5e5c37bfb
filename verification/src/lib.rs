//! The rules of a small desktop launcher: which state the path field is in,
//! what the cache record holds, what each notification says and how a launch
//! proceeds. Everything that touches the screen, a child process or the
//! notification service is handed in and out as plain values.

pub mod paths;
pub mod text;
pub mod logo;
pub mod notifier;
pub mod checker;
pub mod cache;
pub mod process;
pub mod frame;
