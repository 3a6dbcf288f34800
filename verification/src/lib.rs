//! Decision logic of a native window and webview host for hypermedia-driven
//! desktop apps: when a build runs from an app bundle, which links leave the
//! webview, which key presses close the window, and how the preview session
//! reacts to each event it receives.

pub mod bundle;
pub mod events;
pub mod external;
pub mod preview;
pub mod update;
