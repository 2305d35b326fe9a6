//! Decision core of a desktop overlay: which windows exist, how they are
//! configured, and in what order the window system is asked to change them.
//!
//! Nothing here touches a window. Each command is laid out as a list of
//! steps ([`plan`]); a [`run::Run`] walks such a list, handing out one action
//! at a time and taking back what the window system answered. Work that has
//! to happen on the thread that owns the user interface is described as a
//! [`layer::LayerJob`], which says what to do next after each thing that
//! happened.

pub mod error;
pub mod greeting;
pub mod platform;
pub mod window;
pub mod layer;
pub mod plan;
pub mod run;
