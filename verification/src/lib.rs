//! Control logic of the GoodbyeDPI desktop launcher: the preset catalog, the
//! persisted settings, the runtime state of the managed process and the
//! decisions taken while starting, watching and stopping it.

pub mod clock;
pub mod commands;
pub mod presets;
pub mod resources;
pub mod runtime;
pub mod settings;
pub mod start;
pub mod status;
pub mod text;
