pub mod model;
pub mod shortcut;
