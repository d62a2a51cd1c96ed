pub mod pitch;
pub mod presets;
pub mod app;
pub mod text;
pub mod audio;
pub mod note;
pub mod meter;
pub mod view;
pub mod screen;
