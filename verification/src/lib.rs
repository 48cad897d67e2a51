pub mod editor;
pub mod ids;
pub mod launch;
pub mod model;
pub mod monitor;
pub mod path;
pub mod picker;
pub mod text;
pub mod window;
