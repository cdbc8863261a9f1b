//! Settings, swatch rendering and the extraction workflow of a desktop tool
//! that shows the prominent colours of an image.
pub mod choices;
pub mod prepare;
pub mod state;
pub mod swatch;
pub mod text;
